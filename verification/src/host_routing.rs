//! Which part of the platform a request's `Host` names: the control plane
//! (dashboard/API) on the base domain, or a deployed app on a subdomain.

use vstd::prelude::*;
use vstd::string::StrSliceExecFns;

use crate::models::{run_config_of, valid_slug_spec, validate_slug, App, Deployment};
use crate::text::{
    chars_of, chars_eq, ends_with_chars, find_char, has_suffix, spec_to_lowercase,
    split_once_spec, to_lowercase,
};

verus! {

/// What a request's host resolves to.
#[derive(Debug, PartialEq, Eq)]
pub enum HostMatch {
    ControlPlane,
    App(String),
    Unrecognized,
}

/// The host with any `:port` suffix removed (split at the first `:`).
pub open spec fn host_without_port(host: Seq<char>) -> Seq<char> {
    match split_once_spec(host, ':') {
        Some(parts) => parts.0,
        None => host,
    }
}

/// The subdomain label `host` carries under `base`, both already
/// lowercased: `host` is `<label>.<base>` with a non-empty label.
pub open spec fn app_label(host: Seq<char>, base: Seq<char>) -> Option<Seq<char>> {
    if host.len() > base.len() + 1 && has_suffix(host, seq!['.'] + base) {
        Some(host.take(host.len() - base.len() - 1))
    } else {
        None
    }
}

/// Port-stripped, lowercased host compared with the lowercased base
/// domain: equal means the control plane, `<label>.<base>` an app,
/// anything else is unrecognized.
pub open spec fn classify_spec(host: Seq<char>, base: Seq<char>) -> (Seq<char>, Seq<char>) {
    (spec_to_lowercase(host_without_port(host)), spec_to_lowercase(base))
}

/// Classifies a port-stripped, lowercased host against the lowercased
/// base domain: equal is the control plane, `<label>.<base>` with a
/// non-empty label is that app, anything else is unrecognized.
pub fn classify_lowered_host(host: &str, base: &str) -> (r: HostMatch)
    ensures
        host@ == base@ ==> r is ControlPlane,
        host@ != base@ && app_label(host@, base@) is Some ==> (r matches HostMatch::App(label)
            && label@ == app_label(host@, base@)->0),
        host@ != base@ && app_label(host@, base@) is None ==> r is Unrecognized,
{
    let h = chars_of(host);
    let b = chars_of(base);
    if chars_eq(&h, &b) {
        return HostMatch::ControlPlane;
    }
    let mut suffix: Vec<char> = Vec::new();
    suffix.push('.');
    let mut i: usize = 0;
    while i < b.len()
        invariant
            0 <= i <= b@.len(),
            suffix@ == seq!['.'] + b@.take(i as int),
        decreases b@.len() - i,
    {
        suffix.push(b[i]);
        assert(b@.take(i + 1) =~= b@.take(i as int).push(b@[i as int]));
        i = i + 1;
    }
    assert(b@.take(b@.len() as int) =~= b@);
    if h.len() > suffix.len() && ends_with_chars(&h, &suffix) {
        let label_len = h.len() - suffix.len();
        let label = host.substring_char(0, label_len);
        assert(label@ =~= h@.take(h@.len() - b@.len() - 1));
        HostMatch::App(label.to_owned())
    } else {
        HostMatch::Unrecognized
    }
}

/// Classifies `host` (a `Host` header or URI authority) against
/// `base_domain`, case-insensitively and ignoring any port.
pub fn classify_host(host: &str, base_domain: &str) -> (r: HostMatch)
    ensures
        ({
            let (h, b) = classify_spec(host@, base_domain@);
            &&& h == b ==> r is ControlPlane
            &&& h != b && app_label(h, b) is Some ==> (r matches HostMatch::App(label)
                && label@ == app_label(h, b)->0)
            &&& h != b && app_label(h, b) is None ==> r is Unrecognized
        }),
{
    let host_chars = chars_of(host);
    let host_part: &str = match find_char(&host_chars, ':') {
        Some(i) => host.substring_char(0, i),
        None => host,
    };
    proof {
        if let Some(parts) = split_once_spec(host@, ':') {
            assert(host_part@ == parts.0);
        }
    }
    let lower_host = to_lowercase(host_part);
    let lower_base = to_lowercase(base_domain);
    classify_lowered_host(lower_host.as_str(), lower_base.as_str())
}

/// The host a request names: the `Host` header when it carries a readable
/// value, else the URI's authority (where HTTP/2 carries it).
pub fn resolve_host(host_header: Option<&str>, uri_authority: Option<&str>) -> (r: Option<String>)
    ensures
        host_header matches Some(h) ==> (r matches Some(s) && s@ == h@),
        host_header is None && uri_authority is Some ==> (r matches Some(s) && s@
            == uri_authority->0@),
        host_header is None && uri_authority is None ==> r is None,
{
    match host_header {
        Some(h) => Some(h.to_owned()),
        None => match uri_authority {
            Some(a) => Some(a.to_owned()),
            None => None,
        },
    }
}

} // verus!

verus! {

/// What a request to an app's subdomain is answered from.
#[derive(Debug, PartialEq, Eq)]
pub enum ServeTarget {
    /// 404.
    NotFound,
    /// The active deployment's files, served statically.
    Static(String),
    /// The active deployment's container, relayed to on its port.
    Run { container_name: String, container_port: u16 },
}

/// Resolves what serves `app_name`: a name that is no slug, no active
/// deployment (or one that can't be read), or an app that can't be read is
/// a 404; a deployment with a container is served from it on the app's
/// run port (a 404 if the app has no run config); any other deployment
/// from its files directory, if that exists. Takes the active deployment
/// and the app as read, the files directory and whether it is a directory.
pub fn resolve_serve_target(
    app_name: &str,
    deployment: Option<&Deployment>,
    app: Option<&App>,
    files_dir: String,
    files_dir_is_dir: bool,
) -> (r: ServeTarget)
    ensures
        !valid_slug_spec(app_name@) ==> r is NotFound,
        deployment is None || app is None ==> r is NotFound,
        r matches ServeTarget::Run { container_name, container_port } ==> {
            &&& valid_slug_spec(app_name@)
            &&& deployment matches Some(d) && d.container_name == Some(container_name)
            &&& app matches Some(a) && run_config_of(a.source) matches Some(rc) && rc.container_port
                == container_port
        },
        r matches ServeTarget::Static(dir) ==> {
            &&& valid_slug_spec(app_name@)
            &&& dir == files_dir
            &&& files_dir_is_dir
            &&& deployment matches Some(d) && d.container_name is None
            &&& app is Some
        },
        valid_slug_spec(app_name@) && deployment is Some && app is Some ==> (match deployment->0.container_name {
            Some(_) => (run_config_of(app->0.source) is Some <==> r is Run),
            None => (files_dir_is_dir <==> r is Static),
        }),
{
    if validate_slug(app_name).is_err() {
        return ServeTarget::NotFound;
    }
    let (d, a) = match (deployment, app) {
        (Some(d), Some(a)) => (d, a),
        _ => return ServeTarget::NotFound,
    };
    match &d.container_name {
        Some(container_name) => match a.run_config() {
            Some(run) => ServeTarget::Run {
                container_name: container_name.clone(),
                container_port: run.container_port,
            },
            None => ServeTarget::NotFound,
        },
        None => {
            if files_dir_is_dir {
                ServeTarget::Static(files_dir)
            } else {
                ServeTarget::NotFound
            }
        },
    }
}

} // verus!
