//! The dashboard's create-app form: flat text fields assembled into an app
//! source by hand, since a urlencoded form doesn't map onto a tagged enum
//! the way JSON does.

use vstd::prelude::*;

use crate::error::{AppError, AppResult};
use crate::models::{AppSource, GitDeployMode, GitSource, RunConfig, RunImage};
use crate::text::{chars_of, is_blank, is_blank_str, same_text, trim, trim_spec};

verus! {

/// The create-app form's fields, each empty when not submitted.
#[derive(Debug, PartialEq, Eq)]
pub struct CreateAppForm {
    pub name: String,
    pub source: String,
    pub repo_url: String,
    pub branch: String,
    pub publish_dir: String,
    pub run_enabled: String,
    pub run_image: String,
    pub install_command: String,
    pub start_command: String,
    pub container_port: String,
}

/// The value of a sequence of decimal digits.
pub open spec fn digits_value(s: Seq<char>) -> int
    decreases s.len(),
{
    if s.len() == 0 {
        0
    } else {
        digits_value(s.drop_last()) * 10 + (s.last() as u32 - '0' as u32)
    }
}

/// Every character is a decimal digit.
pub open spec fn all_digits(s: Seq<char>) -> bool {
    forall|i: int| 0 <= i < s.len() ==> '0' <= #[trigger] s[i] && s[i] <= '9'
}

/// The text after an optional leading `+`.
pub open spec fn unsigned_digits(s: Seq<char>) -> Seq<char> {
    if s.len() > 0 && s[0] == '+' {
        s.drop_first()
    } else {
        s
    }
}

/// What `str::parse::<u16>` gives: an optional `+` then at least one
/// decimal digit, with a value that fits; `None` otherwise.
pub open spec fn parse_u16_spec(s: Seq<char>) -> Option<u16> {
    let digits = unsigned_digits(s);
    if digits.len() > 0 && all_digits(digits) && digits_value(digits) <= 65535 {
        Some(digits_value(digits) as u16)
    } else {
        None
    }
}

/// Parses a port number the way `str::parse::<u16>` does.
pub fn parse_u16(s: &str) -> (r: Option<u16>)
    ensures
        r == parse_u16_spec(s@),
{
    let c = chars_of(s);
    let start: usize = if c.len() > 0 && c[0] == '+' {
        1
    } else {
        0
    };
    let ghost digits = unsigned_digits(s@);
    assert(digits =~= s@.skip(start as int));
    if start >= c.len() {
        return None;
    }
    let mut value: u32 = 0;
    let mut i: usize = start;
    assert(digits.take(0) =~= Seq::<char>::empty());
    while i < c.len()
        invariant
            start <= i <= c@.len(),
            c@ == s@,
            digits =~= s@.skip(start as int),
            digits == unsigned_digits(s@),
            all_digits(digits.take(i - start)),
            value == digits_value(digits.take(i - start)),
            value <= 65535,
        decreases c@.len() - i,
    {
        let ch = c[i];
        if !('0' <= ch && ch <= '9') {
            assert(digits[i - start] == ch);
            assert(!all_digits(digits));
            assert(parse_u16_spec(s@) is None);
            return None;
        }
        let d: u32 = (ch as u32) - ('0' as u32);
        let next: u32 = value * 10 + d;
        assert(digits.take(i - start + 1).drop_last() =~= digits.take(i - start));
        assert(digits.take(i - start + 1).last() == ch);
        assert(all_digits(digits.take(i - start + 1))) by {
            assert forall|j: int| 0 <= j < i - start + 1 implies '0' <= #[trigger] digits.take(
                i - start + 1,
            )[j] && digits.take(i - start + 1)[j] <= '9' by {
                if j < i - start {
                    assert(digits.take(i - start + 1)[j] == digits.take(i - start)[j]);
                }
            }
        }
        assert(next == digits_value(digits.take(i - start + 1)));
        if next > 65535 {
            proof {
                lemma_digits_prefix_bound(digits, i - start + 1);
            }
            assert(parse_u16_spec(s@) is None);
            return None;
        }
        value = next;
        i = i + 1;
    }
    assert(digits.take(i - start) =~= digits);
    Some(value as u16)
}

/// A digit string's value is at least the value of any of its prefixes.
proof fn lemma_digits_prefix_bound(digits: Seq<char>, k: int)
    requires
        0 <= k <= digits.len(),
        all_digits(digits.take(k)),
    ensures
        all_digits(digits) ==> digits_value(digits) >= digits_value(digits.take(k)),
    decreases digits.len() - k,
{
    if k < digits.len() && all_digits(digits) {
        assert(all_digits(digits.take(k + 1)));
        lemma_digits_prefix_bound(digits, k + 1);
        assert(digits.take(k + 1).drop_last() =~= digits.take(k));
        lemma_digits_value_nonneg(digits.take(k));
        assert(digits.take(k + 1).last() == digits[k]);
    } else if k == digits.len() {
        assert(digits.take(k) =~= digits);
    }
}

/// A digit string's value is not negative.
proof fn lemma_digits_value_nonneg(s: Seq<char>)
    requires
        all_digits(s),
    ensures
        digits_value(s) >= 0,
    decreases s.len(),
{
    if s.len() > 0 {
        assert(all_digits(s.drop_last())) by {
            assert forall|j: int| 0 <= j < s.drop_last().len() implies '0' <= #[trigger] s.drop_last()[j]
                && s.drop_last()[j] <= '9' by {
                assert(s.drop_last()[j] == s[j]);
            }
        }
        lemma_digits_value_nonneg(s.drop_last());
        assert(s.last() == s[s.len() - 1]);
    }
}

/// The message a port outside 1-65535 is rejected with.
pub const INVALID_PORT: &'static str = "container port must be 1-65535";

/// Why a form with run mode switched on is refused, if it is: the port
/// must parse and be non-zero, then the start command must not be blank.
pub open spec fn run_form_error(form: CreateAppForm) -> Option<Seq<char>> {
    let port = parse_u16_spec(trim_spec(form.container_port@));
    if port is None || port == Some(0u16) {
        Some(INVALID_PORT@)
    } else if is_blank(form.start_command@) {
        Some("start command is required in run mode"@)
    } else {
        None
    }
}

/// `run` is the run config an accepted run-mode form describes.
pub open spec fn run_matches_form(run: RunConfig, form: CreateAppForm) -> bool {
    &&& Some(run.container_port) == parse_u16_spec(trim_spec(form.container_port@))
    &&& run.container_port != 0
    &&& run.start_command@ == trim_spec(form.start_command@)
    &&& !is_blank(form.start_command@)
    &&& (form.run_image@ == "python314"@ ==> run.image == RunImage::Python314)
    &&& (form.run_image@ != "python314"@ ==> run.image == RunImage::Node24)
    &&& (is_blank(form.install_command@) ==> run.install_command is None)
    &&& (!is_blank(form.install_command@) ==> (run.install_command matches Some(c) && c@
        == trim_spec(form.install_command@)))
}

/// The run config a form asks for: none unless run mode is switched on;
/// the image is Python 3.14 when chosen, else Node 24; the port must parse
/// and be non-zero; the start command must not be blank; the install
/// command is kept only when not blank. Text fields are trimmed.
pub fn run_config_from_form(form: &CreateAppForm) -> (r: AppResult<Option<RunConfig>>)
    ensures
        form.run_enabled@ != "on"@ ==> r == Ok::<Option<RunConfig>, AppError>(None),
        form.run_enabled@ == "on"@ && (parse_u16_spec(trim_spec(form.container_port@)) is None
            || parse_u16_spec(trim_spec(form.container_port@)) == Some(0u16)) ==> (r matches Err(
            AppError::InvalidRunConfig(m),
        ) && m@ == INVALID_PORT@),
        form.run_enabled@ == "on"@ && parse_u16_spec(trim_spec(form.container_port@)) is Some
            && parse_u16_spec(trim_spec(form.container_port@))->0 != 0 && is_blank(
            form.start_command@,
        ) ==> (r matches Err(
            AppError::InvalidRunConfig(m),
        ) && m@ == "start command is required in run mode"@),
        r matches Ok(Some(run)) ==> form.run_enabled@ == "on"@ && run_matches_form(run, *form),
        form.run_enabled@ == "on"@ ==> (r is Err <==> run_form_error(*form) is Some),
        form.run_enabled@ == "on"@ && run_form_error(*form) is Some ==> (r matches Err(
            AppError::InvalidRunConfig(m),
        ) && m@ == run_form_error(*form)->0),
        form.run_enabled@ == "on"@ && parse_u16_spec(trim_spec(form.container_port@)) is Some
            && parse_u16_spec(trim_spec(form.container_port@))->0 != 0 && !is_blank(
            form.start_command@,
        ) ==> r matches Ok(Some(_)),
{
    if !same_text(form.run_enabled.as_str(), "on") {
        return Ok(None);
    }
    let image = if same_text(form.run_image.as_str(), "python314") {
        RunImage::Python314
    } else {
        RunImage::Node24
    };
    let container_port = match parse_u16(trim(form.container_port.as_str())) {
        Some(p) => p,
        None => return Err(AppError::InvalidRunConfig(INVALID_PORT.to_owned())),
    };
    if container_port == 0 {
        return Err(AppError::InvalidRunConfig(INVALID_PORT.to_owned()));
    }
    if is_blank_str(form.start_command.as_str()) {
        return Err(AppError::InvalidRunConfig("start command is required in run mode".to_owned()));
    }
    let install_command = if is_blank_str(form.install_command.as_str()) {
        None
    } else {
        Some(trim(form.install_command.as_str()).to_owned())
    };
    Ok(
        Some(
            RunConfig {
                image,
                install_command,
                start_command: trim(form.start_command.as_str()).to_owned(),
                container_port,
            },
        ),
    )
}

/// The source a form asks for: a git source when `source` is `git` -
/// branch `main` when left blank, run mode when switched on, else static
/// with the publish dir when one was given - and an upload otherwise.
pub fn app_source_from_form(form: &CreateAppForm) -> (r: AppResult<AppSource>)
    ensures
        form.source@ != "git"@ ==> r == Ok::<AppSource, AppError>(AppSource::Upload),
        r matches Ok(AppSource::Git(g)) ==> {
            &&& form.source@ == "git"@
            &&& g.repo_url == form.repo_url
            &&& (is_blank(form.branch@) ==> g.branch@ == "main"@)
            &&& (!is_blank(form.branch@) ==> g.branch == form.branch)
            &&& (form.run_enabled@ != "on"@ ==> g.mode == GitDeployMode::Static {
                publish_dir: if form.publish_dir@.len() == 0 {
                    None
                } else {
                    Some(form.publish_dir)
                },
            })
            &&& (form.run_enabled@ == "on"@ ==> g.mode is Run && run_matches_form(
                g.mode->Run_0,
                *form,
            ))
        },
        form.source@ == "git"@ && form.run_enabled@ != "on"@ ==> r matches Ok(AppSource::Git(_)),
        form.source@ == "git"@ && form.run_enabled@ == "on"@ ==> (r is Err <==> run_form_error(
            *form,
        ) is Some),
        form.source@ == "git"@ && form.run_enabled@ == "on"@ && run_form_error(*form) is Some ==> (
        r matches Err(AppError::InvalidRunConfig(m)) && m@ == run_form_error(*form)->0),
{
    if !same_text(form.source.as_str(), "git") {
        return Ok(AppSource::Upload);
    }
    let run = match run_config_from_form(form) {
        Ok(run) => run,
        Err(e) => return Err(e),
    };
    let branch = if is_blank_str(form.branch.as_str()) {
        "main".to_owned()
    } else {
        form.branch.clone()
    };
    let mode = match run {
        Some(run) => GitDeployMode::Run(run),
        None => GitDeployMode::Static {
            publish_dir: if form.publish_dir.as_str().is_empty() {
                None
            } else {
                Some(form.publish_dir.clone())
            },
        },
    };
    Ok(AppSource::Git(GitSource { repo_url: form.repo_url.clone(), branch, mode }))
}

} // verus!
