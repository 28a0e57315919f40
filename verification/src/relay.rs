//! Relaying HTTP requests to a run-mode container: where a request is
//! sent, which requests switch protocols, what status a reply carries, and
//! the chunks bodies travel in between hub and agent.

use vstd::prelude::*;

use crate::text::{
    eq_ignore_ascii_case, eq_ignore_ascii_case_spec, nat_decimal, split_spec, split_str,
    str_parts_view, trim, trim_spec, u64_decimal, chars_of,
};

verus! {

/// The URI a request to a container is sent to:
/// `http://<ip>:<port><path and query>`, `/` when the request has none.
pub open spec fn target_uri_spec(ip: Seq<char>, port: nat, path_and_query: Option<Seq<char>>) -> Seq<
    char,
> {
    "http://"@ + ip + ":"@ + nat_decimal(port) + match path_and_query {
        Some(p) => p,
        None => "/"@,
    }
}

/// The URI a request to a container at `ip:port` is sent to.
pub fn target_uri(ip: &str, port: u64, path_and_query: Option<&str>) -> (r: String)
    ensures
        r@ == target_uri_spec(
            ip@,
            port as nat,
            match path_and_query {
                Some(p) => Some(p@),
                None => None,
            },
        ),
{
    let mut s = "http://".to_owned();
    s.append(ip);
    s.append(":");
    let p = u64_decimal(port);
    s.append(p.as_str());
    match path_and_query {
        Some(pq) => s.append(pq),
        None => s.append("/"),
    }
    s
}

/// The path (and query) a relayed request carries: `/` when the request
/// has none.
pub fn relay_path(path_and_query: Option<&str>) -> (r: String)
    ensures
        path_and_query matches Some(p) ==> r@ == p@,
        path_and_query is None ==> r@ == "/"@,
{
    match path_and_query {
        Some(p) => p.to_owned(),
        None => "/".to_owned(),
    }
}

/// Some comma-separated token of a `Connection` value is `upgrade`, in any
/// case, around whitespace.
pub open spec fn connection_says_upgrade(value: Seq<char>) -> bool {
    exists|i: int|
        0 <= i < split_spec(value, ',').len() && eq_ignore_ascii_case_spec(
            trim_spec(#[trigger] split_spec(value, ',')[i]),
            "upgrade"@,
        )
}

/// A request may switch protocols (e.g. to a websocket) only when it has an
/// `Upgrade` header and its `Connection` header lists `upgrade`. Takes
/// whether `Upgrade` is present and the readable `Connection` value.
pub fn is_upgrade_request(has_upgrade_header: bool, connection: Option<&str>) -> (r: bool)
    ensures
        r == (has_upgrade_header && match connection {
            Some(c) => connection_says_upgrade(c@),
            None => false,
        }),
{
    if !has_upgrade_header {
        return false;
    }
    let value = match connection {
        Some(c) => c,
        None => return false,
    };
    let tokens = split_str(value, ',');
    let upgrade = chars_of("upgrade");
    let mut i: usize = 0;
    while i < tokens.len()
        invariant
            0 <= i <= tokens@.len(),
            connection == Some(value),
            has_upgrade_header,
            str_parts_view(tokens@) == split_spec(value@, ','),
            upgrade@ == "upgrade"@,
            forall|j: int|
                0 <= j < i ==> !eq_ignore_ascii_case_spec(
                    trim_spec(#[trigger] split_spec(value@, ',')[j]),
                    "upgrade"@,
                ),
        decreases tokens@.len() - i,
    {
        let token = chars_of(trim(tokens[i]));
        assert(split_spec(value@, ',')[i as int] == tokens@[i as int]@);
        if eq_ignore_ascii_case(&token, &upgrade) {
            assert(eq_ignore_ascii_case_spec(
                trim_spec(split_spec(value@, ',')[i as int]),
                "upgrade"@,
            ));
            return true;
        }
        i = i + 1;
    }
    false
}

/// The status a relayed reply answers with: the agent's status when it is
/// a valid HTTP status code (100 to 999), else 502 Bad Gateway.
pub fn status_from(status: u32) -> (r: u16)
    ensures
        100 <= status <= 999 ==> r == status,
        !(100 <= status <= 999) ==> r == 502,
{
    if 100 <= status && status <= 999 {
        status as u16
    } else {
        502
    }
}

/// A piece of a relayed body; the last one of a body is marked final.
#[derive(Debug, PartialEq, Eq)]
pub struct Chunk {
    pub data: Vec<u8>,
    pub is_final: bool,
}

/// One body chunk of a relayed request.
pub fn body_chunk_payload(data: Vec<u8>, is_final: bool) -> (r: Chunk)
    ensures
        r.data@ == data@,
        r.is_final == is_final,
{
    Chunk { data, is_final }
}

/// A piece of a zip upload handed to an agent, with what it needs to
/// extract the whole.
#[derive(Debug, PartialEq, Eq)]
pub struct UploadZipAndExtractRequest {
    pub deployment_id: String,
    pub max_uncompressed_bytes: u64,
    pub chunk: Chunk,
}

/// One chunk of a zip upload for `deployment_id`.
pub fn wrap_chunk(deployment_id: String, max_uncompressed_bytes: u64, data: Vec<u8>, is_final: bool) -> (r:
    UploadZipAndExtractRequest)
    ensures
        r.deployment_id@ == deployment_id@,
        r.max_uncompressed_bytes == max_uncompressed_bytes,
        r.chunk.data@ == data@,
        r.chunk.is_final == is_final,
{
    UploadZipAndExtractRequest {
        deployment_id,
        max_uncompressed_bytes,
        chunk: body_chunk_payload(data, is_final),
    }
}

/// A relayed body yields chunks until the one marked final (inclusive): is
/// there more to read after a chunk?
pub fn body_continues_after(chunk: &Chunk) -> (r: bool)
    ensures
        r == !chunk.is_final,
{
    !chunk.is_final
}


/// The data a chunk stream carries up to the chunk marked final: the
/// final chunk's own data is included for a request body (the agent
/// yields it) and left out for a response body (the hub ends at the
/// marker); a stream that ends without a final chunk simply ends.
pub open spec fn data_until_final(chunks: Seq<Chunk>, include_final: bool) -> Seq<Seq<u8>>
    decreases chunks.len(),
{
    if chunks.len() == 0 {
        Seq::empty()
    } else if chunks[0].is_final {
        if include_final {
            seq![chunks[0].data@]
        } else {
            Seq::empty()
        }
    } else {
        seq![chunks[0].data@] + data_until_final(chunks.drop_first(), include_final)
    }
}

/// The byte views of a list of buffers.
pub open spec fn buffers_view(v: Seq<Vec<u8>>) -> Seq<Seq<u8>> {
    Seq::new(v.len(), |i: int| v[i]@)
}

/// The pieces of a relayed body as delivered: every chunk's data up to the
/// one marked final, with the final chunk's data when `include_final`.
pub fn body_parts(chunks: &[Chunk], include_final: bool) -> (r: Vec<Vec<u8>>)
    ensures
        buffers_view(r@) == data_until_final(chunks@, include_final),
{
    let mut out: Vec<Vec<u8>> = Vec::new();
    let mut i: usize = 0;
    assert(chunks@.skip(0) =~= chunks@);
    while i < chunks.len()
        invariant
            0 <= i <= chunks@.len(),
            forall|k: int| 0 <= k < i ==> !(#[trigger] chunks@[k]).is_final,
            buffers_view(out@) + data_until_final(chunks@.skip(i as int), include_final)
                == data_until_final(chunks@, include_final),
        decreases chunks@.len() - i,
    {
        let chunk = &chunks[i];
        let ghost rest = chunks@.skip(i as int);
        assert(rest[0] == chunks@[i as int]);
        assert(rest.drop_first() =~= chunks@.skip(i + 1));
        let ghost before = out@;
        if chunk.is_final {
            if include_final {
                out.push(chunk.data.clone());
                assert(buffers_view(out@) =~= buffers_view(before).push(chunk.data@));
            }
            assert(buffers_view(out@) =~= buffers_view(out@) + Seq::<Seq<u8>>::empty());
            assert(buffers_view(out@) =~= data_until_final(chunks@, include_final));
            return out;
        }
        out.push(chunk.data.clone());
        assert(buffers_view(out@) =~= buffers_view(before).push(chunk.data@));
        assert(buffers_view(out@) + data_until_final(chunks@.skip(i + 1), include_final)
            =~= buffers_view(before) + data_until_final(rest, include_final));
        i = i + 1;
    }
    assert(data_until_final(chunks@.skip(i as int), include_final) =~= Seq::<Seq<u8>>::empty());
    assert(buffers_view(out@) + Seq::<Seq<u8>>::empty() =~= buffers_view(out@));
    out
}

/// The chunks that carry a request body to the agent: each piece as a
/// non-final chunk, then an empty final marker - or nothing at all for an
/// upgrade-eligible request, whose channel stays open for raw bytes.
pub fn request_body_chunks(pieces: Vec<Vec<u8>>, is_upgrade: bool) -> (r: Vec<Chunk>)
    ensures
        is_upgrade ==> r@.len() == 0,
        !is_upgrade ==> {
            &&& r@.len() == pieces@.len() + 1
            &&& forall|i: int| 0 <= i < pieces@.len() ==> (#[trigger] r@[i]).data@ == pieces@[i]@
                && !r@[i].is_final
            &&& r@[pieces@.len() as int].is_final
            &&& r@[pieces@.len() as int].data@.len() == 0
        },
{
    let mut out: Vec<Chunk> = Vec::new();
    if is_upgrade {
        return out;
    }
    let mut i: usize = 0;
    while i < pieces.len()
        invariant
            0 <= i <= pieces@.len(),
            out@.len() == i,
            forall|k: int| 0 <= k < i ==> (#[trigger] out@[k]).data@ == pieces@[k]@ && !out@[k].is_final,
        decreases pieces@.len() - i,
    {
        out.push(Chunk { data: pieces[i].clone(), is_final: false });
        i = i + 1;
    }
    out.push(Chunk { data: Vec::new(), is_final: true });
    out
}

/// A relayed request switches protocols only when it asked to and the
/// container answered 101.
pub fn switches_protocols(is_upgrade: bool, status: u16) -> (r: bool)
    ensures
        r == (is_upgrade && status == 101),
{
    is_upgrade && status == 101
}

/// A header relayed between hub and agent.
#[derive(Debug, PartialEq, Eq)]
pub struct HttpHeader {
    pub name: String,
    pub value: String,
}

/// The headers that are relayed: those whose value is readable text,
/// in order; the rest are dropped.
pub open spec fn readable_spec(headers: Seq<(String, Option<String>)>) -> Seq<(Seq<char>, Seq<char>)>
    decreases headers.len(),
{
    if headers.len() == 0 {
        Seq::empty()
    } else {
        let prev = readable_spec(headers.drop_last());
        match headers.last().1 {
            Some(v) => prev.push((headers.last().0@, v@)),
            None => prev,
        }
    }
}

/// The relayed headers as name/value pairs.
pub open spec fn headers_view(h: Seq<HttpHeader>) -> Seq<(Seq<char>, Seq<char>)> {
    Seq::new(h.len(), |i: int| (h[i].name@, h[i].value@))
}

/// Keeps the headers whose value is readable text (`None` where it is
/// not), in order.
pub fn readable_headers(headers: Vec<(String, Option<String>)>) -> (r: Vec<HttpHeader>)
    ensures
        headers_view(r@) == readable_spec(headers@),
{
    let mut out: Vec<HttpHeader> = Vec::new();
    let mut i: usize = 0;
    assert(headers@.take(0) =~= Seq::<(String, Option<String>)>::empty());
    while i < headers.len()
        invariant
            0 <= i <= headers@.len(),
            headers_view(out@) == readable_spec(headers@.take(i as int)),
        decreases headers@.len() - i,
    {
        assert(headers@.take(i + 1).drop_last() =~= headers@.take(i as int));
        assert(headers@.take(i + 1).last() == headers@[i as int]);
        let ghost before = out@;
        match &headers[i].1 {
            Some(v) => {
                out.push(HttpHeader { name: headers[i].0.clone(), value: v.clone() });
                assert(headers_view(out@) =~= headers_view(before).push((headers@[i as int].0@, v@)));
            },
            None => {},
        }
        i = i + 1;
    }
    assert(headers@.take(headers@.len() as int) =~= headers@);
    out
}

} // verus!
