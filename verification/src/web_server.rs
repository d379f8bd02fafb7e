//! The decisions of the web server: where it listens, which embedded file
//! answers a request for a path, and what the audio worker reports back.

use vstd::prelude::*;
use crate::models::WebServerConfig;
use crate::text::{
    append_decimal, decimal, strip_leading_slashes, trim_leading_slashes, is_decimal_digit,
    digits_value, lemma_decimal_reads_back,
};

verus! {

/// `host:port`, the address the server listens on.
pub open spec fn listen_address(host: Seq<char>, port: u16) -> Seq<char> {
    host + seq![':'] + decimal(port as nat)
}

/// The address the web server listens on: its host, a colon, its port in decimal.
pub fn server_address(config: &WebServerConfig) -> (r: String)
    ensures
        r@ == listen_address(config.host@, config.port),
{
    proof {
        reveal_strlit(":");
    }
    let mut address = String::from_str(config.host.as_str());
    address.append(":");
    append_decimal(&mut address, config.port as u64);
    address
}

/// The embedded file asked for by a request for `uri_path`: the path without
/// its leading slashes, or `index.html` when nothing is left.
pub open spec fn asset_path_of(uri_path: Seq<char>) -> Seq<char> {
    let p = strip_leading_slashes(uri_path);
    if p.len() == 0 {
        "index.html"@
    } else {
        p
    }
}

/// The embedded file asked for by a request for `uri_path` (see [`asset_path_of`]).
pub fn asset_path(uri_path: &str) -> (r: String)
    ensures
        r@ == asset_path_of(uri_path@),
{
    let p = trim_leading_slashes(uri_path);
    if p.as_str().is_empty() {
        String::from_str("index.html")
    } else {
        p
    }
}

/// Stripping leading slashes leaves a text that does not begin with one.
proof fn lemma_stripped_has_no_leading_slash(s: Seq<char>)
    ensures
        strip_leading_slashes(s).len() > 0 ==> strip_leading_slashes(s)[0] != '/',
    decreases s.len(),
{
    if s.len() > 0 && s[0] == '/' {
        lemma_stripped_has_no_leading_slash(s.skip(1));
    }
}

/// The file asked for by any request path is never empty and never begins
/// with a slash.
pub proof fn lemma_asset_path_is_relative(uri_path: Seq<char>)
    ensures
        asset_path_of(uri_path).len() > 0,
        asset_path_of(uri_path)[0] != '/',
{
    reveal_strlit("index.html");
    lemma_stripped_has_no_leading_slash(uri_path);
}

/// The media type that `mime_guess` guesses for `path`, `application/octet-stream`
/// where it has no guess.
pub uninterp spec fn guessed_mime(path: Seq<char>) -> Seq<char>;

/// Calls `mime_guess::from_path(path).first_or_octet_stream()` and gives the
/// media type as text. Claimed: the text is [`guessed_mime`] of `path`, a
/// function of the path alone; the table of guesses is left unsaid here.
#[verifier::external_body]
fn mime_type_for(path: &str) -> (r: String)
    ensures
        r@ == guessed_mime(path@),
{
    let mime = mime_guess::from_path(path).first_or_octet_stream();
    String::from(mime.as_ref())
}

/// Which content answers a request for an embedded file.
#[derive(Debug, Clone, Copy, PartialEq, Eq, Structural)]
pub enum AssetBody {
    /// The file asked for.
    Requested,
    /// The `index.html` file, for a path that is not a file.
    Index,
    /// Nothing.
    Empty,
}

/// The answer to a request for an embedded file.
#[derive(Debug)]
pub struct FallbackReply {
    pub status: u16,
    pub content_type: Option<String>,
    pub body: AssetBody,
}

/// The answer, given the media type of the file asked for and which of it and
/// `index.html` exist: the file itself; else `index.html` as HTML; else 404.
pub fn fallback_reply_with(
    requested_type: String,
    requested_found: bool,
    index_found: bool,
) -> (r: FallbackReply)
    ensures
        requested_found ==> r.status == 200 && (r.content_type matches Some(t) && t@
            == requested_type@) && r.body == AssetBody::Requested,
        !requested_found && index_found ==> r.status == 200 && (r.content_type matches Some(t) && t@
            == "text/html"@) && r.body == AssetBody::Index,
        !requested_found && !index_found ==> r.status == 404 && r.content_type is None && r.body
            == AssetBody::Empty,
{
    if requested_found {
        FallbackReply { status: 200, content_type: Some(requested_type), body: AssetBody::Requested }
    } else if index_found {
        FallbackReply {
            status: 200,
            content_type: Some(String::from_str("text/html")),
            body: AssetBody::Index,
        }
    } else {
        FallbackReply { status: 404, content_type: None, body: AssetBody::Empty }
    }
}

/// The answer to a request for the embedded file `path`, given which of it
/// and `index.html` exist; the file itself goes with its guessed media type.
pub fn fallback_reply(path: &str, requested_found: bool, index_found: bool) -> (r: FallbackReply)
    ensures
        requested_found ==> r.status == 200 && (r.content_type matches Some(t) && t@
            == guessed_mime(path@)) && r.body == AssetBody::Requested,
        !requested_found && index_found ==> r.status == 200 && (r.content_type matches Some(t) && t@
            == "text/html"@) && r.body == AssetBody::Index,
        !requested_found && !index_found ==> r.status == 404 && r.content_type is None && r.body
            == AssetBody::Empty,
{
    if requested_found {
        let requested_type = mime_type_for(path);
        fallback_reply_with(requested_type, true, index_found)
    } else {
        fallback_reply_with(String::new(), false, index_found)
    }
}

/// A request handed to the audio worker.
#[derive(Debug, Clone, Copy, PartialEq, Eq, Structural)]
pub enum AudioRequest {
    SetVolume(u8),
    GetVolume,
}

/// The volume read from the device, `0` when it could not be read.
pub open spec fn volume_or_zero(read: Option<u8>) -> u8 {
    match read {
        Some(v) => v,
        None => 0,
    }
}

/// What the audio worker answers: the volume read afterwards (`0` if it could
/// not be read), except after a volume change that failed, which gets no answer.
pub fn audio_reply(request: AudioRequest, set_succeeded: bool, read: Option<u8>) -> (r: Option<u8>)
    ensures
        request is GetVolume ==> r == Some(volume_or_zero(read)),
        request is SetVolume && set_succeeded ==> r == Some(volume_or_zero(read)),
        request is SetVolume && !set_succeeded ==> r is None,
{
    let volume = match read {
        Some(v) => v,
        None => 0,
    };
    match request {
        AudioRequest::SetVolume(_) => if set_succeeded {
            Some(volume)
        } else {
            None
        },
        AudioRequest::GetVolume => Some(volume),
    }
}

/// For every host and port, the listen address is the host, then a colon,
/// then nothing but decimal digits, with no leading zero unless the port is
/// zero, that read back as the port.
pub proof fn lemma_listen_address_ends_with_port(host: Seq<char>, port: u16, address: Seq<char>)
    requires
        address == listen_address(host, port),
    ensures
        address.len() > host.len() + 1,
        address.take(host.len() as int) == host,
        address[host.len() as int] == ':',
        forall|i: int| host.len() < i < address.len() ==> is_decimal_digit(#[trigger] address[i]),
        address[host.len() + 1int] == '0' ==> port == 0,
        digits_value(address.skip(host.len() + 1int)) == port,
{
    lemma_decimal_reads_back(port as nat);
    let d = decimal(port as nat);
    assert(address.take(host.len() as int) =~= host);
    assert(address.skip(host.len() + 1int) =~= d);
    assert forall|i: int| host.len() < i < address.len() implies is_decimal_digit(#[trigger] address[i]) by {
        assert(address[i] == d[i - host.len() - 1]);
    }
}

/// `k` slashes begin `s`, and what follows them does not begin with one.
pub open spec fn leading_slashes(s: Seq<char>, k: int) -> bool {
    &&& 0 <= k <= s.len()
    &&& forall|j: int| 0 <= j < k ==> s[j] == '/'
    &&& k < s.len() ==> s[k] != '/'
}

proof fn lemma_strip_is_suffix(s: Seq<char>) -> (k: int)
    ensures
        leading_slashes(s, k),
        strip_leading_slashes(s) == s.skip(k),
    decreases s.len(),
{
    if s.len() > 0 && s[0] == '/' {
        let k1 = lemma_strip_is_suffix(s.skip(1));
        assert(s.skip(1).skip(k1) =~= s.skip(k1 + 1));
        assert forall|j: int| 0 <= j < k1 + 1 implies s[j] == '/' by {
            if j > 0 {
                assert(s[j] == s.skip(1)[j - 1]);
            }
        }
        if k1 + 1 < s.len() {
            assert(s[k1 + 1] == s.skip(1)[k1]);
        }
        k1 + 1
    } else {
        assert(s.skip(0) =~= s);
        0
    }
}

/// The file asked for is the request path without its leading slashes,
/// exactly, whenever anything else is in the path; `index.html` only for a
/// path made of slashes alone (or empty).
pub proof fn lemma_asset_path_keeps_request(uri_path: Seq<char>, file: Seq<char>)
    requires
        file == asset_path_of(uri_path),
    ensures
        (exists|i: int| 0 <= i < uri_path.len() && uri_path[i] != '/') ==> exists|k: int|
            leading_slashes(uri_path, k) && k < uri_path.len() && file == uri_path.skip(k),
        (forall|i: int| 0 <= i < uri_path.len() ==> uri_path[i] == '/') ==> file == "index.html"@,
{
    let k = lemma_strip_is_suffix(uri_path);
    if exists|i: int| 0 <= i < uri_path.len() && uri_path[i] != '/' {
        let i = choose|i: int| 0 <= i < uri_path.len() && uri_path[i] != '/';
        assert(k < uri_path.len());
        assert(uri_path.skip(k).len() > 0);
    }
    if forall|i: int| 0 <= i < uri_path.len() ==> uri_path[i] == '/' {
        if k < uri_path.len() {
            assert(uri_path[k] == '/');
        }
        assert(uri_path.skip(k).len() == 0);
    }
}

} // verus!
