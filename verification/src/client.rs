use vstd::prelude::*;
use vstd::string::StringExecFns;
use crate::error::Error;

verus! {

/// A host slow to even connect fails fast, while a slow-but-connected
/// transfer is allowed the longer overall timeout.
pub const CONNECT_TIMEOUT_SECS: u64 = 5;

pub const REQUEST_TIMEOUT_SECS: u64 = 20;

/// The `Cookie` header value carrying the session credential.
pub open spec fn spec_session_cookie(session_id: Seq<char>) -> Seq<char> {
    "SESSIONKEY="@ + session_id + ";"@
}

/// Formats the opaque session credential into the transport's cookie
/// header. The credential is relayed as given, never inspected.
pub fn session_cookie(session_id: &str) -> (r: String)
    ensures
        r@ == spec_session_cookie(session_id@),
{
    let mut s = String::from_str("SESSIONKEY=");
    s.append(session_id);
    s.append(";");
    proof {
        assert(s@ =~= spec_session_cookie(session_id@));
    }
    s
}

/// The canonical URL of a post on the creator's page.
pub open spec fn spec_post_url(creator_id: Seq<char>, post_id: Seq<char>) -> Seq<char> {
    "https://"@ + creator_id + ".fanbox.cc/posts/"@ + post_id
}

pub fn post_url(creator_id: &str, post_id: &str) -> (r: String)
    ensures
        r@ == spec_post_url(creator_id@, post_id@),
{
    let mut s = String::from_str("https://");
    s.append(creator_id);
    s.append(".fanbox.cc/posts/");
    s.append(post_id);
    proof {
        assert(s@ =~= spec_post_url(creator_id@, post_id@));
    }
    s
}

/// The fixed `Origin` header value of every request.
pub fn web_origin() -> (r: String)
    ensures
        r@ == "https://www.fanbox.cc"@,
{
    String::from_str("https://www.fanbox.cc")
}

/// The creator pagination-index endpoint.
pub fn paginate_creator_endpoint() -> (r: String)
    ensures
        r@ == "https://api.fanbox.cc/post.paginateCreator"@,
{
    String::from_str("https://api.fanbox.cc/post.paginateCreator")
}

/// The single-post info endpoint.
pub fn post_info_endpoint() -> (r: String)
    ensures
        r@ == "https://api.fanbox.cc/post.info"@,
{
    String::from_str("https://api.fanbox.cc/post.info")
}

/// Decides whether a response status allows the pipeline to go on. Any
/// non-2xx status is the distinguished `HttpStatusError`, naming the
/// request's URL, so a run's abort can pinpoint the failing fetch.
pub fn check_status(url: &str, status: u16) -> (r: Result<(), Error>)
    ensures
        (r is Ok) <==> (200 <= status && status < 300),
        (r matches Err(e) ==> (e matches Error::HttpStatusError { url: u, status: s } && u@ == url@
            && s == status)),
{
    if 200 <= status && status < 300 {
        Ok(())
    } else {
        Err(Error::HttpStatusError { url: String::from_str(url), status })
    }
}

} // verus!
