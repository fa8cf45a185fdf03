//! The description of one API call: method, path relative to the base
//! address, and query pairs. The caller joins the path to the base address,
//! attaches the body of a `Post`, sends it and hands the response to the
//! pipeline.
use vstd::prelude::*;

verus! {

/// The HTTP method of a call.
#[derive(Clone, Copy, Debug, PartialEq, Eq, Structural)]
pub enum Method {
    /// A read, with its parameters in the query string.
    Get,
    /// A write, with a JSON body.
    Post,
}

/// One call, ready to be resolved against a base address.
#[derive(Clone, Debug, PartialEq)]
pub struct Request {
    pub method: Method,
    /// The path, relative to the base address.
    pub path: String,
    /// The query pairs, in order.
    pub query: Vec<(String, String)>,
}

/// A character that cannot let a path escape its base address: no colon
/// (which would start a scheme) and no backslash (which some schemes read as a
/// slash).
pub open spec fn path_char_ok(c: char) -> bool {
    c != ':' && c != '\\'
}

/// A path that resolves below the base address: it does not start with a slash
/// and names no scheme, so the base's scheme and host are kept.
pub open spec fn is_relative_path(p: Seq<char>) -> bool {
    &&& forall|i: int| 0 <= i < p.len() ==> path_char_ok(#[trigger] p[i])
    &&& p.len() > 0 ==> p[0] != '/'
}

/// Text whose characters are all `path_char_ok`.
pub open spec fn path_chars_ok(p: Seq<char>) -> bool {
    forall|i: int| 0 <= i < p.len() ==> path_char_ok(#[trigger] p[i])
}

/// Joining texts whose characters are fine gives a text whose characters are fine.
pub proof fn lemma_path_chars_concat(a: Seq<char>, b: Seq<char>)
    requires
        path_chars_ok(a),
        path_chars_ok(b),
    ensures
        path_chars_ok(a + b),
{
    assert forall|i: int| 0 <= i < (a + b).len() implies path_char_ok(#[trigger] (a + b)[i]) by {
        if i < a.len() {
            assert((a + b)[i] == a[i]);
        } else {
            assert((a + b)[i] == b[i - a.len()]);
        }
    }
}

/// A call with no query pairs.
pub fn request_without_query(method: Method, path: String) -> (r: Request)
    ensures
        r.method == method,
        r.path@ == path@,
        r.query@.len() == 0,
{
    Request { method, path, query: Vec::new() }
}

} // verus!
