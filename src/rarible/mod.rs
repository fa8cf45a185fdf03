//! The Rarible protocol API: path encoding and endpoint descriptions.
use vstd::prelude::*;
use vstd::utf8::encode_utf8;
use crate::request::{lemma_path_chars_concat, path_chars_ok};
use crate::transport::{form_encoded, form_encoded_byte, form_unreserved, form_urlencode_bytes, hex_upper};

pub mod endpoints;
pub mod models;

verus! {

/// The text of a path segment or query value as `application/x-www-form-urlencoded`
/// writes it: the UTF-8 bytes of `s`, letters, digits and `*-._` kept, spaces
/// as `+`, every other byte as `%XX`.
pub open spec fn urlencoded(s: Seq<char>) -> Seq<char> {
    form_encoded(encode_utf8(s))
}

/// The form encoding of one byte holds no colon, slash or backslash.
proof fn lemma_encoded_byte_is_path_safe(b: u8)
    ensures
        path_chars_ok(form_encoded_byte(b)),
        forall|i: int| 0 <= i < form_encoded_byte(b).len() ==> #[trigger] form_encoded_byte(b)[i] != '/',
{
    let e = form_encoded_byte(b);
    if form_unreserved(b) {
        assert(e == seq![b as char]);
    } else if b == 32 {
    } else {
        let hi = hex_upper((b / 16) as nat);
        let lo = hex_upper((b % 16) as nat);
        assert(hi != ':' && hi != '/' && hi != '\\');
        assert(lo != ':' && lo != '/' && lo != '\\');
    }
}

/// Form-encoded text holds no colon, slash or backslash: as a path segment it
/// stays one segment.
pub proof fn lemma_urlencoded_is_one_segment(s: Seq<char>)
    ensures
        path_chars_ok(urlencoded(s)),
        forall|i: int| 0 <= i < urlencoded(s).len() ==> #[trigger] urlencoded(s)[i] != '/',
{
    lemma_form_encoded_is_one_segment(encode_utf8(s));
}

proof fn lemma_form_encoded_is_one_segment(b: Seq<u8>)
    ensures
        path_chars_ok(form_encoded(b)),
        forall|i: int| 0 <= i < form_encoded(b).len() ==> #[trigger] form_encoded(b)[i] != '/',
    decreases b.len(),
{
    if b.len() > 0 {
        lemma_form_encoded_is_one_segment(b.drop_last());
        lemma_encoded_byte_is_path_safe(b.last());
        let a = form_encoded(b.drop_last());
        let c = form_encoded_byte(b.last());
        lemma_path_chars_concat(a, c);
        assert forall|i: int| 0 <= i < (a + c).len() implies #[trigger] (a + c)[i] != '/' by {
            if i < a.len() {
                assert((a + c)[i] == a[i]);
            } else {
                assert((a + c)[i] == c[i - a.len()]);
            }
        }
    }
}

/// Encodes text for use inside a path segment.
pub fn urlencode(s: &str) -> (r: String)
    ensures
        r@ == urlencoded(s@),
{
    form_urlencode_bytes(s.as_bytes())
}

} // verus!
