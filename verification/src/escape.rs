//! HTML escaping of dynamic values before they are inserted into a page.

use vstd::prelude::*;
use vstd::string::{is_ascii_spec_bytes, StringSliceAdditionalSpecFns};
use crate::text::{AMPERSAND, APOSTROPHE, GREATER_THAN, LESS_THAN, QUOTE};

verus! {

/// What stands in an HTML page for the byte `b` of a dynamic value: a
/// character reference for `"`, `&`, `'`, `<` and `>`, and the byte itself
/// otherwise.
pub open spec fn escape_byte(b: u8) -> Seq<u8> {
    if b == QUOTE {
        "&quot;".spec_bytes()
    } else if b == AMPERSAND {
        "&amp;".spec_bytes()
    } else if b == APOSTROPHE {
        "&#039;".spec_bytes()
    } else if b == LESS_THAN {
        "&lt;".spec_bytes()
    } else if b == GREATER_THAN {
        "&gt;".spec_bytes()
    } else {
        seq![b]
    }
}

/// The HTML-escaped form of a byte string: each byte replaced by
/// `escape_byte` of it, in order.
pub open spec fn html_escape(s: Seq<u8>) -> Seq<u8>
    decreases s.len(),
{
    if s.len() == 0 {
        Seq::empty()
    } else {
        html_escape(s.drop_last()) + escape_byte(s.last())
    }
}

/// A byte that escaping leaves as it is.
pub open spec fn is_plain(b: u8) -> bool {
    b != QUOTE && b != AMPERSAND && b != APOSTROPHE && b != LESS_THAN && b != GREATER_THAN
}

/// Every byte of `s` is one that escaping leaves as it is.
pub open spec fn all_plain(s: Seq<u8>) -> bool {
    forall|i: int| 0 <= i < s.len() ==> is_plain(#[trigger] s[i])
}

/// A byte that cannot begin or end a tag or an attribute value in HTML: not
/// `"`, `'`, `<` or `>`.
pub open spec fn is_inert(b: u8) -> bool {
    b != QUOTE && b != APOSTROPHE && b != LESS_THAN && b != GREATER_THAN
}

/// Escaping changes nothing in a byte string without `"`, `&`, `'`, `<` and
/// `>`.
pub proof fn lemma_escape_plain(s: Seq<u8>)
    requires
        all_plain(s),
    ensures
        html_escape(s) == s,
    decreases s.len(),
{
    if s.len() > 0 {
        lemma_escape_plain(s.drop_last());
        assert(is_plain(s[s.len() - 1]));
        assert(s.drop_last() + seq![s.last()] =~= s);
    }
}

/// What stands for one byte holds no `"`, `'`, `<` or `>`.
proof fn lemma_escape_byte_is_inert(b: u8)
    ensures
        forall|i: int| 0 <= i < escape_byte(b).len() ==> is_inert(#[trigger] escape_byte(b)[i]),
{
    reveal_strlit("&quot;");
    reveal_strlit("&amp;");
    reveal_strlit("&#039;");
    reveal_strlit("&lt;");
    reveal_strlit("&gt;");
    is_ascii_spec_bytes("&quot;");
    is_ascii_spec_bytes("&amp;");
    is_ascii_spec_bytes("&#039;");
    is_ascii_spec_bytes("&lt;");
    is_ascii_spec_bytes("&gt;");
}

/// The escaped form of a byte string holds no `"`, `'`, `<` or `>`, whatever
/// the byte string holds.
pub proof fn law_escape_is_inert(s: Seq<u8>)
    ensures
        forall|i: int| 0 <= i < html_escape(s).len() ==> is_inert(#[trigger] html_escape(s)[i]),
    decreases s.len(),
{
    if s.len() > 0 {
        law_escape_is_inert(s.drop_last());
        lemma_escape_byte_is_inert(s.last());
        let head = html_escape(s.drop_last());
        let tail = escape_byte(s.last());
        assert forall|i: int| 0 <= i < html_escape(s).len() implies is_inert(
            #[trigger] html_escape(s)[i],
        ) by {
            if i < head.len() {
                assert(html_escape(s)[i] == head[i]);
            } else {
                assert(html_escape(s)[i] == tail[i - head.len()]);
            }
        }
    }
}

/// Escapes `value` for insertion into HTML.
///
/// Calls `sailfish::runtime::escape::escape_to_string` on an empty string.
/// The contract is taken on trust from that function: it copies the UTF-8
/// bytes of its input and replaces `"`, `&`, `'`, `<` and `>` by `&quot;`,
/// `&amp;`, `&#039;`, `&lt;` and `&gt;`.
#[verifier::external_body]
pub(crate) fn escape_to_bytes(value: &str) -> (out: Vec<u8>)
    ensures
        out@ == html_escape(value.spec_bytes()),
{
    let mut escaped = String::new();
    sailfish::runtime::escape::escape_to_string(value, &mut escaped);
    escaped.into_bytes()
}

} // verus!
