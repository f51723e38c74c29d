//! The few operations on text that composing a diagnostic needs.

use vstd::prelude::*;

verus! {

/// `text` with every backslash that is followed by a double quote taken
/// out together with that quote, reading from the left.
pub open spec fn without_escaped_quotes(text: Seq<char>) -> Seq<char>
    decreases text.len(),
{
    if text.len() == 0 {
        text
    } else if text.len() >= 2 && text[0] == '\\' && text[1] == '"' {
        without_escaped_quotes(text.skip(2))
    } else {
        seq![text[0]] + without_escaped_quotes(text.skip(1))
    }
}

/// Takes every backslash-and-double-quote pair out of `text`.
pub fn strip_escaped_quotes(text: &str) -> (stripped: String)
    ensures
        stripped@ == without_escaped_quotes(text@),
{
    let n = text.unicode_len();
    let mut stripped = String::new();
    let mut start: usize = 0;
    let mut i: usize = 0;
    proof {
        assert(text@.skip(0) =~= text@);
    }
    while i < n
        invariant
            n == text@.len(),
            start <= i <= n,
            without_escaped_quotes(text@) == stripped@ + without_escaped_quotes(
                text@.skip(start as int),
            ),
            without_escaped_quotes(text@.skip(start as int)) == text@.subrange(
                start as int,
                i as int,
            ) + without_escaped_quotes(text@.skip(i as int)),
        decreases n - i,
    {
        let ghost rest = text@.skip(i as int);
        if i + 1 < n && text.get_char(i) == '\\' && text.get_char(i + 1) == '"' {
            proof {
                assert(rest.skip(2) =~= text@.skip(i + 2));
            }
            stripped.append(text.substring_char(start, i));
            i = i + 2;
            start = i;
        } else {
            proof {
                assert(rest.skip(1) =~= text@.skip(i + 1));
            }
            i = i + 1;
        }
    }
    stripped.append(text.substring_char(start, n));
    stripped
}

/// `prefix` followed by `rest`.
pub fn joined(prefix: &str, rest: &str) -> (text: String)
    ensures
        text@ == prefix@ + rest@,
{
    let mut text = prefix.to_owned();
    text.append(rest);
    text
}

/// The form in which `{:?}` prints a string: between double quotes, with
/// the characters that would not read well written as escapes.
pub uninterp spec fn debug_form(text: Seq<char>) -> Seq<char>;

/// Formats `text` with `{:?}`, that is with `<str as Debug>::fmt`. The result
/// depends on the characters of `text` alone.
#[verifier::external_body]
pub(crate) fn debug_quoted(text: &str) -> (quoted: String)
    ensures
        quoted@ == debug_form(text@),
{
    format!("{:?}", text)
}

} // verus!
