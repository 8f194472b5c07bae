//! Operations on text that the rest of the library is stated over.

use vstd::prelude::*;
use vstd::string::*;

verus! {

/// `text` with every leading repetition of `prefix` removed.
pub open spec fn strip_leading(text: Seq<char>, prefix: Seq<char>) -> Seq<char>
    decreases text.len(),
{
    if prefix.len() > 0 && prefix.is_prefix_of(text) {
        strip_leading(text.skip(prefix.len() as int), prefix)
    } else {
        text
    }
}

/// `text` with every trailing occurrence of `c` removed.
pub open spec fn strip_trailing(text: Seq<char>, c: char) -> Seq<char>
    decreases text.len(),
{
    if text.len() > 0 && text.last() == c {
        strip_trailing(text.drop_last(), c)
    } else {
        text
    }
}

/// Whether `prefix` stands in `text` at position `from`.
fn occurs_at(text: &str, total: usize, from: usize, prefix: &str, width: usize) -> (r: bool)
    requires
        total == text@.len(),
        width == prefix@.len(),
        from <= total,
    ensures
        r == prefix@.is_prefix_of(text@.skip(from as int)),
{
    if total - from < width {
        return false;
    }
    let mut i: usize = 0;
    while i < width
        invariant
            total == text@.len(),
            width == prefix@.len(),
            from + width <= total,
            i <= width,
            forall|j: int| 0 <= j < i ==> text@[from + j] == prefix@[j],
        decreases width - i,
    {
        if text.get_char(from + i) != prefix.get_char(i) {
            return false;
        }
        i += 1;
    }
    true
}

/// Removes every leading repetition of `prefix` from `text`.
pub fn trim_leading<'a>(text: &'a str, prefix: &str) -> (rest: &'a str)
    ensures
        rest@ == strip_leading(text@, prefix@),
{
    let total = text.unicode_len();
    let width = prefix.unicode_len();
    if width == 0 {
        return text;
    }
    let mut from: usize = 0;
    assert(text@.skip(0) =~= text@);
    while occurs_at(text, total, from, prefix, width)
        invariant
            total == text@.len(),
            width == prefix@.len(),
            width > 0,
            from <= total,
            strip_leading(text@, prefix@) == strip_leading(text@.skip(from as int), prefix@),
        decreases total - from,
    {
        assert(text@.skip(from as int).skip(width as int) =~= text@.skip(from + width));
        from += width;
    }
    text.substring_char(from, total)
}

/// Removes every trailing occurrence of `c` from `text`.
pub fn trim_trailing<'a>(text: &'a str, c: char) -> (rest: &'a str)
    ensures
        rest@ == strip_trailing(text@, c),
{
    let mut end = text.unicode_len();
    assert(text@.take(end as int) =~= text@);
    while end > 0 && text.get_char(end - 1) == c
        invariant
            end <= text@.len(),
            strip_trailing(text@, c) == strip_trailing(text@.take(end as int), c),
        decreases end,
    {
        assert(text@.take(end as int).drop_last() =~= text@.take(end - 1));
        end -= 1;
    }
    text.substring_char(0, end)
}

/// Whether two texts hold the same characters.
pub fn same_text(a: &str, b: &str) -> (r: bool)
    ensures
        r == (a@ == b@),
{
    let n = a.unicode_len();
    if n != b.unicode_len() {
        return false;
    }
    let mut i: usize = 0;
    while i < n
        invariant
            n == a@.len(),
            n == b@.len(),
            i <= n,
            forall|j: int| 0 <= j < i ==> a@[j] == b@[j],
        decreases n - i,
    {
        if a.get_char(i) != b.get_char(i) {
            return false;
        }
        i += 1;
    }
    assert(a@ =~= b@);
    true
}

/// The code of a character with the ASCII letters `A` to `Z` mapped to `a` to `z`.
pub open spec fn ascii_lowercase(c: char) -> int {
    if 'A' <= c <= 'Z' {
        c as int + 32
    } else {
        c as int
    }
}

/// Whether two texts are the same once their ASCII letters are put in lower case.
pub open spec fn same_ignoring_ascii_case(a: Seq<char>, b: Seq<char>) -> bool {
    &&& a.len() == b.len()
    &&& forall|i: int|
        0 <= i < a.len() ==> ascii_lowercase(#[trigger] a[i]) == ascii_lowercase(b[i])
}

/// The code of a character with the ASCII letters `A` to `Z` mapped to `a` to `z`.
pub fn to_ascii_lowercase(c: char) -> (r: u32)
    ensures
        r == ascii_lowercase(c),
{
    if c >= 'A' && c <= 'Z' {
        c as u32 + 32
    } else {
        c as u32
    }
}

/// Whether two texts match when the case of ASCII letters is ignored.
pub fn same_text_ignoring_ascii_case(a: &str, b: &str) -> (r: bool)
    ensures
        r == same_ignoring_ascii_case(a@, b@),
{
    let n = a.unicode_len();
    if n != b.unicode_len() {
        return false;
    }
    let mut i: usize = 0;
    while i < n
        invariant
            n == a@.len(),
            n == b@.len(),
            i <= n,
            forall|j: int|
                0 <= j < i ==> ascii_lowercase(#[trigger] a@[j]) == ascii_lowercase(b@[j]),
        decreases n - i,
    {
        if to_ascii_lowercase(a.get_char(i)) != to_ascii_lowercase(b.get_char(i)) {
            return false;
        }
        i += 1;
    }
    true
}

/// The text that `{:?}` gives for a text: the text between double quotes, with what could
/// not be read there written as an escape.
pub uninterp spec fn debug_text(text: Seq<char>) -> Seq<char>;

/// Calls `format!` with `{:?}` on a text, which is the `Debug` of `str` in `std`. The
/// contract does not say what the rendering looks like: it names what the call returns, and
/// so claims that the result depends on the text alone.
#[verifier::external_body]
pub(crate) fn render_text(text: &str) -> (r: String)
    ensures
        r@ == debug_text(text@),
{
    format!("{:?}", text)
}

/// How an optional value is shown, given how the value itself is shown: as `Some` around
/// it, or as `None`.
pub open spec fn optional_text(shown: Option<Seq<char>>) -> Seq<char> {
    match shown {
        Some(inner) => "Some("@ + inner + ")"@,
        None => "None"@,
    }
}

/// The text that `{:?}` gives for an optional text.
pub open spec fn debug_optional_text(text: Option<Seq<char>>) -> Seq<char> {
    match text {
        Some(t) => optional_text(Some(debug_text(t))),
        None => optional_text(None),
    }
}

/// Shows an optional value, given how the value itself is shown.
pub fn compose_optional_text(shown: Option<&str>) -> (r: String)
    ensures
        r@ == optional_text(
            match shown {
                Some(inner) => Some(inner@),
                None => None,
            },
        ),
{
    match shown {
        Some(inner) => {
            let mut rendered = String::from_str("Some(");
            rendered.append(inner);
            rendered.append(")");
            rendered
        },
        None => String::from_str("None"),
    }
}

/// Renders an optional text as `{:?}` does.
pub fn render_optional_text(text: &Option<String>) -> (r: String)
    ensures
        r@ == debug_optional_text(text.deep_view()),
{
    match text {
        Some(t) => {
            let inner = render_text(t.as_str());
            compose_optional_text(Some(inner.as_str()))
        },
        None => compose_optional_text(None),
    }
}

/// A copy of an optional text.
pub fn copy_optional_text(text: &Option<String>) -> (r: Option<String>)
    ensures
        r.deep_view() == text.deep_view(),
{
    match text {
        Some(t) => Some(t.clone()),
        None => None,
    }
}

} // verus!
