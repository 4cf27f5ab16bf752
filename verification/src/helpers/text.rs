use vstd::prelude::*;

verus! {

/// Whether a character is white space, as Unicode defines it: the
/// characters with the property White_Space.
pub open spec fn spec_is_whitespace(c: char) -> bool {
    ||| '\u{0009}' <= c <= '\u{000d}'
    ||| c == '\u{0020}'
    ||| c == '\u{0085}'
    ||| c == '\u{00a0}'
    ||| c == '\u{1680}'
    ||| '\u{2000}' <= c <= '\u{200a}'
    ||| c == '\u{2028}'
    ||| c == '\u{2029}'
    ||| c == '\u{202f}'
    ||| c == '\u{205f}'
    ||| c == '\u{3000}'
}

/// `text` in lower case, as Unicode defines it.
pub uninterp spec fn spec_lowercase(text: Seq<char>) -> Seq<char>;

/// Whether a character is white space.
pub fn is_whitespace(c: char) -> (white: bool)
    ensures
        white == spec_is_whitespace(c),
{
    ('\u{0009}' <= c && c <= '\u{000d}') || c == '\u{0020}' || c == '\u{0085}' || c == '\u{00a0}'
        || c == '\u{1680}' || ('\u{2000}' <= c && c <= '\u{200a}') || c == '\u{2028}' || c
        == '\u{2029}' || c == '\u{202f}' || c == '\u{205f}' || c == '\u{3000}'
}

/// `str::to_lowercase`: the text with every character in lower case. The
/// result is a function of the text alone.
#[verifier::external_body]
pub(crate) fn lowercase(text: &str) -> (lower: String)
    ensures
        lower@ == spec_lowercase(text@),
{
    text.to_lowercase()
}

/// The number of leading characters of `text` that are white space.
pub open spec fn leading_space(text: Seq<char>) -> nat
    decreases text.len(),
{
    if text.len() > 0 && spec_is_whitespace(text[0]) {
        1 + leading_space(text.subrange(1, text.len() as int))
    } else {
        0
    }
}

/// The number of trailing characters of `text` that are white space.
pub open spec fn trailing_space(text: Seq<char>) -> nat
    decreases text.len(),
{
    if text.len() > 0 && spec_is_whitespace(text.last()) {
        1 + trailing_space(text.drop_last())
    } else {
        0
    }
}

/// `text` without the white space at its start.
pub open spec fn trimmed_start(text: Seq<char>) -> Seq<char> {
    text.subrange(leading_space(text) as int, text.len() as int)
}

/// `text` without the white space at its start and at its end.
pub open spec fn trimmed(text: Seq<char>) -> Seq<char> {
    let rest = trimmed_start(text);
    rest.take(rest.len() - trailing_space(rest))
}

/// The trailing white space is within the text.
pub proof fn lemma_trailing_space_bound(text: Seq<char>)
    ensures
        trailing_space(text) <= text.len(),
    decreases text.len(),
{
    if text.len() > 0 && spec_is_whitespace(text.last()) {
        lemma_trailing_space_bound(text.drop_last());
    }
}

/// Counts the white space in `text` from position `from` on.
pub(crate) fn skip_space(text: &str, from: usize) -> (end: usize)
    requires
        from <= text@.len(),
    ensures
        end == from + leading_space(text@.subrange(from as int, text@.len() as int)),
        end <= text@.len(),
{
    let n = text.unicode_len();
    let mut end = from;
    while end < n && is_whitespace(text.get_char(end))
        invariant
            n == text@.len(),
            from <= end <= n,
            from + leading_space(text@.subrange(from as int, n as int)) == end + leading_space(
                text@.subrange(end as int, n as int),
            ),
        decreases n - end,
    {
        proof {
            let rest = text@.subrange(end as int, n as int);
            assert(rest[0] == text@[end as int]);
            assert(rest.subrange(1, rest.len() as int) =~= text@.subrange(end + 1, n as int));
        }
        end += 1;
    }
    proof {
        let rest = text@.subrange(end as int, n as int);
        if end < n {
            assert(rest[0] == text@[end as int]);
        }
    }
    end
}

/// Counts back over the white space at the end of `text`.
pub(crate) fn skip_space_back(text: &str) -> (end: usize)
    ensures
        end + trailing_space(text@) == text@.len(),
{
    let n = text.unicode_len();
    let mut end = n;
    assert(text@.take(n as int) =~= text@);
    while end > 0 && is_whitespace(text.get_char(end - 1))
        invariant
            n == text@.len(),
            end <= n,
            trailing_space(text@) == (n - end) + trailing_space(text@.take(end as int)),
        decreases end,
    {
        proof {
            let head = text@.take(end as int);
            assert(head.last() == text@[end - 1]);
            assert(head.drop_last() =~= text@.take(end - 1));
        }
        end -= 1;
    }
    proof {
        let head = text@.take(end as int);
        if end > 0 {
            assert(head.last() == text@[end - 1]);
        }
    }
    end
}

/// The text without the white space at its start.
pub fn trim_start(input: &str) -> (text: String)
    ensures
        text@ == trimmed_start(input@),
{
    let n = input.unicode_len();
    let start = skip_space(input, 0);
    assert(input@.subrange(0, n as int) =~= input@);
    String::from_str(input.substring_char(start, n))
}

/// The text without the white space at its start and at its end.
pub fn trim(input: &str) -> (text: String)
    ensures
        text@ == trimmed(input@),
{
    let n = input.unicode_len();
    let start = skip_space(input, 0);
    assert(input@.subrange(0, n as int) =~= input@);
    let rest = input.substring_char(start, n);
    let end = skip_space_back(rest);
    proof {
        lemma_trailing_space_bound(rest@);
        assert(rest@.subrange(0, end as int) =~= rest@.take(end as int));
    }
    String::from_str(rest.substring_char(0, end))
}

/// Whether two texts are the same.
pub fn same_text(a: &str, b: &str) -> (same: bool)
    ensures
        same == (a@ == b@),
{
    String::from_str(a) == String::from_str(b)
}

} // verus!
