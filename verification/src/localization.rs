use vstd::prelude::*;
use crate::helpers::text::same_text;

verus! {

/// Whether the application has texts in a language.
pub open spec fn is_supported(language: Seq<char>) -> bool {
    ||| language == "de"@
    ||| language == "en-US"@
    ||| language == "es"@
    ||| language == "fi"@
    ||| language == "fr"@
    ||| language == "it"@
    ||| language == "nl"@
    ||| language == "pt-BR"@
    ||| language == "pt-PT"@
    ||| language == "ru"@
    ||| language == "sk"@
    ||| language == "tr"@
}

/// Whether the application has texts in a language.
pub fn supports(language: &str) -> (supported: bool)
    ensures
        supported == is_supported(language@),
{
    same_text(language, "de") || same_text(language, "en-US") || same_text(language, "es")
        || same_text(language, "fi") || same_text(language, "fr") || same_text(language, "it")
        || same_text(language, "nl") || same_text(language, "pt-BR") || same_text(
        language,
        "pt-PT",
    ) || same_text(language, "ru") || same_text(language, "sk") || same_text(language, "tr")
}

/// The first two characters of a text, or all of a shorter one.
pub open spec fn first_two(text: Seq<char>) -> Seq<char> {
    if text.len() > 2 {
        text.take(2)
    } else {
        text
    }
}

/// The language in which the application speaks on a system with the given
/// locale: the locale itself where there are texts for it; else its first
/// two characters where there are texts for those; else American English,
/// which is also the language of a system that names no locale.
pub open spec fn chosen_language(locale: Option<Seq<char>>) -> Seq<char> {
    let wanted = match locale {
        Some(name) => name,
        None => "en-US"@,
    };
    if is_supported(wanted) {
        wanted
    } else if is_supported(first_two(wanted)) {
        first_two(wanted)
    } else {
        "en-US"@
    }
}

/// Chooses the language for a system's locale.
pub fn choose_language(locale: Option<&str>) -> (language: String)
    ensures
        language@ == chosen_language(
            match locale {
                Some(name) => Some(name@),
                None => None,
            },
        ),
{
    let wanted = match locale {
        Some(name) => name,
        None => "en-US",
    };
    if supports(wanted) {
        String::from_str(wanted)
    } else {
        let n = wanted.unicode_len();
        let short = if n > 2 {
            wanted.substring_char(0, 2)
        } else {
            wanted
        };
        assert(short@ =~= first_two(wanted@));
        if supports(short) {
            String::from_str(short)
        } else {
            String::from_str("en-US")
        }
    }
}

/// Whether a character is one of the two marks that isolate an inserted
/// value from the direction of the text around it.
pub open spec fn is_isolate(c: char) -> bool {
    c == '\u{2068}' || c == '\u{2069}'
}

/// A text without its isolating marks.
pub open spec fn without_isolates(text: Seq<char>) -> Seq<char> {
    text.filter(|c: char| !is_isolate(c))
}

/// Takes the isolating marks out of a formatted message.
pub fn strip_isolates(text: &str) -> (plain: String)
    ensures
        plain@ == without_isolates(text@),
{
    let n = text.unicode_len();
    let mut plain = String::new();
    let mut i: usize = 0;
    proof {
        reveal(Seq::filter);
    }
    assert(text@.take(0) =~= Seq::<char>::empty());
    while i < n
        invariant
            n == text@.len(),
            i <= n,
            plain@ == without_isolates(text@.take(i as int)),
        decreases n - i,
    {
        let c = text.get_char(i);
        proof {
            let next = text@.take(i + 1);
            assert(next.drop_last() =~= text@.take(i as int));
            assert(next.last() == c);
            reveal(Seq::filter);
        }
        if !(c == '\u{2068}' || c == '\u{2069}') {
            let one = text.substring_char(i, i + 1);
            assert(one@ =~= seq![c]);
            plain.append(one);
        }
        i += 1;
    }
    assert(text@.take(n as int) =~= text@);
    plain
}

} // verus!
