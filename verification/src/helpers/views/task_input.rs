use vstd::prelude::*;
use vstd::utf8::encode_utf8;
use crate::helpers::text::{skip_space, trim_start, trimmed_start};

verus! {

/// How often `c` occurs in `text`.
pub open spec fn occurrences(text: Seq<char>, c: char) -> nat
    decreases text.len(),
{
    if text.len() == 0 {
        0
    } else {
        occurrences(text.drop_last(), c) + if text.last() == c {
            1nat
        } else {
            0nat
        }
    }
}

/// The position of the first `c` in `text`, or the length of `text` where
/// there is none.
pub open spec fn position(text: Seq<char>, c: char) -> nat
    decreases text.len(),
{
    if text.len() > 0 && text[0] != c {
        1 + position(text.subrange(1, text.len() as int), c)
    } else {
        0
    }
}

/// The first occurrence is within the text, or at its end.
pub proof fn lemma_position_bound(text: Seq<char>, c: char)
    ensures
        position(text, c) <= text.len(),
        position(text, c) < text.len() ==> text[position(text, c) as int] == c,
    decreases text.len(),
{
    if text.len() > 0 && text[0] != c {
        let rest = text.subrange(1, text.len() as int);
        lemma_position_bound(rest, c);
        if position(rest, c) < rest.len() {
            assert(rest[position(rest, c) as int] == text[position(rest, c) as int + 1]);
        }
    }
}

/// Finds the first `c` in `text` from position `from` on.
fn find_from(text: &str, from: usize, c: char) -> (at: usize)
    requires
        from <= text@.len(),
    ensures
        at == from + position(text@.subrange(from as int, text@.len() as int), c),
        at <= text@.len(),
{
    let n = text.unicode_len();
    let mut at = from;
    while at < n && text.get_char(at) != c
        invariant
            n == text@.len(),
            from <= at <= n,
            from + position(text@.subrange(from as int, n as int), c) == at + position(
                text@.subrange(at as int, n as int),
                c,
            ),
        decreases n - at,
    {
        proof {
            let rest = text@.subrange(at as int, n as int);
            assert(rest[0] == text@[at as int]);
            assert(rest.subrange(1, rest.len() as int) =~= text@.subrange(at + 1, n as int));
        }
        at += 1;
    }
    proof {
        let rest = text@.subrange(at as int, n as int);
        if at < n {
            assert(rest[0] == text@[at as int]);
        }
    }
    at
}

/// Counts how often `c` occurs in `text`.
fn count_char(text: &str, c: char) -> (count: usize)
    ensures
        count == occurrences(text@, c),
{
    let n = text.unicode_len();
    let mut count: usize = 0;
    let mut i: usize = 0;
    while i < n
        invariant
            n == text@.len(),
            i <= n,
            count <= i,
            count == occurrences(text@.take(i as int), c),
        decreases n - i,
    {
        proof {
            let next = text@.take(i + 1);
            assert(next.drop_last() =~= text@.take(i as int));
            assert(next.last() == text@[i as int]);
        }
        if text.get_char(i) == c {
            count += 1;
        }
        i += 1;
    }
    assert(text@.take(n as int) =~= text@);
    count
}

/// Whether a number as it is written has at most two decimals: no point,
/// or one point followed by at most two bytes.
pub open spec fn max_two_decimals(number: Seq<char>) -> bool {
    let points = occurrences(number, '.');
    if points == 0 {
        true
    } else if points == 1 {
        encode_utf8(number.subrange(position(number, '.') as int + 1, number.len() as int)).len()
            as usize <= 2
    } else {
        false
    }
}

/// Whether a number as it is written has at most two decimals.
pub fn has_max_two_decimals(input: &str) -> (ok: bool)
    ensures
        ok == max_two_decimals(input@),
{
    let points = count_char(input, '.');
    if points == 0 {
        true
    } else if points == 1 {
        let n = input.unicode_len();
        let at = find_from(input, 0, '.');
        proof {
            assert(input@.subrange(0, n as int) =~= input@);
            lemma_position_bound(input@, '.');
            lemma_point_present(input@);
        }
        let decimals = input.substring_char(at + 1, n);
        decimals.len() <= 2
    } else {
        false
    }
}

/// A text in which a point occurs has its first point within it.
pub proof fn lemma_point_present(text: Seq<char>)
    requires
        occurrences(text, '.') > 0,
    ensures
        position(text, '.') < text.len(),
    decreases text.len(),
{
    lemma_position_bound(text, '.');
    if position(text, '.') >= text.len() {
        lemma_absent(text, '.');
    }
}

/// A character whose first position is the end of the text does not occur
/// in it.
pub proof fn lemma_absent(text: Seq<char>, c: char)
    requires
        position(text, c) >= text.len(),
    ensures
        occurrences(text, c) == 0,
    decreases text.len(),
{
    if text.len() > 0 {
        lemma_position_bound(text.subrange(1, text.len() as int), c);
        assert(text[0] != c);
        let rest = text.subrange(1, text.len() as int);
        lemma_absent(rest, c);
        lemma_occurrences_front(text, c);
    }
}

/// Occurrences can be counted from the front as well as from the back.
pub proof fn lemma_occurrences_front(text: Seq<char>, c: char)
    requires
        text.len() > 0,
    ensures
        occurrences(text, c) == occurrences(text.subrange(1, text.len() as int), c) + if text[0]
            == c {
            1nat
        } else {
            0nat
        },
    decreases text.len(),
{
    let rest = text.subrange(1, text.len() as int);
    if text.len() == 1 {
        assert(text.drop_last() =~= Seq::<char>::empty());
        assert(rest =~= Seq::<char>::empty());
    } else {
        lemma_occurrences_front(text.drop_last(), c);
        assert(text.drop_last().subrange(1, text.len() - 1) =~= rest.drop_last());
        assert(rest.last() == text.last());
        assert(text.drop_last()[0] == text[0]);
    }
}

/// Whether the marks of a task are in place: the text does not begin with
/// `@`, `#` or `$`, and holds at most one `@` and at most one `$`.
pub open spec fn well_placed(text: Seq<char>) -> bool {
    &&& text.len() == 0 || (text[0] != '@' && text[0] != '#' && text[0] != '$')
    &&& occurrences(text, '@') < 2
    &&& occurrences(text, '$') < 2
}

/// What follows the first `$` of a text; nothing where there is none.
pub open spec fn after_dollar(text: Seq<char>) -> Seq<char> {
    let dollar = position(text, '$');
    if dollar < text.len() {
        text.subrange(dollar as int + 1, text.len() as int)
    } else {
        Seq::<char>::empty()
    }
}

/// The rate as it is written in a text: what stands between the first `$`
/// and the next blank.
pub open spec fn written_rate(text: Seq<char>) -> Seq<char> {
    let after = after_dollar(text);
    after.take(position(after, ' ') as int)
}

/// What follows the written rate, without the white space at its start.
pub open spec fn after_rate(text: Seq<char>) -> Seq<char> {
    let after = after_dollar(text);
    trimmed_start(after.subrange(position(after, ' ') as int, after.len() as int))
}

/// Whether what was typed into the timer is taken. `rate_ok` says whether
/// the written rate reads as a finite number.
///
/// While the timer runs, the input may not be blank. The marks must be in
/// place. A `$` may end the input; otherwise a rate must follow it that
/// reads as a number with at most two decimals, and after the rate nothing
/// but a project or tags may come.
pub open spec fn accepted(input: Seq<char>, timer_running: bool, rate_ok: bool) -> bool {
    let text = trimmed_start(input);
    if timer_running && text.len() == 0 {
        false
    } else if !well_placed(text) {
        false
    } else if position(text, '$') >= text.len() {
        true
    } else if after_dollar(text).len() == 0 {
        true
    } else {
        &&& rate_ok
        &&& max_two_decimals(written_rate(text))
        &&& (after_rate(text).len() == 0 || after_rate(text)[0] == '@' || after_rate(text)[0]
            == '#')
    }
}

/// The rate as it is written in what was typed, for the caller to read as a
/// number; `None` where no rate is written.
pub fn rate_candidate(input: &str) -> (number: Option<String>)
    ensures
        match number {
            Some(text) => text@ == written_rate(trimmed_start(input@)) && after_dollar(
                trimmed_start(input@),
            ).len() > 0,
            None => after_dollar(trimmed_start(input@)).len() == 0,
        },
{
    let trimmed = trim_start(input);
    let text = trimmed.as_str();
    let n = text.unicode_len();
    let dollar = find_from(text, 0, '$');
    assert(text@.subrange(0, n as int) =~= text@);
    if dollar >= n || dollar + 1 >= n {
        return None;
    }
    let after = text.substring_char(dollar + 1, n);
    let m = after.unicode_len();
    let end = find_from(after, 0, ' ');
    assert(after@.subrange(0, m as int) =~= after@);
    let number = after.substring_char(0, end);
    assert(number@ =~= after@.take(end as int));
    Some(String::from_str(number))
}

/// Takes what was typed into the timer, or leaves the input as it is where
/// what was typed is not accepted. What is taken loses the white space at
/// its start. The result says whether the input was taken.
pub fn validate_task_input(
    task_input: &mut String,
    input: &str,
    timer_running: bool,
    rate_ok: bool,
) -> (taken: bool)
    ensures
        taken == accepted(input@, timer_running, rate_ok),
        taken ==> final(task_input)@ == trimmed_start(input@),
        !taken ==> *final(task_input) == *old(task_input),
{
    let trimmed = trim_start(input);
    let text = trimmed.as_str();
    let n = text.unicode_len();
    if timer_running && n == 0 {
        return false;
    }
    if n > 0 {
        let first = text.get_char(0);
        if first == '@' || first == '#' || first == '$' {
            return false;
        }
    }
    if count_char(text, '@') >= 2 || count_char(text, '$') >= 2 {
        return false;
    }
    let dollar = find_from(text, 0, '$');
    assert(text@.subrange(0, n as int) =~= text@);
    if dollar >= n || dollar + 1 >= n {
        *task_input = trimmed;
        return true;
    }
    let after = text.substring_char(dollar + 1, n);
    let m = after.unicode_len();
    let end = find_from(after, 0, ' ');
    assert(after@.subrange(0, m as int) =~= after@);
    let number = after.substring_char(0, end);
    assert(number@ =~= after@.take(end as int));
    if !rate_ok || !has_max_two_decimals(number) {
        return false;
    }
    let rest = after.substring_char(end, m);
    let r = rest.unicode_len();
    let skip = skip_space(rest, 0);
    assert(rest@.subrange(0, r as int) =~= rest@);
    let fine = if skip >= r {
        true
    } else {
        let next = rest.get_char(skip);
        next == '@' || next == '#'
    };
    if fine {
        *task_input = trimmed;
    }
    fine
}

} // verus!
