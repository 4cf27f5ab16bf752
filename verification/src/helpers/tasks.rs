use vstd::prelude::*;
use vstd::utf8::char_u32_cast;
use crate::helpers::text::{lowercase, same_text, spec_lowercase, trim, trimmed};
use crate::helpers::views::timer::TaskParts;

verus! {

/// Whether a character ends a part of the input: `#` and `$` always do, and
/// `@` does except within a project.
pub open spec fn ends_run(c: char, in_project: bool) -> bool {
    c == '#' || c == '$' || (!in_project && c == '@')
}

/// Where the part that begins at `from` ends: at the first character that
/// ends it, or at the end of the text.
pub open spec fn run_end(text: Seq<char>, from: int, in_project: bool) -> int
    decreases text.len() - from,
{
    if 0 <= from < text.len() && !ends_run(text[from], in_project) {
        run_end(text, from + 1, in_project)
    } else {
        from
    }
}

/// Where, at or after `from`, the first `mark` stands that a part of at
/// least one character follows; the length of the text where none does.
pub open spec fn match_start(text: Seq<char>, mark: char, from: int, in_project: bool) -> int
    decreases text.len() - from,
{
    if from < 0 || from >= text.len() {
        text.len() as int
    } else if text[from] == mark && run_end(text, from + 1, in_project) > from + 1 {
        from
    } else {
        match_start(text, mark, from + 1, in_project)
    }
}

/// The part that follows the first `mark`, if there is one.
pub open spec fn captured(text: Seq<char>, mark: char, in_project: bool) -> Option<Seq<char>> {
    let at = match_start(text, mark, 0, in_project);
    if at < text.len() {
        Some(text.subrange(at + 1, run_end(text, at + 1, in_project)))
    } else {
        None
    }
}

/// The parts that follow the marks `#`, from `from` on and in order.
pub open spec fn tag_captures(text: Seq<char>, from: int) -> Seq<Seq<char>>
    decreases text.len() - from,
{
    let at = match_start(text, '#', from, false);
    let end = run_end(text, at + 1, false);
    if 0 <= from <= at && at < end <= text.len() {
        seq![text.subrange(at + 1, end)] + tag_captures(text, end)
    } else {
        Seq::empty()
    }
}

/// A part ends within the text, at or after its start.
pub proof fn lemma_run_end_bound(text: Seq<char>, from: int, in_project: bool)
    requires
        0 <= from <= text.len(),
    ensures
        from <= run_end(text, from, in_project) <= text.len(),
    decreases text.len() - from,
{
    if from < text.len() && !ends_run(text[from], in_project) {
        lemma_run_end_bound(text, from + 1, in_project);
    }
}

/// A match stands within the text, at or after the start of the search; and
/// where there is one, the mark stands there and a part follows it.
pub proof fn lemma_match_start_bound(text: Seq<char>, mark: char, from: int, in_project: bool)
    requires
        0 <= from <= text.len(),
    ensures
        from <= match_start(text, mark, from, in_project) <= text.len(),
        match_start(text, mark, from, in_project) < text.len() ==> {
            let at = match_start(text, mark, from, in_project);
            text[at] == mark && at + 1 < run_end(text, at + 1, in_project) <= text.len()
        },
    decreases text.len() - from,
{
    if from < text.len() {
        lemma_run_end_bound(text, from + 1, in_project);
        if !(text[from] == mark && run_end(text, from + 1, in_project) > from + 1) {
            lemma_match_start_bound(text, mark, from + 1, in_project);
        }
    }
}

/// Whether a character ends a part.
fn is_end(c: char, in_project: bool) -> (r: bool)
    ensures
        r == ends_run(c, in_project),
{
    c == '#' || c == '$' || (!in_project && c == '@')
}

/// Finds the end of the part that begins at `from`.
fn scan_run(text: &str, from: usize, in_project: bool) -> (end: usize)
    requires
        from <= text@.len(),
    ensures
        end == run_end(text@, from as int, in_project),
        from <= end <= text@.len(),
{
    let n = text.unicode_len();
    let mut end = from;
    while end < n && !is_end(text.get_char(end), in_project)
        invariant
            n == text@.len(),
            from <= end <= n,
            run_end(text@, from as int, in_project) == run_end(text@, end as int, in_project),
        decreases n - end,
    {
        end += 1;
    }
    end
}

/// Finds the first match of `mark` at or after `from`.
fn find_match(text: &str, mark: char, from: usize, in_project: bool) -> (at: usize)
    requires
        from <= text@.len(),
    ensures
        at == match_start(text@, mark, from as int, in_project),
        from <= at <= text@.len(),
{
    let n = text.unicode_len();
    let mut at = from;
    while at < n
        invariant
            n == text@.len(),
            from <= at <= n,
            match_start(text@, mark, from as int, in_project) == match_start(
                text@,
                mark,
                at as int,
                in_project,
            ),
        decreases n - at,
    {
        if text.get_char(at) == mark && scan_run(text, at + 1, in_project) > at + 1 {
            return at;
        }
        at += 1;
    }
    at
}

/// The part that follows the first `mark`, if there is one.
pub fn capture(text: &str, mark: char, in_project: bool) -> (part: Option<String>)
    ensures
        match part {
            Some(p) => captured(text@, mark, in_project) == Some(p@),
            None => captured(text@, mark, in_project) is None,
        },
{
    let n = text.unicode_len();
    let at = find_match(text, mark, 0, in_project);
    if at < n {
        let end = scan_run(text, at + 1, in_project);
        Some(String::from_str(text.substring_char(at + 1, end)))
    } else {
        None
    }
}

/// The order of texts: character by character, by the characters' numbers;
/// a text comes before every text that it begins.
pub open spec fn text_lt(a: Seq<char>, b: Seq<char>) -> bool
    decreases a.len(),
{
    if b.len() == 0 {
        false
    } else if a.len() == 0 {
        true
    } else if a[0] != b[0] {
        (a[0] as u32) < (b[0] as u32)
    } else {
        text_lt(a.subrange(1, a.len() as int), b.subrange(1, b.len() as int))
    }
}

/// No text comes before itself.
pub proof fn lemma_text_irreflexive(a: Seq<char>)
    ensures
        !text_lt(a, a),
    decreases a.len(),
{
    if a.len() > 0 {
        lemma_text_irreflexive(a.subrange(1, a.len() as int));
    }
}

/// Of two different texts exactly one comes before the other, and none
/// comes before itself.
pub proof fn lemma_text_order(a: Seq<char>, b: Seq<char>)
    ensures
        a == b || text_lt(a, b) || text_lt(b, a),
        !(text_lt(a, b) && text_lt(b, a)),
        !text_lt(a, a),
    decreases a.len(),
{
    lemma_text_irreflexive(a);
    if a.len() > 0 && b.len() > 0 {
        let ra = a.subrange(1, a.len() as int);
        let rb = b.subrange(1, b.len() as int);
        lemma_text_order(ra, rb);
        if a[0] != b[0] {
            char_u32_cast(a[0], a[0] as u32);
            char_u32_cast(b[0], b[0] as u32);
        }
        if a[0] == b[0] && ra == rb {
            assert forall|i: int| 0 <= i < a.len() implies a[i] == b[i] by {
                if i > 0 {
                    assert(ra[i - 1] == a[i]);
                    assert(rb[i - 1] == b[i]);
                }
            }
            assert(a.len() == ra.len() + 1);
            assert(b.len() == rb.len() + 1);
            assert(a =~= b);
        }
    } else if a.len() == 0 && b.len() == 0 {
        assert(a =~= b);
    }
}

/// The order of texts carries over: what comes before a text comes before
/// everything that the text comes before.
pub proof fn lemma_text_transitive(a: Seq<char>, b: Seq<char>, c: Seq<char>)
    requires
        text_lt(a, b),
        text_lt(b, c),
    ensures
        text_lt(a, c),
    decreases a.len(),
{
    if a.len() > 0 {
        if a[0] == b[0] && b[0] == c[0] {
            lemma_text_transitive(
                a.subrange(1, a.len() as int),
                b.subrange(1, b.len() as int),
                c.subrange(1, c.len() as int),
            );
        }
    }
}

/// Whether one text comes before another.
pub fn text_less(a: &str, b: &str) -> (less: bool)
    ensures
        less == text_lt(a@, b@),
{
    let n = a.unicode_len();
    let m = b.unicode_len();
    let mut k: usize = 0;
    assert(a@.subrange(0, n as int) =~= a@);
    assert(b@.subrange(0, m as int) =~= b@);
    loop
        invariant
            n == a@.len(),
            m == b@.len(),
            k <= n,
            k <= m,
            text_lt(a@, b@) == text_lt(a@.subrange(k as int, n as int), b@.subrange(k as int, m as int)),
        decreases n - k,
    {
        if k >= m {
            return false;
        }
        if k >= n {
            return true;
        }
        let ca = a.get_char(k);
        let cb = b.get_char(k);
        proof {
            let ra = a@.subrange(k as int, n as int);
            let rb = b@.subrange(k as int, m as int);
            assert(ra[0] == ca);
            assert(rb[0] == cb);
            assert(ra.subrange(1, ra.len() as int) =~= a@.subrange(k + 1, n as int));
            assert(rb.subrange(1, rb.len() as int) =~= b@.subrange(k + 1, m as int));
        }
        if ca != cb {
            return (ca as u32) < (cb as u32);
        }
        k += 1;
    }
}

/// How many leading texts of `sorted` come before `x`.
pub open spec fn rank(sorted: Seq<Seq<char>>, x: Seq<char>) -> nat
    decreases sorted.len(),
{
    if sorted.len() > 0 && text_lt(sorted[0], x) {
        1 + rank(sorted.subrange(1, sorted.len() as int), x)
    } else {
        0
    }
}

/// `sorted` with `x` in its place, unless `x` stands there already.
pub open spec fn inserted(sorted: Seq<Seq<char>>, x: Seq<char>) -> Seq<Seq<char>> {
    let place = rank(sorted, x) as int;
    if place < sorted.len() && sorted[place] == x {
        sorted
    } else {
        sorted.insert(place, x)
    }
}

/// Each text comes before the next: the texts are in order and no two are
/// the same.
pub open spec fn ascending(texts: Seq<Seq<char>>) -> bool {
    forall|i: int| 0 <= i < texts.len() - 1 ==> text_lt(#[trigger] texts[i], texts[i + 1])
}

/// The rank is a place in the sequence; every text before it comes before
/// `x`, and the text at it does not.
pub proof fn lemma_rank(sorted: Seq<Seq<char>>, x: Seq<char>)
    ensures
        rank(sorted, x) <= sorted.len(),
        forall|i: int| 0 <= i < rank(sorted, x) ==> text_lt(#[trigger] sorted[i], x),
        rank(sorted, x) < sorted.len() ==> !text_lt(sorted[rank(sorted, x) as int], x),
    decreases sorted.len(),
{
    if sorted.len() > 0 && text_lt(sorted[0], x) {
        let rest = sorted.subrange(1, sorted.len() as int);
        lemma_rank(rest, x);
        assert forall|i: int| 0 <= i < rank(sorted, x) implies text_lt(#[trigger] sorted[i], x) by {
            if i > 0 {
                assert(rest[i - 1] == sorted[i]);
            }
        }
        if rank(sorted, x) < sorted.len() {
            assert(rest[rank(rest, x) as int] == sorted[rank(sorted, x) as int]);
        }
    }
}

/// Putting a text in its place keeps the texts in order and different from
/// each other.
pub proof fn lemma_inserted_ascending(sorted: Seq<Seq<char>>, x: Seq<char>)
    requires
        ascending(sorted),
    ensures
        ascending(inserted(sorted, x)),
{
    lemma_rank(sorted, x);
    let place = rank(sorted, x) as int;
    let after = inserted(sorted, x);
    if !(place < sorted.len() && sorted[place] == x) {
        assert forall|i: int| 0 <= i < after.len() - 1 implies text_lt(
            #[trigger] after[i],
            after[i + 1],
        ) by {
            if i + 1 < place {
                assert(after[i] == sorted[i] && after[i + 1] == sorted[i + 1]);
            } else if i + 1 == place {
                assert(after[i] == sorted[i]);
            } else if i == place {
                assert(after[i + 1] == sorted[place]);
                lemma_text_order(sorted[place], x);
            } else {
                assert(after[i] == sorted[i - 1] && after[i + 1] == sorted[i]);
            }
        }
    }
}

/// The tags of a task from the parts that follow its marks `#`: each part
/// without the white space around it and in lower case; empty ones left
/// out; in order and each once.
pub open spec fn tag_set(captures: Seq<Seq<char>>) -> Seq<Seq<char>>
    decreases captures.len(),
{
    if captures.len() == 0 {
        Seq::empty()
    } else {
        let earlier = tag_set(captures.drop_last());
        let tag = spec_lowercase(trimmed(captures.last()));
        if tag.len() > 0 {
            inserted(earlier, tag)
        } else {
            earlier
        }
    }
}

/// The tags are in order, and no tag occurs twice.
pub proof fn lemma_tag_set_ascending(captures: Seq<Seq<char>>)
    ensures
        ascending(tag_set(captures)),
    decreases captures.len(),
{
    if captures.len() > 0 {
        lemma_tag_set_ascending(captures.drop_last());
        lemma_inserted_ascending(
            tag_set(captures.drop_last()),
            spec_lowercase(trimmed(captures.last())),
        );
    }
}

/// Texts joined by a separator.
pub open spec fn joined(parts: Seq<Seq<char>>, separator: Seq<char>) -> Seq<char>
    decreases parts.len(),
{
    if parts.len() == 0 {
        Seq::empty()
    } else if parts.len() == 1 {
        parts[0]
    } else {
        joined(parts.drop_last(), separator) + separator + parts.last()
    }
}

/// Puts a tag in its place among the tags, unless it stands there already.
pub fn insert_tag(tags: &mut Vec<String>, tag: String)
    ensures
        final(tags).deep_view() == inserted(old(tags).deep_view(), tag@),
{
    let n = tags.len();
    let mut place: usize = 0;
    let ghost all = tags.deep_view();
    assert(all.subrange(0, n as int) =~= all);
    while place < n && text_less(tags[place].as_str(), tag.as_str())
        invariant
            n == tags@.len(),
            all == tags.deep_view(),
            all.len() == n,
            place <= n,
            rank(all, tag@) == place + rank(all.subrange(place as int, n as int), tag@),
        decreases n - place,
    {
        proof {
            let rest = all.subrange(place as int, n as int);
            assert(rest[0] == all[place as int]);
            assert(all[place as int] == tags@[place as int]@);
            assert(rest.subrange(1, rest.len() as int) =~= all.subrange(place + 1, n as int));
        }
        place += 1;
    }
    proof {
        let rest = all.subrange(place as int, n as int);
        if place < n {
            assert(rest[0] == all[place as int]);
            assert(all[place as int] == tags@[place as int]@);
        }
        assert(rank(all, tag@) == place);
    }
    if place < n && same_text(tags[place].as_str(), tag.as_str()) {
        assert(all[place as int] == tags@[place as int]@);
    } else {
        if place < n {
            assert(all[place as int] == tags@[place as int]@);
        }
        tags.insert(place, tag);
        assert(tags.deep_view() =~= all.insert(place as int, tag@));
    }
}

/// Joins texts by a separator.
pub fn join(parts: &Vec<String>, separator: &str) -> (text: String)
    ensures
        text@ == joined(parts.deep_view(), separator@),
{
    let mut text = String::new();
    let n = parts.len();
    let mut i: usize = 0;
    let ghost all = parts.deep_view();
    while i < n
        invariant
            n == parts@.len(),
            all == parts.deep_view(),
            all.len() == n,
            i <= n,
            text@ == joined(all.take(i as int), separator@),
        decreases n - i,
    {
        proof {
            let next = all.take(i + 1);
            assert(next.drop_last() =~= all.take(i as int));
            assert(next.last() == parts@[i as int]@);
            if i == 0 {
                assert(next[0] == parts@[0]@);
                assert(Seq::<char>::empty() + parts@[0]@ =~= parts@[0]@);
            }
        }
        if i > 0 {
            text.append(separator);
        }
        text.append(parts[i].as_str());
        i += 1;
    }
    assert(all.take(n as int) =~= all);
    text
}

/// The tags of what was typed: the parts that follow the marks `#`, as
/// `tag_set` arranges them, joined by ` #`.
pub open spec fn spec_tags(text: Seq<char>) -> Seq<char> {
    joined(tag_set(tag_captures(text, 0)), " #"@)
}

/// Reads the tags of what was typed.
pub fn tags_of(text: &str) -> (tags: String)
    ensures
        tags@ == spec_tags(text@),
{
    let n = text.unicode_len();
    let mut found: Vec<String> = Vec::new();
    let mut from: usize = 0;
    let ghost mut done: Seq<Seq<char>> = Seq::empty();
    assert(found.deep_view() =~= tag_set(done));
    loop
        invariant
            n == text@.len(),
            from <= n,
            tag_captures(text@, 0) == done + tag_captures(text@, from as int),
            found.deep_view() == tag_set(done),
        ensures
            found.deep_view() == tag_set(tag_captures(text@, 0)),
        decreases n - from,
    {
        let at = find_match(text, '#', from, false);
        if at >= n {
            assert(tag_captures(text@, from as int) =~= Seq::<Seq<char>>::empty());
            assert(done + Seq::<Seq<char>>::empty() =~= done);
            break;
        }
        proof {
            lemma_match_start_bound(text@, '#', from as int, false);
        }
        let end = scan_run(text, at + 1, false);
        let part = text.substring_char(at + 1, end);
        let tag = lowercase(trim(part).as_str());
        proof {
            let next = done.push(part@);
            assert(next.drop_last() =~= done);
            assert(next.last() == part@);
            assert(done + (seq![part@] + tag_captures(text@, end as int)) =~= next + tag_captures(
                text@,
                end as int,
            ));
            done = next;
        }
        if tag.as_str().unicode_len() > 0 {
            insert_tag(&mut found, tag);
        }
        from = end;
    }
    join(&found, " #")
}

/// What was typed, taken apart.
///
/// The name is what stands before the first mark; the project is what
/// follows the first `@`, up to the next `#` or `$`; the tags are what
/// follows each `#`, in lower case, in order and each once; the rate is
/// what follows the first `$`, or `0.0` where no rate is written. Every
/// part loses the white space around it.
pub open spec fn split(text: Seq<char>) -> (Seq<char>, Seq<char>, Seq<char>, Seq<char>) {
    (
        trimmed(text.take(run_end(text, 0, false))),
        match captured(text, '@', true) {
            Some(part) => trimmed(part),
            None => Seq::empty(),
        },
        spec_tags(text),
        match captured(text, '$', false) {
            Some(part) => trimmed(part),
            None => "0.0"@,
        },
    )
}

/// Takes apart what was typed into the timer: name, project, tags and the
/// rate as it is written.
pub fn split_task_input(input: &str) -> (parts: TaskParts)
    ensures
        (parts.name@, parts.project@, parts.tags@, parts.rate_text@) == split(input@),
{
    let name_end = scan_run(input, 0, false);
    assert(input@.subrange(0, name_end as int) =~= input@.take(name_end as int));
    let name = trim(input.substring_char(0, name_end));
    let project = match capture(input, '@', true) {
        Some(part) => trim(part.as_str()),
        None => String::new(),
    };
    let tags = tags_of(input);
    let rate_text = match capture(input, '$', false) {
        Some(part) => trim(part.as_str()),
        None => String::from_str("0.0"),
    };
    TaskParts { name, project, tags, rate_text }
}

} // verus!
