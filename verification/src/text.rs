//! Text helpers over characters.

use vstd::prelude::*;
use vstd::string::*;

verus! {

/// A result, its message seen as characters.
pub open spec fn outcome<T>(result: Result<T, String>) -> Result<T, Seq<char>> {
    match result {
        Ok(value) => Ok(value),
        Err(message) => Err(message@),
    }
}

/// An optional text, seen as its characters.
pub open spec fn optional_text(text: Option<String>) -> Option<Seq<char>> {
    match text {
        Some(text) => Some(text@),
        None => None,
    }
}

/// A list of texts, seen as their characters.
pub open spec fn texts(list: Seq<String>) -> Seq<Seq<char>> {
    Seq::new(list.len(), |i: int| list[i]@)
}

/// Whether two texts hold the same characters.
pub fn same_text(a: &str, b: &str) -> (same: bool)
    ensures
        same == (a@ == b@),
{
    a.to_owned() == b.to_owned()
}

/// The characters of a text.
pub fn characters(text: &str) -> (list: Vec<char>)
    ensures
        list@ == text@,
{
    let mut list: Vec<char> = Vec::new();
    for c in it: text.chars()
        invariant
            it.seq() == text@,
            list@ == text@.take(it.index()),
    {
        list.push(c);
    }
    proof {
        assert(list@ =~= text@);
    }
    list
}

/// The characters with the Unicode property White_Space.
pub open spec fn is_space(c: char) -> bool {
    ||| '\u{9}' <= c <= '\u{d}'
    ||| c == '\u{20}'
    ||| c == '\u{85}'
    ||| c == '\u{a0}'
    ||| c == '\u{1680}'
    ||| '\u{2000}' <= c <= '\u{200a}'
    ||| c == '\u{2028}'
    ||| c == '\u{2029}'
    ||| c == '\u{202f}'
    ||| c == '\u{205f}'
    ||| c == '\u{3000}'
}

/// Whether a character is white space.
pub fn is_space_char(c: char) -> (space: bool)
    ensures
        space == is_space(c),
{
    ('\u{9}' <= c && c <= '\u{d}') || c == '\u{20}' || c == '\u{85}' || c == '\u{a0}' || c
        == '\u{1680}' || ('\u{2000}' <= c && c <= '\u{200a}') || c == '\u{2028}' || c == '\u{2029}'
        || c == '\u{202f}' || c == '\u{205f}' || c == '\u{3000}'
}

/// A text without its leading white space.
pub open spec fn without_leading_space(s: Seq<char>) -> Seq<char>
    decreases s.len(),
{
    if s.len() > 0 && is_space(s[0]) {
        without_leading_space(s.drop_first())
    } else {
        s
    }
}

/// A text without its trailing white space.
pub open spec fn without_trailing_space(s: Seq<char>) -> Seq<char>
    decreases s.len(),
{
    if s.len() > 0 && is_space(s.last()) {
        without_trailing_space(s.drop_last())
    } else {
        s
    }
}

/// A text without white space at either end.
pub open spec fn trimmed(s: Seq<char>) -> Seq<char> {
    without_trailing_space(without_leading_space(s))
}

/// Takes the white space off both ends of a text.
pub fn trim(text: &str) -> (rest: &str)
    ensures
        rest@ == trimmed(text@),
{
    let list = characters(text);
    let mut from: usize = 0;
    assert(list@.skip(0) =~= list@);
    while from < list.len() && is_space_char(list[from])
        invariant
            from <= list@.len(),
            without_leading_space(list@.skip(from as int)) == without_leading_space(list@),
        decreases list@.len() - from,
    {
        assert(list@.skip(from as int).drop_first() =~= list@.skip(from + 1));
        from = from + 1;
    }
    let mut to: usize = list.len();
    let ghost tail = list@.skip(from as int);
    assert(without_leading_space(list@) == tail);
    assert(list@.subrange(from as int, to as int) =~= tail);
    while to > from && is_space_char(list[to - 1])
        invariant
            from <= to <= list@.len(),
            without_trailing_space(list@.subrange(from as int, to as int))
                == without_trailing_space(tail),
        decreases to,
    {
        assert(list@.subrange(from as int, to as int).drop_last() =~= list@.subrange(
            from as int,
            to - 1,
        ));
        to = to - 1;
    }
    text.substring_char(from, to)
}

/// Trimming leaves no white space at the front.
proof fn lemma_leading_space_gone(s: Seq<char>)
    ensures
        without_leading_space(s).len() > 0 ==> !is_space(without_leading_space(s)[0]),
        without_leading_space(s).len() <= s.len(),
    decreases s.len(),
{
    if s.len() > 0 && is_space(s[0]) {
        lemma_leading_space_gone(s.drop_first());
    }
}

/// Trimming at the back keeps the front and leaves no white space there.
proof fn lemma_trailing_space_gone(s: Seq<char>)
    ensures
        without_trailing_space(s).len() > 0 ==> !is_space(without_trailing_space(s).last()),
        without_trailing_space(s).len() > 0 ==> without_trailing_space(s)[0] == s[0],
        without_trailing_space(s).is_prefix_of(s),
    decreases s.len(),
{
    if s.len() > 0 && is_space(s.last()) {
        lemma_trailing_space_gone(s.drop_last());
    }
}

/// A trimmed text has no white space at either end, and trimming it again
/// changes nothing.
pub proof fn trimming_twice_is_trimming_once(s: Seq<char>)
    ensures
        trimmed(s).len() > 0 ==> !is_space(trimmed(s)[0]) && !is_space(trimmed(s).last()),
        trimmed(trimmed(s)) == trimmed(s),
{
    lemma_leading_space_gone(s);
    lemma_trailing_space_gone(without_leading_space(s));
}

/// Whether `part` stands in `s` from position `at` on.
pub open spec fn stands_at(s: Seq<char>, part: Seq<char>, at: int) -> bool {
    0 <= at && at + part.len() <= s.len() && s.subrange(at, at + part.len()) == part
}

/// Whether `part` stands anywhere in `s`.
pub open spec fn contains_text(s: Seq<char>, part: Seq<char>) -> bool {
    exists|at: int| stands_at(s, part, at)
}

/// Whether a list of characters holds `part` from position `at` on.
fn holds_at(list: &Vec<char>, part: &Vec<char>, at: usize) -> (holds: bool)
    requires
        at + part@.len() <= list@.len(),
    ensures
        holds == stands_at(list@, part@, at as int),
{
    let length: usize = list.len();
    let mut i: usize = 0;
    while i < part.len()
        invariant
            i <= part@.len(),
            length == list@.len(),
            at + part@.len() <= length,
            forall|j: int| 0 <= j < i ==> list@[at + j] == part@[j],
        decreases part@.len() - i,
    {
        if list[at + i] != part[i] {
            assert(list@.subrange(at as int, at + part@.len())[i as int] != part@[i as int]);
            return false;
        }
        i = i + 1;
    }
    assert(list@.subrange(at as int, at + part@.len()) =~= part@);
    true
}

/// Whether `part` stands anywhere in a text.
pub fn contains(text: &str, part: &str) -> (found: bool)
    ensures
        found == contains_text(text@, part@),
{
    let list = characters(text);
    let wanted = characters(part);
    if wanted.len() > list.len() {
        return false;
    }
    let last: usize = list.len() - wanted.len();
    let mut at: usize = 0;
    loop
        invariant
            list@ == text@,
            wanted@ == part@,
            last + wanted@.len() == list@.len(),
            at <= last,
            forall|k: int| 0 <= k < at ==> !stands_at(list@, wanted@, k),
        decreases last - at,
    {
        if holds_at(&list, &wanted, at) {
            return true;
        }
        if at == last {
            return false;
        }
        at = at + 1;
    }
}

/// Whether a text begins with `part`.
pub fn starts_with(text: &str, part: &str) -> (starts: bool)
    ensures
        starts == part@.is_prefix_of(text@),
{
    let list = characters(text);
    let wanted = characters(part);
    if wanted.len() > list.len() {
        return false;
    }
    holds_at(&list, &wanted, 0)
}

/// An ASCII capital as its small letter; any other character as it is.
pub open spec fn ascii_lower(c: char) -> char {
    if 'A' <= c <= 'Z' {
        (c as u32 + 32) as char
    } else {
        c
    }
}

/// A text with its ASCII capitals as small letters.
pub open spec fn ascii_lowered(s: Seq<char>) -> Seq<char> {
    Seq::new(s.len(), |i: int| ascii_lower(s[i]))
}

/// An ASCII capital as its small letter; any other character as it is.
fn ascii_lower_char(c: char) -> (lower: char)
    ensures
        lower == ascii_lower(c),
{
    if 'A' <= c && c <= 'Z' {
        ((c as u8) + 32) as char
    } else {
        c
    }
}

/// Whether two texts differ at most in the case of their ASCII letters.
pub fn same_text_ignoring_ascii_case(a: &str, b: &str) -> (same: bool)
    ensures
        same == (ascii_lowered(a@) == ascii_lowered(b@)),
{
    let x = characters(a);
    let y = characters(b);
    if x.len() != y.len() {
        assert(ascii_lowered(a@).len() != ascii_lowered(b@).len());
        return false;
    }
    let mut i: usize = 0;
    while i < x.len()
        invariant
            i <= x@.len(),
            x@.len() == y@.len(),
            x@ == a@,
            y@ == b@,
            forall|j: int| 0 <= j < i ==> ascii_lower(x@[j]) == ascii_lower(y@[j]),
        decreases x@.len() - i,
    {
        if ascii_lower_char(x[i]) != ascii_lower_char(y[i]) {
            assert(ascii_lowered(a@)[i as int] != ascii_lowered(b@)[i as int]);
            return false;
        }
        i = i + 1;
    }
    assert(ascii_lowered(a@) =~= ascii_lowered(b@));
    true
}

/// Whether two texts have the same characters, but that a capital of the
/// letters from A to Z may stand for its small letter and the other way round.
pub open spec fn differ_in_case_only(a: Seq<char>, b: Seq<char>) -> bool {
    a.len() == b.len() && forall|i: int|
        0 <= i < a.len() ==> {
            ||| #[trigger] a[i] == b[i]
            ||| 65 <= (a[i] as u32) <= 90 && b[i] as u32 == a[i] as u32 + 32
            ||| 65 <= (b[i] as u32) <= 90 && a[i] as u32 == b[i] as u32 + 32
        }
}

/// The small letter of a capital is 32 further; nothing else is changed.
proof fn lemma_ascii_lower(c: char)
    ensures
        65 <= (c as u32) <= 90 ==> ascii_lower(c) as u32 == c as u32 + 32,
        !(65 <= (c as u32) <= 90) ==> ascii_lower(c) == c,
{
}

/// Two texts have the same small letters exactly where they differ in the case
/// of their letters from A to Z at most.
pub proof fn lowered_texts_differ_in_case_only(a: Seq<char>, b: Seq<char>)
    ensures
        ascii_lowered(a) == ascii_lowered(b) <==> differ_in_case_only(a, b),
{
    if ascii_lowered(a) == ascii_lowered(b) {
        assert(ascii_lowered(a).len() == ascii_lowered(b).len());
        assert forall|i: int| 0 <= i < a.len() implies {
            ||| #[trigger] a[i] == b[i]
            ||| 65 <= (a[i] as u32) <= 90 && b[i] as u32 == a[i] as u32 + 32
            ||| 65 <= (b[i] as u32) <= 90 && a[i] as u32 == b[i] as u32 + 32
        } by {
            assert(ascii_lowered(a)[i] == ascii_lowered(b)[i]);
            lemma_ascii_lower(a[i]);
            lemma_ascii_lower(b[i]);
        }
    }
    if differ_in_case_only(a, b) {
        assert forall|i: int| 0 <= i < a.len() implies #[trigger] ascii_lowered(a)[i]
            == ascii_lowered(b)[i] by {
            assert(a[i] == a[i]);
            lemma_ascii_lower(a[i]);
            lemma_ascii_lower(b[i]);
        }
        assert(ascii_lowered(a) =~= ascii_lowered(b));
    }
}

/// What follows the last slash or backslash of a path; all of it where there
/// is none.
pub open spec fn last_segment(path: Seq<char>) -> Seq<char>
    decreases path.len(),
{
    if path.len() == 0 || path.last() == '/' || path.last() == '\\' {
        Seq::empty()
    } else {
        last_segment(path.drop_last()).push(path.last())
    }
}

/// The part of a path after its last slash or backslash.
pub fn file_name(path: &str) -> (name: &str)
    ensures
        name@ == last_segment(path@),
{
    let list = characters(path);
    let mut from: usize = list.len();
    assert(list@.take(list@.len() as int) =~= list@);
    assert(last_segment(list@) =~= last_segment(list@.take(from as int)) + list@.skip(from as int));
    while from > 0 && list[from - 1] != '/' && list[from - 1] != '\\'
        invariant
            from <= list@.len(),
            last_segment(list@) == last_segment(list@.take(from as int)) + list@.skip(from as int),
        decreases from,
    {
        assert(list@.take(from as int).drop_last() =~= list@.take(from - 1));
        assert(last_segment(list@.take(from as int)) + list@.skip(from as int) =~= last_segment(
            list@.take(from - 1),
        ) + list@.skip(from - 1));
        from = from - 1;
    }
    assert(last_segment(list@.take(from as int)) =~= Seq::<char>::empty());
    assert(list@.skip(from as int) =~= list@.subrange(from as int, list@.len() as int));
    path.substring_char(from, list.len())
}

/// Trimming at the front takes off white space only.
proof fn lemma_leading_space(s: Seq<char>)
    ensures
        ({
            let rest = without_leading_space(s);
            let taken = s.len() - rest.len();
            &&& 0 <= taken <= s.len()
            &&& rest == s.skip(taken)
            &&& forall|i: int| 0 <= i < taken ==> is_space(#[trigger] s[i])
        }),
    decreases s.len(),
{
    if s.len() > 0 && is_space(s[0]) {
        let tail = s.drop_first();
        lemma_leading_space(tail);
        let taken = s.len() - without_leading_space(s).len();
        assert(s.skip(taken) =~= tail.skip(taken - 1));
        assert forall|i: int| 0 <= i < taken implies is_space(#[trigger] s[i]) by {
            if i > 0 {
                assert(tail[i - 1] == s[i]);
            }
        }
    } else {
        assert(s.skip(0) =~= s);
    }
}

/// Trimming at the back takes off white space only.
proof fn lemma_trailing_space(s: Seq<char>)
    ensures
        ({
            let rest = without_trailing_space(s);
            &&& rest.len() <= s.len()
            &&& rest == s.take(rest.len() as int)
            &&& forall|i: int| rest.len() <= i < s.len() ==> is_space(#[trigger] s[i])
        }),
    decreases s.len(),
{
    if s.len() > 0 && is_space(s.last()) {
        let front = s.drop_last();
        lemma_trailing_space(front);
        let rest = without_trailing_space(s);
        assert(s.take(rest.len() as int) =~= front.take(rest.len() as int));
        assert forall|i: int| rest.len() <= i < s.len() implies is_space(#[trigger] s[i]) by {
            if i < s.len() - 1 {
                assert(front[i] == s[i]);
            }
        }
    } else {
        assert(s.take(s.len() as int) =~= s);
    }
}

/// Trimming takes white space off the two ends and nothing else: a text without
/// white space at its ends comes back from between any white space, and a text
/// of white space alone is trimmed to nothing.
pub proof fn trimming_takes_off_white_space_only(
    before: Seq<char>,
    text: Seq<char>,
    after: Seq<char>,
)
    requires
        forall|i: int| 0 <= i < before.len() ==> is_space(#[trigger] before[i]),
        forall|i: int| 0 <= i < after.len() ==> is_space(#[trigger] after[i]),
        text.len() > 0 ==> !is_space(text[0]) && !is_space(text.last()),
    ensures
        trimmed(before + text + after) == text,
{
    let whole = before + text + after;
    lemma_leading_space(whole);
    lemma_leading_space_gone(whole);
    let rest = without_leading_space(whole);
    let taken = whole.len() - rest.len();
    lemma_trailing_space(rest);
    lemma_trailing_space_gone(rest);
    let kept = without_trailing_space(rest);
    if text.len() > 0 {
        assert(whole[before.len() as int] == text[0]);
        assert(taken <= before.len());
        if taken < before.len() {
            assert(rest[0] == whole[taken]);
            assert(whole[taken] == before[taken]);
            assert(false);
        }
        assert(rest =~= text + after);
        let end = text.len() - 1;
        assert(rest[end] == text.last());
        assert(kept.len() > end);
        if kept.len() > text.len() {
            assert(kept.last() == rest[kept.len() - 1]);
            assert(rest[kept.len() - 1] == after[kept.len() - 1 - text.len()]);
            assert(false);
        }
        assert(kept =~= text);
    } else {
        if rest.len() > 0 {
            if taken < before.len() {
                assert(whole[taken] == before[taken]);
            } else {
                assert(whole[taken] == after[taken - before.len()]);
            }
            assert(rest[0] == whole[taken]);
            assert(false);
        }
        assert(kept =~= text);
    }
}

/// White space is the tab and the four characters after it, the blank, the next
/// line, the blank that does not break, and the spaces of other scripts and of
/// typesetters; no letter, digit or sign of ASCII is.
pub proof fn white_space_is_that_of_unicode(c: char)
    ensures
        is_space(c) <==> {
            let n = c as u32;
            ||| 9 <= n <= 13
            ||| n == 32 || n == 133 || n == 160 || n == 5760
            ||| 8192 <= n <= 8202
            ||| n == 8232 || n == 8233 || n == 8239 || n == 8287 || n == 12288
        },
        33 <= (c as u32) <= 126 ==> !is_space(c),
{
}

/// The last segment of a path is what stands behind its last slash or
/// backslash, and the whole path where it has neither.
pub proof fn last_segments_follow_the_last_slash(directory: Seq<char>, name: Seq<char>)
    requires
        !name.contains('/'),
        !name.contains('\\'),
    ensures
        last_segment(name) == name,
        last_segment(directory.push('/') + name) == name,
        last_segment(directory.push('\\') + name) == name,
    decreases name.len(),
{
    if name.len() == 0 {
        assert(directory.push('/') + name =~= directory.push('/'));
        assert(directory.push('\\') + name =~= directory.push('\\'));
        assert(name =~= Seq::<char>::empty());
    } else {
        let front = name.drop_last();
        let last = name.last();
        assert(name.contains(name[name.len() - 1]));
        assert forall|c: char| front.contains(c) implies name.contains(c) by {
            let i = choose|i: int| 0 <= i < front.len() && front[i] == c;
            assert(name[i] == c);
        }
        last_segments_follow_the_last_slash(directory, front);
        assert((directory.push('/') + name).drop_last() =~= directory.push('/') + front);
        assert((directory.push('\\') + name).drop_last() =~= directory.push('\\') + front);
        assert(front.push(last) =~= name);
    }
}

/// A result, an optional text and a list are seen as what they are, but for
/// texts, which are seen as their characters.
pub proof fn texts_are_seen_as_their_characters<T>(
    value: T,
    text: String,
    list: Seq<String>,
    i: int,
)
    ensures
        outcome(Ok::<T, String>(value)) == Ok::<T, Seq<char>>(value),
        outcome(Err::<T, String>(text)) == Err::<T, Seq<char>>(text@),
        optional_text(Some(text)) == Some(text@),
        optional_text(None) is None,
        texts(list).len() == list.len(),
        0 <= i < list.len() ==> texts(list)[i] == list[i]@,
{
}

} // verus!
