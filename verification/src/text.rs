//! Text primitives: whitespace, trimming, lines, fields and substrings.
//!
//! A string is viewed as the sequence of its characters.

use vstd::prelude::*;

verus! {

/// The characters with the Unicode property `White_Space`.
pub open spec fn is_space(c: char) -> bool {
    ||| '\u{9}' <= c <= '\u{d}'
    ||| c == '\u{20}'
    ||| c == '\u{85}'
    ||| c == '\u{a0}'
    ||| c == '\u{1680}'
    ||| '\u{2000}' <= c <= '\u{200a}'
    ||| c == '\u{2028}'
    ||| c == '\u{2029}'
    ||| c == '\u{202f}'
    ||| c == '\u{205f}'
    ||| c == '\u{3000}'
}

/// `s` without its leading whitespace.
pub open spec fn trim_front(s: Seq<char>) -> Seq<char>
    decreases s.len(),
{
    if s.len() > 0 && is_space(s[0]) {
        trim_front(s.skip(1))
    } else {
        s
    }
}

/// `s` without its trailing whitespace.
pub open spec fn trim_back(s: Seq<char>) -> Seq<char>
    decreases s.len(),
{
    if s.len() > 0 && is_space(s.last()) {
        trim_back(s.drop_last())
    } else {
        s
    }
}

/// `s` without the whitespace at either end.
pub open spec fn trim(s: Seq<char>) -> Seq<char> {
    trim_back(trim_front(s))
}

/// The position of the first `c` in `s`, or the length of `s` where there is none.
pub open spec fn find(s: Seq<char>, c: char) -> int
    decreases s.len(),
{
    if s.len() == 0 || s[0] == c {
        0
    } else {
        1 + find(s.skip(1), c)
    }
}

/// The part of `s` before the first `c`: all of `s` where there is none.
pub open spec fn before(s: Seq<char>, c: char) -> Seq<char> {
    s.take(find(s, c))
}

/// The part of `s` after the first `c`.
pub open spec fn after(s: Seq<char>, c: char) -> Seq<char>
    recommends
        s.contains(c),
{
    s.skip(find(s, c) + 1)
}

/// The parts of `s` between the separators `c`.
pub open spec fn fields(s: Seq<char>, c: char) -> Seq<Seq<char>>
    decreases s.len(),
{
    if s.contains(c) {
        proof {
            lemma_find(s, c);
        }
        seq![before(s, c)] + fields(after(s, c), c)
    } else {
        seq![s]
    }
}

/// `line` without the carriage return that belongs to its line ending.
pub open spec fn strip_return(line: Seq<char>) -> Seq<char> {
    if line.len() > 0 && line.last() == '\r' {
        line.drop_last()
    } else {
        line
    }
}

/// The lines of `s`. A line ends with a line feed, or with a carriage return and a
/// line feed; the ending of the last line is optional.
pub open spec fn lines(s: Seq<char>) -> Seq<Seq<char>>
    decreases s.len(),
{
    if s.contains('\n') {
        proof {
            lemma_find(s, '\n');
        }
        seq![strip_return(before(s, '\n'))] + lines(after(s, '\n'))
    } else if s.len() > 0 {
        seq![s]
    } else {
        seq![]
    }
}

/// Whether `part` occurs in `s` at position `at`.
pub open spec fn occurs_at(s: Seq<char>, part: Seq<char>, at: int) -> bool {
    0 <= at && at + part.len() <= s.len() && s.subrange(at, at + part.len()) == part
}

/// Whether `part` occurs in `s`.
pub open spec fn has_part(s: Seq<char>, part: Seq<char>) -> bool {
    exists|at: int| occurs_at(s, part, at)
}

/// The views of a list of string slices.
pub open spec fn views(parts: Seq<&str>) -> Seq<Seq<char>> {
    Seq::new(parts.len(), |i: int| parts[i]@)
}

/// `find` is where `c` first stands, or the length of `s`.
pub proof fn lemma_find(s: Seq<char>, c: char)
    ensures
        0 <= find(s, c) <= s.len(),
        forall|i: int| 0 <= i < find(s, c) ==> s[i] != c,
        find(s, c) < s.len() ==> s[find(s, c)] == c,
        find(s, c) < s.len() <==> s.contains(c),
    decreases s.len(),
{
    if s.len() > 0 && s[0] != c {
        let rest = s.skip(1);
        lemma_find(rest, c);
        assert forall|i: int| 0 <= i < find(s, c) implies s[i] != c by {
            if i > 0 {
                assert(s[i] == rest[i - 1]);
            }
        }
        if find(rest, c) < rest.len() {
            assert(s[find(s, c)] == rest[find(rest, c)]);
        }
    }
}

/// The first position at which `c` stands is what `find` gives.
pub proof fn lemma_find_unique(s: Seq<char>, c: char, k: int)
    requires
        0 <= k <= s.len(),
        forall|i: int| 0 <= i < k ==> s[i] != c,
        k < s.len() ==> s[k] == c,
    ensures
        find(s, c) == k,
{
    lemma_find(s, c);
}

/// A separator after a part without one makes that part the first field.
pub proof fn lemma_fields_prepend(part: Seq<char>, c: char, rest: Seq<char>)
    requires
        !part.contains(c),
    ensures
        fields(part + seq![c] + rest, c) == seq![part] + fields(rest, c),
{
    let s = part + seq![c] + rest;
    assert(s[part.len() as int] == c);
    assert forall|i: int| 0 <= i < part.len() implies s[i] != c by {
        assert(s[i] == part[i]);
    }
    lemma_find_unique(s, c, part.len() as int);
    assert(before(s, c) =~= part);
    assert(after(s, c) =~= rest);
}

/// The fields joined by separators: undoes `fields`.
pub open spec fn join(parts: Seq<Seq<char>>, c: char) -> Seq<char>
    decreases parts.len(),
{
    if parts.len() == 0 {
        seq![]
    } else if parts.len() == 1 {
        parts[0]
    } else {
        parts[0] + seq![c] + join(parts.skip(1), c)
    }
}

/// Joining the fields of a text with the separator gives the text back, and there is at
/// least one field.
pub proof fn fields_join(s: Seq<char>, c: char)
    ensures
        fields(s, c).len() >= 1,
        join(fields(s, c), c) == s,
    decreases s.len(),
{
    if s.contains(c) {
        lemma_find(s, c);
        fields_join(after(s, c), c);
        let parts = fields(s, c);
        assert(parts.skip(1) =~= fields(after(s, c), c));
        assert(before(s, c) + seq![c] + after(s, c) =~= s);
    }
}

/// Whether `c` is whitespace.
pub fn char_is_space(c: char) -> (found: bool)
    ensures
        found == is_space(c),
{
    ('\u{9}' <= c && c <= '\u{d}') || c == '\u{20}' || c == '\u{85}' || c == '\u{a0}' || c
        == '\u{1680}' || ('\u{2000}' <= c && c <= '\u{200a}') || c == '\u{2028}' || c == '\u{2029}'
        || c == '\u{202f}' || c == '\u{205f}' || c == '\u{3000}'
}

/// The characters of `s`.
pub fn chars_of(s: &str) -> (chars: Vec<char>)
    ensures
        chars@ == s@,
{
    let mut chars: Vec<char> = Vec::new();
    for c in it: s.chars()
        invariant
            chars@ == it.seq().take(it.index()),
            it.seq() == s@,
    {
        chars.push(c);
    }
    chars
}

/// Whether two strings hold the same characters.
pub fn same_text(a: &str, b: &str) -> (same: bool)
    ensures
        same == (a@ == b@),
{
    let left = chars_of(a);
    let right = chars_of(b);
    if left.len() != right.len() {
        return false;
    }
    for i in 0..left.len()
        invariant
            left@ == a@,
            right@ == b@,
            left.len() == right.len(),
            forall|j: int| 0 <= j < i ==> a@[j] == b@[j],
    {
        if left[i] != right[i] {
            return false;
        }
    }
    assert(a@ =~= b@);
    true
}

proof fn lemma_trim_front(s: Seq<char>, k: int)
    requires
        0 <= k <= s.len(),
        forall|i: int| 0 <= i < k ==> is_space(s[i]),
        k < s.len() ==> !is_space(s[k]),
    ensures
        trim_front(s) == s.skip(k),
    decreases k,
{
    if k > 0 {
        let rest = s.skip(1);
        assert forall|i: int| 0 <= i < k - 1 implies is_space(rest[i]) by {
            assert(rest[i] == s[i + 1]);
        }
        lemma_trim_front(rest, k - 1);
        assert(rest.skip(k - 1) =~= s.skip(k));
    } else {
        assert(s.skip(0) =~= s);
    }
}

proof fn lemma_trim_back(s: Seq<char>, k: int)
    requires
        0 <= k <= s.len(),
        forall|i: int| k <= i < s.len() ==> is_space(s[i]),
        k > 0 ==> !is_space(s[k - 1]),
    ensures
        trim_back(s) == s.take(k),
    decreases s.len() - k,
{
    if k < s.len() {
        lemma_trim_back(s.drop_last(), k);
        assert(s.drop_last().take(k) =~= s.take(k));
    } else {
        assert(s.take(k) =~= s);
    }
}

/// A trimmed text is a part of the text, and trimming it again changes nothing.
pub proof fn lemma_trim(s: Seq<char>)
    ensures
        forall|c: char| trim(s).contains(c) ==> s.contains(c),
        trim(trim(s)) == trim(s),
{
    lemma_trim_front_part(s);
    lemma_trim_back_part(trim_front(s));
}

proof fn lemma_trim_front_part(s: Seq<char>)
    ensures
        trim_front(s).len() > 0 ==> !is_space(trim_front(s)[0]),
        forall|c: char| trim_front(s).contains(c) ==> s.contains(c),
    decreases s.len(),
{
    if s.len() > 0 && is_space(s[0]) {
        let rest = s.skip(1);
        lemma_trim_front_part(rest);
        assert forall|c: char| rest.contains(c) implies s.contains(c) by {
            let i = choose|i: int| 0 <= i < rest.len() && rest[i] == c;
            assert(s[i + 1] == c);
        }
    }
}

proof fn lemma_trim_back_part(s: Seq<char>)
    ensures
        trim_back(s).len() > 0 ==> !is_space(trim_back(s).last()) && trim_back(s)[0] == s[0],
        forall|c: char| trim_back(s).contains(c) ==> s.contains(c),
    decreases s.len(),
{
    if s.len() > 0 && is_space(s.last()) {
        let rest = s.drop_last();
        lemma_trim_back_part(rest);
        assert forall|c: char| rest.contains(c) implies s.contains(c) by {
            let i = choose|i: int| 0 <= i < rest.len() && rest[i] == c;
            assert(s[i] == c);
        }
    }
}

/// `s` without the whitespace at either end.
pub fn trimmed(s: &str) -> (inner: &str)
    ensures
        inner@ == trim(s@),
{
    let chars = chars_of(s);
    let mut start: usize = 0;
    while start < chars.len() && char_is_space(chars[start])
        invariant
            chars@ == s@,
            start <= chars.len(),
            forall|i: int| 0 <= i < start ==> is_space(s@[i]),
        decreases chars.len() - start,
    {
        start = start + 1;
    }
    let mut end: usize = chars.len();
    while end > start && char_is_space(chars[end - 1])
        invariant
            chars@ == s@,
            start <= end <= chars.len(),
            forall|i: int| end <= i < s@.len() ==> is_space(s@[i]),
        decreases end,
    {
        end = end - 1;
    }
    proof {
        lemma_trim_front(s@, start as int);
        let rest = s@.skip(start as int);
        lemma_trim_back(rest, end - start);
        assert(rest.take(end - start) =~= s@.subrange(start as int, end as int));
    }
    s.substring_char(start, end)
}

/// The position of the first `c` in `chars` from `from` on, or the length of `chars`.
fn find_from(chars: &Vec<char>, c: char, from: usize) -> (at: usize)
    requires
        from <= chars.len(),
    ensures
        from <= at <= chars.len(),
        at - from == find(chars@.skip(from as int), c),
        at < chars.len() <==> chars@.skip(from as int).contains(c),
{
    let ghost rest = chars@.skip(from as int);
    let mut at: usize = from;
    while at < chars.len() && chars[at] != c
        invariant
            from <= at <= chars.len(),
            rest == chars@.skip(from as int),
            forall|i: int| 0 <= i < at - from ==> rest[i] != c,
        decreases chars.len() - at,
    {
        assert(rest[at - from] == chars@[at as int]);
        at = at + 1;
    }
    proof {
        if at < chars.len() {
            assert(rest[at - from] == chars@[at as int]);
        }
        lemma_find_unique(rest, c, at - from);
        lemma_find(rest, c);
    }
    at
}

/// The parts of `s` on either side of the first `c`.
pub fn split_once<'a>(s: &'a str, c: char) -> (parts: Option<(&'a str, &'a str)>)
    ensures
        parts is Some <==> s@.contains(c),
        parts matches Some((left, right)) ==> left@ == before(s@, c) && right@ == after(s@, c),
{
    let chars = chars_of(s);
    let at = find_from(&chars, c, 0);
    proof {
        assert(s@.skip(0) =~= s@);
        assert(s@.take(at as int) =~= s@.subrange(0, at as int));
    }
    if at < chars.len() {
        assert(s@.skip(at + 1) =~= s@.subrange(at + 1, s@.len() as int));
        Some((s.substring_char(0, at), s.substring_char(at + 1, chars.len())))
    } else {
        None
    }
}

/// The part of `s` before the first `c`: all of `s` where there is none.
pub fn part_before<'a>(s: &'a str, c: char) -> (part: &'a str)
    ensures
        part@ == before(s@, c),
{
    match split_once(s, c) {
        Some((left, _)) => left,
        None => {
            proof {
                lemma_find(s@, c);
                assert(s@.take(s@.len() as int) =~= s@);
            }
            s
        },
    }
}

/// The parts of `s` between the separators `c`.
pub fn split_fields<'a>(s: &'a str, c: char) -> (parts: Vec<&'a str>)
    ensures
        views(parts@) == fields(s@, c),
{
    let chars = chars_of(s);
    let mut parts: Vec<&'a str> = Vec::new();
    let mut from: usize = 0;
    let mut at: usize = find_from(&chars, c, 0);
    assert(views(parts@) + fields(s@.skip(0), c) =~= fields(s@, c)) by {
        assert(s@.skip(0) =~= s@);
    }
    while at < chars.len()
        invariant
            chars@ == s@,
            from <= at <= chars.len(),
            at - from == find(s@.skip(from as int), c),
            at < chars.len() <==> s@.skip(from as int).contains(c),
            views(parts@) + fields(s@.skip(from as int), c) == fields(s@, c),
        decreases chars.len() - from,
    {
        let ghost rest = s@.skip(from as int);
        let ghost done = parts@;
        parts.push(s.substring_char(from, at));
        proof {
            assert(before(rest, c) =~= s@.subrange(from as int, at as int));
            assert(after(rest, c) =~= s@.skip(at + 1));
            assert(views(parts@) =~= views(done).push(before(rest, c)));
            assert(views(parts@) + fields(s@.skip(at + 1), c) =~= views(done) + fields(rest, c));
        }
        from = at + 1;
        at = find_from(&chars, c, from);
    }
    let ghost done = parts@;
    parts.push(s.substring_char(from, chars.len()));
    proof {
        let rest = s@.skip(from as int);
        assert(rest =~= s@.subrange(from as int, s@.len() as int));
        assert(views(parts@) =~= views(done) + fields(rest, c));
    }
    parts
}

/// The lines of `s`.
pub fn split_lines<'a>(s: &'a str) -> (parts: Vec<&'a str>)
    ensures
        views(parts@) == lines(s@),
{
    let chars = chars_of(s);
    let mut parts: Vec<&'a str> = Vec::new();
    let mut from: usize = 0;
    let mut at: usize = find_from(&chars, '\n', 0);
    assert(views(parts@) + lines(s@.skip(0)) =~= lines(s@)) by {
        assert(s@.skip(0) =~= s@);
    }
    while at < chars.len()
        invariant
            chars@ == s@,
            from <= at <= chars.len(),
            at - from == find(s@.skip(from as int), '\n'),
            at < chars.len() <==> s@.skip(from as int).contains('\n'),
            views(parts@) + lines(s@.skip(from as int)) == lines(s@),
        decreases chars.len() - from,
    {
        let ghost rest = s@.skip(from as int);
        let ghost done = parts@;
        let end: usize = if at > from && chars[at - 1] == '\r' {
            at - 1
        } else {
            at
        };
        parts.push(s.substring_char(from, end));
        proof {
            assert(before(rest, '\n') =~= s@.subrange(from as int, at as int));
            assert(strip_return(before(rest, '\n')) =~= s@.subrange(from as int, end as int));
            assert(after(rest, '\n') =~= s@.skip(at + 1));
            assert(views(parts@) =~= views(done).push(strip_return(before(rest, '\n'))));
            assert(views(parts@) + lines(s@.skip(at + 1)) =~= views(done) + lines(rest));
        }
        from = at + 1;
        at = find_from(&chars, '\n', from);
    }
    let ghost done = parts@;
    let ghost rest = s@.skip(from as int);
    if from < chars.len() {
        parts.push(s.substring_char(from, chars.len()));
        assert(rest =~= s@.subrange(from as int, s@.len() as int));
    }
    assert(views(parts@) =~= views(done) + lines(rest));
    parts
}

/// Two texts, one behind the other.
pub fn text2(a: &str, b: &str) -> (whole: String)
    ensures
        whole@ == a@ + b@,
{
    a.to_owned().concat(b)
}

/// Three texts, one behind the other.
pub fn text3(a: &str, b: &str, c: &str) -> (whole: String)
    ensures
        whole@ == a@ + b@ + c@,
{
    text2(a, b).concat(c)
}

/// Five texts, one behind the other.
pub fn text5(a: &str, b: &str, c: &str, d: &str, e: &str) -> (whole: String)
    ensures
        whole@ == a@ + b@ + c@ + d@ + e@,
{
    text3(a, b, c).concat(d).concat(e)
}

/// Whether `part` occurs in `s`.
pub fn contains_text(s: &str, part: &str) -> (found: bool)
    ensures
        found == has_part(s@, part@),
{
    let chars = chars_of(s);
    let wanted = chars_of(part);
    let mut at: usize = 0;
    while wanted.len() <= chars.len() - at
        invariant
            chars@ == s@,
            wanted@ == part@,
            at <= chars.len(),
            forall|k: int| 0 <= k < at ==> !occurs_at(s@, part@, k),
        decreases chars.len() - at,
    {
        let mut matched: usize = 0;
        while matched < wanted.len() && chars[at + matched] == wanted[matched]
            invariant
                chars@ == s@,
                wanted@ == part@,
                at + wanted.len() <= chars.len(),
                matched <= wanted.len(),
                forall|k: int| 0 <= k < matched ==> s@[at + k] == part@[k],
            decreases wanted.len() - matched,
        {
            matched = matched + 1;
        }
        let ghost window = s@.subrange(at as int, at + part@.len());
        if matched == wanted.len() {
            assert(window =~= part@);
            assert(occurs_at(s@, part@, at as int));
            return true;
        }
        assert(window[matched as int] != part@[matched as int]);
        at = at + 1;
    }
    false
}

/// Trimming takes away the whitespace at the ends, all of it, and nothing else.
pub proof fn trim_leaves_the_core(front: Seq<char>, core: Seq<char>, back: Seq<char>)
    requires
        forall|i: int| 0 <= i < front.len() ==> is_space(#[trigger] front[i]),
        forall|i: int| 0 <= i < back.len() ==> is_space(#[trigger] back[i]),
        core.len() > 0 ==> !is_space(core[0]) && !is_space(core.last()),
    ensures
        trim(front + core + back) == core,
{
    let s = front + core + back;
    if core.len() > 0 {
        let k = front.len() as int;
        assert forall|i: int| 0 <= i < k implies is_space(s[i]) by {
            assert(s[i] == front[i]);
        }
        assert(s[k] == core[0]);
        lemma_trim_front(s, k);
        let rest = s.skip(k);
        assert(rest =~= core + back);
        let n = core.len() as int;
        assert forall|i: int| n <= i < rest.len() implies is_space(rest[i]) by {
            assert(rest[i] == back[i - n]);
        }
        assert(rest[n - 1] == core.last());
        lemma_trim_back(rest, n);
        assert(rest.take(n) =~= core);
    } else {
        assert forall|i: int| 0 <= i < s.len() implies is_space(s[i]) by {
            if i < front.len() {
                assert(s[i] == front[i]);
            } else {
                assert(s[i] == back[i - front.len()]);
            }
        }
        lemma_trim_front(s, s.len() as int);
        assert(s.skip(s.len() as int) =~= core);
        lemma_trim_back(core, 0);
        assert(core.take(0) =~= core);
    }
}

/// A text is split at the first separator, and at no other.
pub proof fn first_separator_splits(head: Seq<char>, c: char, tail: Seq<char>)
    requires
        !head.contains(c),
    ensures
        before(head + seq![c] + tail, c) == head,
        after(head + seq![c] + tail, c) == tail,
        before(head, c) == head,
{
    let s = head + seq![c] + tail;
    assert(s[head.len() as int] == c);
    assert forall|i: int| 0 <= i < head.len() implies s[i] != c && head[i] != c by {
        assert(s[i] == head[i]);
        assert(head.contains(head[i]));
    }
    lemma_find_unique(s, c, head.len() as int);
    lemma_find_unique(head, c, head.len() as int);
    assert(before(s, c) =~= head);
    assert(after(s, c) =~= tail);
    assert(before(head, c) =~= head);
}

/// Parts without a separator, joined by separators, are the fields of what they are joined to.
pub proof fn joined_parts_are_the_fields(parts: Seq<Seq<char>>, c: char)
    requires
        parts.len() > 0,
        forall|i: int| 0 <= i < parts.len() ==> !(#[trigger] parts[i]).contains(c),
    ensures
        fields(join(parts, c), c) == parts,
    decreases parts.len(),
{
    if parts.len() == 1 {
        assert(!parts[0].contains(c));
        assert(fields(join(parts, c), c) =~= parts);
    } else {
        let rest = parts.skip(1);
        assert forall|i: int| 0 <= i < rest.len() implies !(#[trigger] rest[i]).contains(c) by {
            assert(rest[i] == parts[i + 1]);
        }
        joined_parts_are_the_fields(rest, c);
        lemma_fields_prepend(parts[0], c, join(rest, c));
        assert(fields(join(parts, c), c) =~= parts);
    }
}

/// Lines end at line feeds, which may follow a carriage return; what follows the last line
/// feed is a line where it is not empty.
pub proof fn lines_end_at_line_feeds(head: Seq<char>, tail: Seq<char>)
    requires
        !head.contains('\n'),
    ensures
        lines(head + seq!['\n'] + tail) == seq![
            if head.len() > 0 && head.last() == '\r' {
                head.drop_last()
            } else {
                head
            },
        ] + lines(tail),
        lines(head) == if head.len() == 0 {
            seq![]
        } else {
            seq![head]
        },
{
    first_separator_splits(head, '\n', tail);
    let s = head + seq!['\n'] + tail;
    assert(s[head.len() as int] == '\n');
    assert(s.contains('\n'));
}

/// A part occurs exactly where it stands between two texts.
pub proof fn part_occurs_where_it_stands(front: Seq<char>, part: Seq<char>, back: Seq<char>)
    ensures
        has_part(front + part + back, part),
        forall|s: Seq<char>| #[trigger]
            has_part(s, part) ==> exists|f: Seq<char>, b: Seq<char>| s == #[trigger] (f + part + b),
{
    let s = front + part + back;
    let at = front.len() as int;
    assert(s.subrange(at, at + part.len()) =~= part);
    assert(occurs_at(s, part, at));
    assert forall|s: Seq<char>| #[trigger] has_part(s, part) implies exists|
        f: Seq<char>,
        b: Seq<char>,
    | s == #[trigger] (f + part + b) by {
        let at = choose|at: int| occurs_at(s, part, at);
        let f = s.take(at);
        let b = s.skip(at + part.len());
        assert(s =~= f + part + b);
    }
}

/// The lines of a text that ends in a line feed come before the lines of what is put behind it.
pub proof fn lemma_lines_of_parts(head: Seq<char>, rest: Seq<char>)
    requires
        head.len() == 0 || head.last() == '\n',
    ensures
        lines(head + rest) == lines(head) + lines(rest),
    decreases head.len(),
{
    if head.len() == 0 {
        assert(head + rest =~= rest);
        assert(lines(head) + lines(rest) =~= lines(rest));
    } else {
        assert(head[head.len() - 1] == '\n');
        lemma_find(head, '\n');
        let at = find(head, '\n');
        let whole = head + rest;
        assert(whole[at] == '\n');
        lemma_find_unique(whole, '\n', at);
        assert(before(whole, '\n') =~= before(head, '\n'));
        let later = after(head, '\n');
        assert(after(whole, '\n') =~= later + rest);
        if later.len() > 0 {
            assert(later.last() == head.last());
        }
        lemma_lines_of_parts(later, rest);
        assert(lines(whole) =~= lines(head) + lines(rest));
    }
}

/// What trimming the end leaves is the front of the text, and the rest is whitespace.
pub proof fn lemma_trim_back_splits(s: Seq<char>)
    ensures
        trim_back(s).len() <= s.len(),
        trim_back(s) == s.take(trim_back(s).len() as int),
        trim_back(s).len() > 0 ==> !is_space(trim_back(s).last()),
        forall|i: int|
            0 <= i < s.len() - trim_back(s).len() ==> is_space(
                #[trigger] s.skip(trim_back(s).len() as int)[i],
            ),
    decreases s.len(),
{
    if s.len() > 0 && is_space(s.last()) {
        let rest = s.drop_last();
        lemma_trim_back_splits(rest);
        let n = trim_back(rest).len() as int;
        assert(s.take(n) =~= rest.take(n));
        assert forall|i: int| 0 <= i < s.len() - n implies is_space(#[trigger] s.skip(n)[i]) by {
            if n + i < rest.len() {
                assert(rest.skip(n)[i] == s[n + i]);
            }
        }
    } else {
        assert(s.take(s.len() as int) =~= s);
    }
}

/// Trimming a text whose end is trimmed already gives the same.
pub proof fn lemma_trim_ignores_trailing_space(s: Seq<char>)
    ensures
        trim(trim_back(s)) == trim(s),
    decreases s.len(),
{
    if s.len() > 0 && is_space(s.last()) {
        let rest = s.drop_last();
        lemma_trim_ignores_trailing_space(rest);
        lemma_trim_drops_last(s);
    }
}

/// Whitespace at the end does not matter to trimming.
pub proof fn lemma_trim_drops_last(s: Seq<char>)
    requires
        s.len() > 0,
        is_space(s.last()),
    ensures
        trim(s.drop_last()) == trim(s),
    decreases s.len(),
{
    let rest = s.drop_last();
    if is_space(s[0]) {
        if s.len() == 1 {
            assert(s.skip(1) =~= rest);
        } else {
            assert(s.skip(1).drop_last() =~= rest.skip(1));
            lemma_trim_drops_last(s.skip(1));
        }
    }
}

} // verus!
