//! Text searches that the session controller relies on: whether a phrase
//! occurs in a message, and whether a name is one of the lines of a listing.

use vstd::prelude::*;

verus! {

/// `needle` stands in `hay` at position `at`.
pub open spec fn occurs_at(needle: Seq<char>, hay: Seq<char>, at: int) -> bool {
    &&& 0 <= at
    &&& at + needle.len() <= hay.len()
    &&& hay.subrange(at, at + needle.len()) == needle
}

/// `needle` stands somewhere in `hay`, as a contiguous run of characters.
pub open spec fn occurs_in(needle: Seq<char>, hay: Seq<char>) -> bool {
    exists|at: int| #[trigger] occurs_at(needle, hay, at)
}

/// The characters of a string slice, in order.
pub fn chars_of(s: &str) -> (out: Vec<char>)
    ensures
        out@ == s@,
{
    let mut out: Vec<char> = Vec::new();
    for c in it: s.chars()
        invariant
            it.seq() == s@,
            out@ == it.seq().take(it.index()),
    {
        out.push(c);
    }
    out
}

/// Whether the characters of `text` from `from` up to `to` spell `word`.
pub fn range_equals(text: &Vec<char>, from: usize, to: usize, word: &Vec<char>) -> (same: bool)
    requires
        from <= to <= text.len(),
    ensures
        same == (text@.subrange(from as int, to as int) == word@),
{
    if to - from != word.len() {
        return false;
    }
    let mut k: usize = 0;
    while k < word.len()
        invariant
            from <= to <= text.len(),
            to - from == word.len(),
            k <= word.len(),
            forall|j: int| 0 <= j < k ==> text@[from + j] == word@[j],
        decreases word.len() - k,
    {
        if text[from + k] != word[k] {
            assert(text@.subrange(from as int, to as int)[k as int] != word@[k as int]);
            return false;
        }
        k += 1;
    }
    assert(text@.subrange(from as int, to as int) =~= word@);
    true
}

/// Whether `needle` occurs in `hay`.
pub fn contains_chars(hay: &Vec<char>, needle: &Vec<char>) -> (found: bool)
    ensures
        found == occurs_in(needle@, hay@),
{
    if needle.len() == 0 {
        assert(hay@.subrange(0, 0) =~= needle@);
        assert(occurs_at(needle@, hay@, 0));
        return true;
    }
    let mut at: usize = 0;
    while hay.len() - at >= needle.len()
        invariant
            0 < needle.len(),
            at <= hay.len(),
            forall|i: int| 0 <= i < at ==> !occurs_at(needle@, hay@, i),
        decreases hay.len() - at,
    {
        if range_equals(hay, at, at + needle.len(), needle) {
            assert(occurs_at(needle@, hay@, at as int));
            return true;
        }
        at += 1;
    }
    false
}

/// Whether `needle` occurs in `hay`: the search of [`contains_chars`] on the
/// characters of two string slices.
pub fn contains_text(hay: &str, needle: &str) -> (found: bool)
    ensures
        found == occurs_in(needle@, hay@),
{
    let hay_chars = chars_of(hay);
    let needle_chars = chars_of(needle);
    contains_chars(&hay_chars, &needle_chars)
}

/// The characters of `text` from `start` up to `end` are one line of it: the
/// line begins at the start of the text or behind a line feed, holds no line
/// feed, and ends before a line feed or at the end of the text. Behind a final
/// line feed there is no further, empty line.
pub open spec fn line_span(text: Seq<char>, start: int, end: int) -> bool {
    &&& 0 <= start <= end <= text.len()
    &&& start == 0 || text[start - 1] == '\n'
    &&& forall|j: int| start <= j < end ==> text[j] != '\n'
    &&& end < text.len() ==> text[end] == '\n'
    &&& end == text.len() ==> start < text.len()
}

/// What the line from `start` to `end` reads: its characters without the line
/// feed, and without one carriage return that stands directly before that line
/// feed. A line that the end of the text closes keeps a carriage return.
pub open spec fn line_content(text: Seq<char>, start: int, end: int) -> Seq<char> {
    if end < text.len() && start < end && text[end - 1] == '\r' {
        text.subrange(start, end - 1)
    } else {
        text.subrange(start, end)
    }
}

/// The characters from `start` to `end` are a line of `text`, and that line
/// reads `name`.
pub open spec fn is_line_at(text: Seq<char>, name: Seq<char>, start: int, end: int) -> bool {
    line_span(text, start, end) && line_content(text, start, end) == name
}

/// Some line of `text` reads exactly `name`: nothing is trimmed, no case is
/// folded, and part of a line does not count.
pub open spec fn has_line(text: Seq<char>, name: Seq<char>) -> bool {
    exists|start: int, end: int| #[trigger] is_line_at(text, name, start, end)
}

/// Two lines of one text that end at the same place are the same line.
pub proof fn lemma_line_start_unique(text: Seq<char>, a: int, b: int, end: int)
    requires
        line_span(text, a, end),
        line_span(text, b, end),
    ensures
        a == b,
{
    if a < b {
        assert(text[b - 1] == '\n');
    } else if b < a {
        assert(text[a - 1] == '\n');
    }
}

/// A name that can stand on a line of its own and be read back as it is: it
/// holds no line feed and does not end in a carriage return.
pub open spec fn plain_name(name: Seq<char>) -> bool {
    &&& forall|i: int| 0 <= i < name.len() ==> name[i] != '\n'
    &&& name.len() > 0 ==> name[name.len() - 1] != '\r'
}

/// The listing in which each of the names stands on a line of its own, in
/// order, each line closed by a line feed.
pub open spec fn listing_of(names: Seq<Seq<char>>) -> Seq<char>
    decreases names.len(),
{
    if names.len() == 0 {
        Seq::empty()
    } else {
        names[0] + seq!['\n'] + listing_of(names.drop_first())
    }
}

/// A plain name, closed by a line feed at the start of a text, is a line of it.
proof fn lemma_head_is_line(first: Seq<char>, rest: Seq<char>)
    requires
        plain_name(first),
    ensures
        is_line_at(first + seq!['\n'] + rest, first, 0, first.len() as int),
{
    let text = first + seq!['\n'] + rest;
    let len = first.len() as int;
    assert(text[len] == '\n');
    assert forall|j: int| 0 <= j < len implies text[j] != '\n' by {
        assert(text[j] == first[j]);
    }
    assert(line_span(text, 0, len));
    if 0 < len {
        assert(text[len - 1] == first[len - 1]);
    }
    assert(text.subrange(0, len) =~= first);
}

/// A line of `rest` is a line of `head + rest`, further back by the length of
/// `head`, where `head` ends in a line feed.
proof fn lemma_line_moves_back(head: Seq<char>, rest: Seq<char>, name: Seq<char>, s: int, e: int)
    requires
        head.len() > 0,
        head[head.len() - 1] == '\n',
        is_line_at(rest, name, s, e),
    ensures
        is_line_at(head + rest, name, s + head.len(), e + head.len()),
{
    let text = head + rest;
    let shift = head.len() as int;
    if s > 0 {
        assert(text[s + shift - 1] == rest[s - 1]);
    } else {
        assert(text[shift - 1] == head[shift - 1]);
    }
    assert forall|j: int| s + shift <= j < e + shift implies text[j] != '\n' by {
        assert(text[j] == rest[j - shift]);
    }
    if e < rest.len() {
        assert(text[e + shift] == rest[e]);
    }
    assert(line_span(text, s + shift, e + shift));
    if s < e {
        assert(text[e + shift - 1] == rest[e - 1]);
        assert(text.subrange(s + shift, e + shift - 1) =~= rest.subrange(s, e - 1));
    }
    assert(text.subrange(s + shift, e + shift) =~= rest.subrange(s, e));
}

/// A line of `head + rest` that begins behind `head` is a line of `rest`,
/// further to the front by the length of `head`, where `head` ends in a line
/// feed.
proof fn lemma_line_moves_front(head: Seq<char>, rest: Seq<char>, name: Seq<char>, s: int, e: int)
    requires
        head.len() <= s,
        head.len() > 0,
        head[head.len() - 1] == '\n',
        is_line_at(head + rest, name, s, e),
    ensures
        is_line_at(rest, name, s - head.len(), e - head.len()),
{
    let text = head + rest;
    let shift = head.len() as int;
    let a = s - shift;
    let b = e - shift;
    if a > 0 {
        assert(rest[a - 1] == text[s - 1]);
    }
    assert forall|j: int| a <= j < b implies rest[j] != '\n' by {
        assert(rest[j] == text[j + shift]);
    }
    if b < rest.len() {
        assert(rest[b] == text[e]);
    }
    assert(line_span(rest, a, b));
    if a < b {
        assert(rest[b - 1] == text[e - 1]);
        assert(text.subrange(s, e - 1) =~= rest.subrange(a, b - 1));
    }
    assert(text.subrange(s, e) =~= rest.subrange(a, b));
}

/// The lines of a text that begins with the plain line `first` are `first`
/// and the lines of what follows its line feed.
pub proof fn lemma_first_line(first: Seq<char>, rest: Seq<char>, name: Seq<char>)
    requires
        plain_name(first),
    ensures
        has_line(first + seq!['\n'] + rest, name) <==> (name == first || has_line(rest, name)),
{
    let head = first + seq!['\n'];
    let text = head + rest;
    let len = first.len() as int;
    assert(head[len] == '\n');
    lemma_head_is_line(first, rest);
    if has_line(rest, name) {
        let (s, e) = choose|s: int, e: int| #[trigger] is_line_at(rest, name, s, e);
        lemma_line_moves_back(head, rest, name, s, e);
    }
    if has_line(text, name) {
        let (s, e) = choose|s: int, e: int| #[trigger] is_line_at(text, name, s, e);
        if s <= len {
            assert(s == 0) by {
                if s > 0 {
                    assert(text[s - 1] == first[s - 1]);
                }
            }
            lemma_line_end_unique(text, 0, e, len);
        } else {
            lemma_line_moves_front(head, rest, name, s, e);
        }
    }
}

/// Exact, whole-line matching: in a listing of plain names, one on each line,
/// a name is found if and only if it is one of the listed names, as a whole.
/// A name that is only part of a listed name, or only like one, is not found.
pub proof fn lemma_listing_lines(names: Seq<Seq<char>>, name: Seq<char>)
    requires
        forall|i: int| 0 <= i < names.len() ==> plain_name(#[trigger] names[i]),
    ensures
        has_line(listing_of(names), name) <==> names.contains(name),
    decreases names.len(),
{
    if names.len() == 0 {
        assert forall|s: int, e: int| !#[trigger] is_line_at(listing_of(names), name, s, e) by {}
    } else {
        let rest = names.drop_first();
        assert forall|i: int| 0 <= i < rest.len() implies plain_name(#[trigger] rest[i]) by {
            assert(rest[i] == names[i + 1]);
        }
        lemma_listing_lines(rest, name);
        lemma_first_line(names[0], listing_of(rest), name);
        if rest.contains(name) {
            let i = choose|i: int| 0 <= i < rest.len() && rest[i] == name;
            assert(names[i + 1] == name);
        }
        if names.contains(name) {
            let i = choose|i: int| 0 <= i < names.len() && names[i] == name;
            if i > 0 {
                assert(rest[i - 1] == name);
            }
        }
    }
}

/// Two lines of one text that begin at the same place are the same line.
pub proof fn lemma_line_end_unique(text: Seq<char>, start: int, a: int, b: int)
    requires
        line_span(text, start, a),
        line_span(text, start, b),
    ensures
        a == b,
{
    if a < b {
        assert(text[a] == '\n');
    } else if b < a {
        assert(text[b] == '\n');
    }
}

/// Whether some line of `text` reads exactly `name`.
pub fn has_line_chars(text: &Vec<char>, name: &Vec<char>) -> (found: bool)
    ensures
        found == has_line(text@, name@),
{
    let n: usize = text.len();
    let mut start: usize = 0;
    let mut i: usize = 0;
    while i < n
        invariant
            n == text.len(),
            start <= i <= n,
            start == 0 || text@[start - 1] == '\n',
            forall|j: int| start <= j < i ==> text@[j] != '\n',
            forall|s: int, e: int| e < i ==> !#[trigger] is_line_at(text@, name@, s, e),
        decreases n - i,
    {
        if text[i] == '\n' {
            let stop: usize = if start < i && text[i - 1] == '\r' { i - 1 } else { i };
            let same = range_equals(text, start, stop, name);
            assert(line_span(text@, start as int, i as int));
            assert(line_content(text@, start as int, i as int) == text@.subrange(
                start as int,
                stop as int,
            ));
            if same {
                assert(is_line_at(text@, name@, start as int, i as int));
                return true;
            }
            assert forall|s: int, e: int| e < i + 1 implies !#[trigger] is_line_at(
                text@,
                name@,
                s,
                e,
            ) by {
                if e == i && line_span(text@, s, e) {
                    lemma_line_start_unique(text@, s, start as int, e);
                }
            }
            start = i + 1;
        } else {
            assert forall|s: int, e: int| e < i + 1 implies !#[trigger] is_line_at(
                text@,
                name@,
                s,
                e,
            ) by {
                if e == i {
                    assert(!line_span(text@, s, e));
                }
            }
        }
        i += 1;
    }
    if start < n {
        let same = range_equals(text, start, n, name);
        assert(line_span(text@, start as int, n as int));
        if same {
            assert(is_line_at(text@, name@, start as int, n as int));
            return true;
        }
        assert forall|s: int, e: int| !#[trigger] is_line_at(text@, name@, s, e) by {
            if e == n && line_span(text@, s, e) {
                lemma_line_start_unique(text@, s, start as int, e);
            }
        }
        false
    } else {
        assert forall|s: int, e: int| !#[trigger] is_line_at(text@, name@, s, e) by {
            if e == n && line_span(text@, s, e) {
                if s < start {
                    assert(text@[start - 1] == '\n');
                }
            }
        }
        false
    }
}

/// Whether some line of `text` reads exactly `name`: the search of
/// [`has_line_chars`] on the characters of two string slices.
pub fn has_line_text(text: &str, name: &str) -> (found: bool)
    ensures
        found == has_line(text@, name@),
{
    let text_chars = chars_of(text);
    let name_chars = chars_of(name);
    has_line_chars(&text_chars, &name_chars)
}

} // verus!
