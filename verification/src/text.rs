//! Character-level reading of what the user types and of what a queried
//! program prints: white space, trimming, line endings, answers to yes/no
//! questions, and lines.

use vstd::prelude::*;

verus! {

/// White space in the sense of Unicode's `White_Space` property.
pub open spec fn is_whitespace(c: char) -> bool {
    ||| '\u{9}' <= c <= '\u{d}'
    ||| c == ' '
    ||| c == '\u{85}'
    ||| c == '\u{a0}'
    ||| c == '\u{1680}'
    ||| '\u{2000}' <= c <= '\u{200a}'
    ||| c == '\u{2028}'
    ||| c == '\u{2029}'
    ||| c == '\u{202f}'
    ||| c == '\u{205f}'
    ||| c == '\u{3000}'
}

/// `s` without its leading white space.
pub open spec fn trim_start(s: Seq<char>) -> Seq<char>
    decreases s.len(),
{
    if s.len() > 0 && is_whitespace(s.first()) {
        trim_start(s.drop_first())
    } else {
        s
    }
}

/// `s` without its trailing white space.
pub open spec fn trim_end(s: Seq<char>) -> Seq<char>
    decreases s.len(),
{
    if s.len() > 0 && is_whitespace(s.last()) {
        trim_end(s.drop_last())
    } else {
        s
    }
}

/// `s` without leading and trailing white space.
pub open spec fn trimmed(s: Seq<char>) -> Seq<char> {
    trim_end(trim_start(s))
}

/// Whether the places from `a` up to `b` are the core of `s`: all before
/// and all after is white space, and the core, unless it is empty, starts
/// and ends with something else.
pub open spec fn is_core(s: Seq<char>, a: int, b: int) -> bool {
    &&& 0 <= a <= b <= s.len()
    &&& forall|i: int| 0 <= i < a ==> is_whitespace(s[i])
    &&& forall|i: int| b <= i < s.len() ==> is_whitespace(s[i])
    &&& a < b ==> !is_whitespace(s[a]) && !is_whitespace(s[b - 1])
}

/// Whether a `y` occurs anywhere in `s`, in either case.
pub open spec fn contains_y(s: Seq<char>) -> bool {
    exists|i: int| 0 <= i < s.len() && (s[i] == 'y' || s[i] == 'Y')
}

/// Whether `s` is the one letter `y`, with nothing but white space around
/// it.
pub open spec fn is_y(s: Seq<char>) -> bool {
    trimmed(s) == seq!['y']
}

/// The text after the last line feed of `s`: the line that is still open.
pub open spec fn open_line(s: Seq<char>) -> Seq<char>
    decreases s.len(),
{
    if s.len() == 0 || s.last() == '\n' {
        Seq::empty()
    } else {
        open_line(s.drop_last()).push(s.last())
    }
}

/// A line as it is handed out once its line feed was seen: a carriage
/// return directly before the line feed belongs to the line ending.
pub open spec fn without_cr(line: Seq<char>) -> Seq<char> {
    if line.len() > 0 && line.last() == '\r' {
        line.drop_last()
    } else {
        line
    }
}

/// A line as it was read, without its line ending: without one line feed
/// at its end, and without a carriage return directly before that line
/// feed. Nothing else goes, white space neither.
pub open spec fn without_line_ending(s: Seq<char>) -> Seq<char> {
    if s.len() > 0 && s.last() == '\n' {
        without_cr(s.drop_last())
    } else {
        s
    }
}

/// The lines of `s` that a line feed has ended, in order.
pub open spec fn closed_lines(s: Seq<char>) -> Seq<Seq<char>>
    decreases s.len(),
{
    if s.len() == 0 {
        Seq::empty()
    } else if s.last() == '\n' {
        closed_lines(s.drop_last()).push(without_cr(open_line(s.drop_last())))
    } else {
        closed_lines(s.drop_last())
    }
}

/// The lines of `s`. Each line feed ends a line; text after the last line
/// feed is a line of its own unless it is empty, and keeps a carriage return
/// at its end.
pub open spec fn lines(s: Seq<char>) -> Seq<Seq<char>> {
    if open_line(s).len() > 0 {
        closed_lines(s).push(open_line(s))
    } else {
        closed_lines(s)
    }
}

/// The views of a sequence of strings.
pub open spec fn texts(v: Seq<String>) -> Seq<Seq<char>> {
    v.map_values(|s: String| s@)
}

/// Whether `c` is white space.
pub fn is_space(c: char) -> (r: bool)
    ensures
        r == is_whitespace(c),
{
    ('\u{9}' <= c && c <= '\u{d}') || c == ' ' || c == '\u{85}' || c == '\u{a0}' || c
        == '\u{1680}' || ('\u{2000}' <= c && c <= '\u{200a}') || c == '\u{2028}' || c
        == '\u{2029}' || c == '\u{202f}' || c == '\u{205f}' || c == '\u{3000}'
}

/// The characters of `s`, in order.
pub fn chars_of(s: &str) -> (v: Vec<char>)
    ensures
        v@ == s@,
{
    let mut v: Vec<char> = Vec::new();
    for c in it: s.chars()
        invariant
            it.seq() == s@,
            v@ == s@.take(it.index()),
    {
        v.push(c);
        assert(s@.take(it.index() + 1) =~= s@.take(it.index()).push(c));
    }
    assert(s@.take(s@.len() as int) =~= s@);
    v
}

/// Cuts the white space off both ends of `s`.
pub fn trim(s: &str) -> (r: &str)
    ensures
        r@ == trimmed(s@),
{
    let v = chars_of(s);
    let n = v.len();
    let mut a: usize = 0;
    assert(v@.skip(0) =~= v@);
    while a < n && is_space(v[a])
        invariant
            a <= n,
            n == v@.len(),
            trim_start(v@) == trim_start(v@.skip(a as int)),
        decreases n - a,
    {
        assert(v@.skip(a as int).drop_first() =~= v@.skip(a + 1));
        a += 1;
    }
    assert(v@.skip(a as int) =~= v@.subrange(a as int, n as int));
    let mut b: usize = n;
    while b > a && is_space(v[b - 1])
        invariant
            a <= b <= n,
            n == v@.len(),
            trim_end(v@.subrange(a as int, n as int)) == trim_end(v@.subrange(a as int, b as int)),
        decreases b,
    {
        assert(v@.subrange(a as int, b as int).drop_last() =~= v@.subrange(a as int, b - 1));
        b -= 1;
    }
    s.substring_char(a, b)
}

/// Cuts the line ending off `s`, where it has one.
pub fn strip_line_ending(s: &str) -> (r: &str)
    ensures
        r@ == without_line_ending(s@),
{
    let v = chars_of(s);
    let n = v.len();
    if n == 0 || v[n - 1] != '\n' {
        return s;
    }
    let end: usize = if n >= 2 && v[n - 2] == '\r' {
        n - 2
    } else {
        n - 1
    };
    let r = s.substring_char(0, end);
    assert(r@ =~= without_cr(s@.drop_last()));
    r
}

/// Whether `reply` is a plain `y`.
pub fn says_y(reply: &str) -> (yes: bool)
    ensures
        yes == is_y(reply@),
{
    let v = chars_of(trim(reply));
    let yes = v.len() == 1 && v[0] == 'y';
    assert(yes == (v@ =~= seq!['y']));
    yes
}

/// Whether a `y` occurs in `reply`, in either case.
pub fn has_y(reply: &str) -> (found: bool)
    ensures
        found == contains_y(reply@),
{
    let v = chars_of(reply);
    let mut i: usize = 0;
    while i < v.len()
        invariant
            i <= v@.len(),
            v@ == reply@,
            forall|j: int| 0 <= j < i ==> v@[j] != 'y' && v@[j] != 'Y',
        decreases v@.len() - i,
    {
        if v[i] == 'y' || v[i] == 'Y' {
            assert(reply@[i as int] == 'y' || reply@[i as int] == 'Y');
            return true;
        }
        i += 1;
    }
    false
}

/// Splits what a program printed into its lines.
pub fn split_lines(s: &str) -> (out: Vec<String>)
    ensures
        texts(out@) == lines(s@),
{
    let v = chars_of(s);
    let n = v.len();
    let mut out: Vec<String> = Vec::new();
    let mut start: usize = 0;
    let mut i: usize = 0;
    assert(texts(out@) =~= closed_lines(v@.take(0)));
    assert(open_line(v@.take(0)) =~= v@.subrange(0, 0));
    while i < n
        invariant
            start <= i <= n,
            n == v@.len(),
            v@ == s@,
            texts(out@) == closed_lines(v@.take(i as int)),
            open_line(v@.take(i as int)) == v@.subrange(start as int, i as int),
        decreases n - i,
    {
        assert(v@.take(i + 1).drop_last() =~= v@.take(i as int));
        if v[i] == '\n' {
            let end: usize = if i > start && v[i - 1] == '\r' {
                i - 1
            } else {
                i
            };
            let line = s.substring_char(start, end).to_owned();
            assert(line@ =~= without_cr(v@.subrange(start as int, i as int)));
            proof {
                lemma_texts_push(out@, line);
            }
            out.push(line);
            start = i + 1;
            assert(open_line(v@.take(i + 1)) =~= v@.subrange(start as int, i + 1));
        } else {
            assert(v@.subrange(start as int, i as int).push(v@[i as int]) =~= v@.subrange(
                start as int,
                i + 1,
            ));
        }
        i += 1;
    }
    assert(v@.take(n as int) =~= v@);
    if start < n {
        let line = s.substring_char(start, n).to_owned();
        proof {
            lemma_texts_push(out@, line);
        }
        out.push(line);
    }
    out
}

/// Appending a string appends its text.
pub proof fn lemma_texts_push(v: Seq<String>, s: String)
    ensures
        texts(v.push(s)) == texts(v).push(s@),
{
    assert(texts(v.push(s)) =~= texts(v).push(s@));
}

/// `trim_start` skips the white space that `s` starts with and no more.
pub proof fn lemma_trim_start(s: Seq<char>) -> (a: int)
    ensures
        0 <= a <= s.len(),
        trim_start(s) == s.skip(a),
        forall|i: int| 0 <= i < a ==> is_whitespace(s[i]),
        a < s.len() ==> !is_whitespace(s[a]),
    decreases s.len(),
{
    if s.len() > 0 && is_whitespace(s.first()) {
        let rest = lemma_trim_start(s.drop_first());
        assert(s.drop_first().skip(rest) =~= s.skip(rest + 1));
        assert forall|i: int| 0 <= i < rest + 1 implies is_whitespace(s[i]) by {
            if i > 0 {
                assert(s[i] == s.drop_first()[i - 1]);
            }
        }
        rest + 1
    } else {
        assert(s.skip(0) =~= s);
        0
    }
}

/// `trim_end` cuts the white space that `s` ends with and no more.
pub proof fn lemma_trim_end(s: Seq<char>) -> (b: int)
    ensures
        0 <= b <= s.len(),
        trim_end(s) == s.take(b),
        forall|i: int| b <= i < s.len() ==> is_whitespace(s[i]),
        0 < b ==> !is_whitespace(s[b - 1]),
    decreases s.len(),
{
    if s.len() > 0 && is_whitespace(s.last()) {
        let b = lemma_trim_end(s.drop_last());
        assert(s.drop_last().take(b) =~= s.take(b));
        assert forall|i: int| b <= i < s.len() implies is_whitespace(s[i]) by {
            if i < s.len() - 1 {
                assert(s[i] == s.drop_last()[i]);
            }
        }
        b
    } else {
        assert(s.take(s.len() as int) =~= s);
        s.len() as int
    }
}

/// Trimming keeps the core of the text, in one piece, and cuts nothing but
/// white space.
pub proof fn lemma_trimmed_is_the_core(s: Seq<char>)
    ensures
        exists|a: int, b: int| is_core(s, a, b) && trimmed(s) == s.subrange(a, b),
{
    let a = lemma_trim_start(s);
    let t = s.skip(a);
    let len = lemma_trim_end(t);
    let b = a + len;
    assert(t.take(len) =~= s.subrange(a, b));
    assert forall|i: int| b <= i < s.len() implies is_whitespace(s[i]) by {
        assert(s[i] == t[i - a]);
    }
    if a < b {
        assert(s[b - 1] == t[len - 1]);
    }
    assert(is_core(s, a, b) && trimmed(s) == s.subrange(a, b));
}

/// Text without white space at either end is left as it is by trimming.
pub proof fn lemma_trimmed_fixed(s: Seq<char>)
    requires
        s.len() > 0 ==> !is_whitespace(s.first()) && !is_whitespace(s.last()),
    ensures
        trimmed(s) == s,
{
}

/// Trimming twice cuts no more than trimming once.
pub proof fn lemma_trimmed_twice(s: Seq<char>)
    ensures
        trimmed(trimmed(s)) == trimmed(s),
{
    let a = lemma_trim_start(s);
    let b = lemma_trim_end(s.skip(a));
    let t = trimmed(s);
    if t.len() > 0 {
        assert(t.first() == s.skip(a)[0]);
        assert(t.last() == s.skip(a)[b - 1]);
    }
    lemma_trimmed_fixed(t);
}

/// A line feed ends the line that was open: the lines of the text before
/// it are followed by that line, without a carriage return at its end.
pub proof fn lemma_lines_closed(s: Seq<char>)
    ensures
        open_line(s.push('\n')) == Seq::<char>::empty(),
        lines(s.push('\n')) == closed_lines(s).push(without_cr(open_line(s))),
{
    assert(s.push('\n').drop_last() =~= s);
}

/// Any other character goes to the open line and leaves the lines before
/// it as they are.
pub proof fn lemma_lines_extended(s: Seq<char>, c: char)
    requires
        c != '\n',
    ensures
        open_line(s.push(c)) == open_line(s).push(c),
        lines(s.push(c)) == closed_lines(s).push(open_line(s).push(c)),
{
    assert(s.push(c).drop_last() =~= s);
}

proof fn lemma_open_line_holds_no_line_feed(s: Seq<char>)
    ensures
        !open_line(s).contains('\n'),
    decreases s.len(),
{
    if s.len() > 0 && s.last() != '\n' {
        lemma_open_line_holds_no_line_feed(s.drop_last());
        let before = open_line(s.drop_last());
        if open_line(s).contains('\n') {
            let k = choose|k: int| 0 <= k < open_line(s).len() && open_line(s)[k] == '\n';
            if k < before.len() {
                assert(before[k] == '\n');
            }
        }
    }
}

/// No line holds a line feed.
pub proof fn lemma_lines_hold_no_line_feed(s: Seq<char>, i: int)
    requires
        0 <= i < lines(s).len(),
    ensures
        !lines(s)[i].contains('\n'),
    decreases s.len(),
{
    lemma_open_line_holds_no_line_feed(s);
    if s.len() > 0 && i < closed_lines(s).len() {
        let before = s.drop_last();
        lemma_open_line_holds_no_line_feed(before);
        if s.last() == '\n' {
            if i < closed_lines(before).len() {
                lemma_lines_hold_no_line_feed(before, i);
            } else {
                let line = open_line(before);
                if without_cr(line).contains('\n') {
                    let k = choose|k: int|
                        0 <= k < without_cr(line).len() && without_cr(line)[k] == '\n';
                    assert(line[k] == '\n');
                }
            }
        } else {
            lemma_lines_hold_no_line_feed(before, i);
        }
    }
}

/// Text that does not end in a line feed has no line ending to lose.
pub proof fn lemma_no_line_ending(s: Seq<char>)
    requires
        s.len() > 0 ==> s.last() != '\n',
    ensures
        without_line_ending(s) == s,
{
}

/// A line feed at the end goes, and so does a carriage return with it;
/// the text before them stays as it is.
pub proof fn lemma_line_ending_cut(s: Seq<char>)
    requires
        s.len() > 0 ==> s.last() != '\r',
    ensures
        without_line_ending(s.push('\n')) == s,
        without_line_ending(s.push('\r').push('\n')) == s,
{
    assert(s.push('\n').drop_last() =~= s);
    assert(s.push('\r').push('\n').drop_last() =~= s.push('\r'));
    assert(s.push('\r').drop_last() =~= s);
}

/// A plain `y` is a reply in which a `y` occurs; the converse fails, as
/// `nay` shows.
pub proof fn lemma_is_y_contains_y(s: Seq<char>)
    requires
        is_y(s),
    ensures
        contains_y(s),
{
    let a = lemma_trim_start(s);
    let b = lemma_trim_end(s.skip(a));
    assert(seq!['y'].len() == 1 && seq!['y'][0] == 'y');
    assert(trimmed(s) == s.skip(a).take(b));
    assert(s.skip(a).take(b)[0] == s[a]);
}

/// Only the empty text has no lines.
pub proof fn lemma_no_lines(s: Seq<char>)
    ensures
        lines(s).len() == 0 <==> s.len() == 0,
{
}

} // verus!
