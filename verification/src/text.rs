use vstd::prelude::*;

verus! {

/// Unicode `White_Space`: the characters that `char::is_whitespace`, `str::trim`
/// and `str::split_whitespace` treat as white space.
pub open spec fn is_white_space(c: char) -> bool {
    ||| ('\u{9}' <= c && c <= '\u{d}')
    ||| c == ' '
    ||| c == '\u{85}'
    ||| c == '\u{a0}'
    ||| c == '\u{1680}'
    ||| ('\u{2000}' <= c && c <= '\u{200a}')
    ||| c == '\u{2028}'
    ||| c == '\u{2029}'
    ||| c == '\u{202f}'
    ||| c == '\u{205f}'
    ||| c == '\u{3000}'
}

/// `s` without its leading white space.
pub open spec fn trim_start(s: Seq<char>) -> Seq<char>
    decreases s.len(),
{
    if s.len() > 0 && is_white_space(s[0]) {
        trim_start(s.drop_first())
    } else {
        s
    }
}

/// `s` without its trailing white space.
pub open spec fn trim_end(s: Seq<char>) -> Seq<char>
    decreases s.len(),
{
    if s.len() > 0 && is_white_space(s.last()) {
        trim_end(s.drop_last())
    } else {
        s
    }
}

/// `s` without leading and trailing white space, as `str::trim` gives it.
pub open spec fn trim(s: Seq<char>) -> Seq<char> {
    trim_end(trim_start(s))
}

/// Whether `c` is white space.
pub fn is_white_space_char(c: char) -> (b: bool)
    ensures
        b == is_white_space(c),
{
    ('\u{9}' <= c && c <= '\u{d}') || c == ' ' || c == '\u{85}' || c == '\u{a0}' || c
        == '\u{1680}' || ('\u{2000}' <= c && c <= '\u{200a}') || c == '\u{2028}' || c
        == '\u{2029}' || c == '\u{202f}' || c == '\u{205f}' || c == '\u{3000}'
}

/// Appends one character to a string.
///
/// Calls `String::push`, which std documents as appending the given `char` to the end
/// of the `String`; the contract says exactly that.
#[verifier::external_body]
fn push_char(s: &mut String, c: char)
    ensures
        final(s)@ == old(s)@.push(c),
{
    s.push(c);
}

/// The characters of `s`, in order.
pub fn chars_of(s: &str) -> (v: Vec<char>)
    ensures
        v@ == s@,
{
    let mut v: Vec<char> = Vec::new();
    for c in it: s.chars()
        invariant
            v@ == it.seq().take(it.index()),
    {
        v.push(c);
    }
    v
}

/// The string made of the characters `v[from..to]`.
pub fn string_from_chars(v: &Vec<char>, from: usize, to: usize) -> (s: String)
    requires
        from <= to <= v.len(),
    ensures
        s@ == v@.subrange(from as int, to as int),
{
    let mut s = String::new();
    let mut i = from;
    while i < to
        invariant
            from <= i <= to <= v.len(),
            s@ == v@.subrange(from as int, i as int),
        decreases to - i,
    {
        push_char(&mut s, v[i]);
        assert(v@.subrange(from as int, i + 1) == v@.subrange(from as int, i as int).push(v@[i as int]));
        i = i + 1;
    }
    s
}

/// Dropping white space from the front of `s[i..]` after a white-space prefix.
proof fn lemma_trim_start_skip(s: Seq<char>, i: int)
    requires
        0 <= i <= s.len(),
        forall|k: int| 0 <= k < i ==> is_white_space(#[trigger] s[k]),
    ensures
        trim_start(s) == trim_start(s.subrange(i, s.len() as int)),
    decreases i,
{
    if i > 0 {
        lemma_trim_start_skip(s.drop_first(), i - 1);
        assert(s.drop_first().subrange(i - 1, s.drop_first().len() as int) == s.subrange(
            i,
            s.len() as int,
        ));
    } else {
        assert(s.subrange(0, s.len() as int) == s);
    }
}

/// Dropping white space from the back of `s[..j]` after a white-space suffix.
proof fn lemma_trim_end_skip(s: Seq<char>, j: int)
    requires
        0 <= j <= s.len(),
        forall|k: int| j <= k < s.len() ==> is_white_space(#[trigger] s[k]),
    ensures
        trim_end(s) == trim_end(s.subrange(0, j)),
    decreases s.len() - j,
{
    if j < s.len() {
        lemma_trim_end_skip(s.drop_last(), j);
        assert(s.drop_last().subrange(0, j) == s.subrange(0, j));
    } else {
        assert(s.subrange(0, j) == s);
    }
}

/// The bounds `[start, end)` of `trim(v[from..to])` within `v`.
pub fn trim_bounds(v: &Vec<char>, from: usize, to: usize) -> (r: (usize, usize))
    requires
        from <= to <= v.len(),
    ensures
        from <= r.0 <= r.1 <= to,
        v@.subrange(r.0 as int, r.1 as int) == trim(v@.subrange(from as int, to as int)),
{
    let ghost s = v@.subrange(from as int, to as int);
    let mut start = from;
    while start < to && is_white_space_char(v[start])
        invariant
            from <= start <= to <= v.len(),
            s == v@.subrange(from as int, to as int),
            forall|k: int| from <= k < start ==> is_white_space(#[trigger] v@[k]),
        decreases to - start,
    {
        start = start + 1;
    }
    proof {
        assert forall|k: int| 0 <= k < start - from implies is_white_space(#[trigger] s[k]) by {
            assert(s[k] == v@[from + k]);
        }
        lemma_trim_start_skip(s, start - from);
        assert(s.subrange(start - from, s.len() as int) == v@.subrange(start as int, to as int));
    }
    let ghost t = v@.subrange(start as int, to as int);
    assert(trim_start(s) == t);
    if start < to {
        assert(!is_white_space(t[0]));
    }
    let mut end = to;
    while end > start && is_white_space_char(v[end - 1])
        invariant
            from <= start <= end <= to <= v.len(),
            t == v@.subrange(start as int, to as int),
            forall|k: int| end <= k < to ==> is_white_space(#[trigger] v@[k]),
        decreases end - start,
    {
        end = end - 1;
    }
    proof {
        assert forall|k: int| end - start <= k < t.len() implies is_white_space(
            #[trigger] t[k],
        ) by {
            assert(t[k] == v@[start + k]);
        }
        lemma_trim_end_skip(t, end - start);
        assert(t.subrange(0, end - start) == v@.subrange(start as int, end as int));
        let u = v@.subrange(start as int, end as int);
        if u.len() > 0 {
            assert(!is_white_space(u.last()));
        }
    }
    (start, end)
}

/// `s` without leading and trailing white space (`str::trim`).
pub fn trim_str(s: &str) -> (r: String)
    ensures
        r@ == trim(s@),
{
    let v = chars_of(s);
    let (start, end) = trim_bounds(&v, 0, v.len());
    assert(v@.subrange(0, v@.len() as int) == v@);
    string_from_chars(&v, start, end)
}


/// The characters after the last line feed of `s` (all of `s` if it holds none): the line
/// that `s` has begun but not ended.
pub open spec fn pending_line(s: Seq<char>) -> Seq<char>
    decreases s.len(),
{
    if s.len() == 0 {
        s
    } else if s.last() == '\n' {
        Seq::empty()
    } else {
        pending_line(s.drop_last()).push(s.last())
    }
}

/// The lines of `s` that end in a line feed, each with its line feed, in order: the pieces
/// of `s.split_inclusive('\n')` that end with `'\n'`.
pub open spec fn complete_lines(s: Seq<char>) -> Seq<Seq<char>>
    decreases s.len(),
{
    if s.len() == 0 {
        Seq::empty()
    } else if s.last() == '\n' {
        complete_lines(s.drop_last()).push(pending_line(s.drop_last()).push('\n'))
    } else {
        complete_lines(s.drop_last())
    }
}

/// The word that `s` ends in: its trailing run of characters that are not white space.
pub open spec fn partial_word(s: Seq<char>) -> Seq<char>
    decreases s.len(),
{
    if s.len() == 0 {
        s
    } else if is_white_space(s.last()) {
        Seq::empty()
    } else {
        partial_word(s.drop_last()).push(s.last())
    }
}

/// The words of `s` that white space has already closed, in order.
pub open spec fn closed_words(s: Seq<char>) -> Seq<Seq<char>>
    decreases s.len(),
{
    if s.len() == 0 {
        Seq::empty()
    } else if is_white_space(s.last()) && partial_word(s.drop_last()).len() > 0 {
        closed_words(s.drop_last()).push(partial_word(s.drop_last()))
    } else {
        closed_words(s.drop_last())
    }
}

/// The words of `s`, as `str::split_whitespace` gives them: the maximal runs of characters
/// that are not white space, in order.
pub open spec fn words(s: Seq<char>) -> Seq<Seq<char>> {
    if partial_word(s).len() > 0 {
        closed_words(s).push(partial_word(s))
    } else {
        closed_words(s)
    }
}

/// The words of `s` (`str::split_whitespace`).
pub fn split_words(s: &str) -> (r: Vec<String>)
    ensures
        r@.map_values(|w: String| w@) == words(s@),
{
    let v = chars_of(s);
    let mut out: Vec<String> = Vec::new();
    let mut start: usize = 0;
    let mut i: usize = 0;
    while i < v.len()
        invariant
            0 <= start <= i <= v.len(),
            v@ == s@,
            out@.map_values(|w: String| w@) == closed_words(v@.take(i as int)),
            v@.subrange(start as int, i as int) == partial_word(v@.take(i as int)),
        decreases v.len() - i,
    {
        let ghost prev = v@.take(i as int);
        assert(v@.take(i + 1).drop_last() == prev);
        if is_white_space_char(v[i]) {
            if start < i {
                let w = string_from_chars(&v, start, i);
                let ghost before = out@;
                out.push(w);
                assert(out@.map_values(|w: String| w@) == before.map_values(|w: String| w@).push(
                    w@,
                ));
            }
            start = i + 1;
        } else {
            assert(v@.subrange(start as int, i + 1) == v@.subrange(start as int, i as int).push(
                v@[i as int],
            ));
        }
        i = i + 1;
    }
    assert(v@.take(v@.len() as int) == v@);
    if start < i {
        let w = string_from_chars(&v, start, i);
        let ghost before = out@;
        out.push(w);
        assert(out@.map_values(|w: String| w@) == before.map_values(|w: String| w@).push(w@));
    }
    out
}

/// Every complete line of a prefix stays a complete line, in the same place, of the longer
/// text: appending to a buffer only adds lines at the end.
pub proof fn lemma_complete_lines_extend(a: Seq<char>, b: Seq<char>)
    ensures
        complete_lines(a).len() <= complete_lines(a + b).len(),
        complete_lines(a) == complete_lines(a + b).take(complete_lines(a).len() as int),
    decreases b.len(),
{
    if b.len() == 0 {
        assert(a + b == a);
        assert(complete_lines(a).take(complete_lines(a).len() as int) == complete_lines(a));
    } else {
        lemma_complete_lines_extend(a, b.drop_last());
        assert((a + b).drop_last() == a + b.drop_last());
        let n = complete_lines(a).len() as int;
        let m = complete_lines(a + b.drop_last());
        assert(complete_lines(a + b).take(n) == m.take(n));
    }
}


/// Whether `a` and `b` hold the same characters.
pub fn same_text(a: &str, b: &str) -> (r: bool)
    ensures
        r == (a@ == b@),
{
    let x = chars_of(a);
    let y = chars_of(b);
    if x.len() != y.len() {
        return false;
    }
    let mut i: usize = 0;
    while i < x.len()
        invariant
            x@ == a@,
            y@ == b@,
            x.len() == y.len(),
            0 <= i <= x.len(),
            forall|k: int| 0 <= k < i ==> x@[k] == y@[k],
        decreases x.len() - i,
    {
        if x[i] != y[i] {
            return false;
        }
        i = i + 1;
    }
    assert(x@ == y@);
    true
}

/// A new string holding the characters of `s`.
pub fn owned(s: &str) -> (r: String)
    ensures
        r@ == s@,
{
    let v = chars_of(s);
    string_from_chars(&v, 0, v.len())
}

/// A new string holding `a` followed by `b`.
pub fn concat2(a: &str, b: &str) -> (r: String)
    ensures
        r@ == a@ + b@,
{
    let mut r = owned(a);
    r.append(b);
    r
}

/// A new string holding `a`, `b` and `c` one after another.
pub fn concat3(a: &str, b: &str, c: &str) -> (r: String)
    ensures
        r@ == a@ + b@ + c@,
{
    let mut r = owned(a);
    r.append(b);
    r.append(c);
    r
}


/// The lines of `lines` without their leading and trailing white space, leaving out those
/// that hold nothing else, in order.
pub open spec fn trimmed_nonblank(lines: Seq<Seq<char>>) -> Seq<Seq<char>>
    decreases lines.len(),
{
    if lines.len() == 0 {
        Seq::empty()
    } else {
        let rest = trimmed_nonblank(lines.drop_last());
        let t = trim(lines.last());
        if t.len() == 0 {
            rest
        } else {
            rest.push(t)
        }
    }
}

/// The complete lines of `s`, trimmed, leaving out the blank ones.
pub fn nonblank_complete_lines(s: &str) -> (r: Vec<String>)
    ensures
        r@.map_values(|l: String| l@) == trimmed_nonblank(complete_lines(s@)),
{
    let v = chars_of(s);
    let mut out: Vec<String> = Vec::new();
    let mut start: usize = 0;
    let mut i: usize = 0;
    while i < v.len()
        invariant
            0 <= start <= i <= v.len(),
            v@ == s@,
            out@.map_values(|l: String| l@) == trimmed_nonblank(complete_lines(v@.take(i as int))),
            v@.subrange(start as int, i as int) == pending_line(v@.take(i as int)),
        decreases v.len() - i,
    {
        let ghost prev = v@.take(i as int);
        assert(v@.take(i + 1).drop_last() == prev);
        if v[i] == '\n' {
            let ghost line = v@.subrange(start as int, i + 1);
            assert(line == pending_line(prev).push('\n'));
            assert(complete_lines(v@.take(i + 1)) == complete_lines(prev).push(line));
            assert(complete_lines(v@.take(i + 1)).drop_last() == complete_lines(prev));
            let (a, b) = trim_bounds(&v, start, i + 1);
            if a < b {
                let l = string_from_chars(&v, a, b);
                let ghost before = out@;
                out.push(l);
                assert(out@.map_values(|l: String| l@) == before.map_values(|l: String| l@).push(
                    l@,
                ));
            }
            start = i + 1;
        } else {
            assert(v@.subrange(start as int, i + 1) == v@.subrange(start as int, i as int).push(
                v@[i as int],
            ));
        }
        i = i + 1;
    }
    assert(v@.take(v@.len() as int) == v@);
    out
}

/// Trimming and dropping blank lines keeps the order: what a prefix of the lines gives is a
/// prefix of what all of them give.
pub proof fn lemma_trimmed_nonblank_prefix(lines: Seq<Seq<char>>, n: int)
    requires
        0 <= n <= lines.len(),
    ensures
        trimmed_nonblank(lines.take(n)).len() <= trimmed_nonblank(lines).len(),
        trimmed_nonblank(lines.take(n)) == trimmed_nonblank(lines).take(
            trimmed_nonblank(lines.take(n)).len() as int,
        ),
    decreases lines.len() - n,
{
    let a = trimmed_nonblank(lines.take(n));
    if n == lines.len() {
        assert(lines.take(n) == lines);
        assert(a.take(a.len() as int) == a);
    } else {
        lemma_trimmed_nonblank_prefix(lines.drop_last(), n);
        assert(lines.drop_last().take(n) == lines.take(n));
        let b = trimmed_nonblank(lines.drop_last());
        assert(trimmed_nonblank(lines).take(b.len() as int) == b);
        assert(trimmed_nonblank(lines).take(a.len() as int) == b.take(a.len() as int));
    }
}


/// The characters of all the lines of `lines`, one after another.
pub open spec fn joined_lines(lines: Seq<Seq<char>>) -> Seq<char>
    decreases lines.len(),
{
    if lines.len() == 0 {
        Seq::empty()
    } else {
        joined_lines(lines.drop_last()) + lines.last()
    }
}

/// Cutting text into complete lines loses nothing: the complete lines, followed by the line
/// that is still open, give back the text.
pub proof fn lemma_lines_cover_text(s: Seq<char>)
    ensures
        joined_lines(complete_lines(s)) + pending_line(s) == s,
    decreases s.len(),
{
    if s.len() > 0 {
        let p = s.drop_last();
        lemma_lines_cover_text(p);
        if s.last() == '\n' {
            assert(complete_lines(s).drop_last() == complete_lines(p));
            assert(joined_lines(complete_lines(s)) == joined_lines(complete_lines(p))
                + pending_line(p).push('\n'));
            assert(pending_line(s) == Seq::<char>::empty());
            assert(joined_lines(complete_lines(p)) + pending_line(p).push('\n') == (joined_lines(
                complete_lines(p),
            ) + pending_line(p)).push('\n'));
            assert(p.push('\n') == s);
            assert(joined_lines(complete_lines(s)) + pending_line(s) == joined_lines(
                complete_lines(s),
            ));
        } else {
            assert(joined_lines(complete_lines(p)) + pending_line(p).push(s.last()) == (joined_lines(
                complete_lines(p),
            ) + pending_line(p)).push(s.last()));
            assert(p.push(s.last()) == s);
        }
    }
}

/// Every complete line ends with its line feed and holds no other.
pub proof fn lemma_complete_lines_shape(s: Seq<char>)
    ensures
        forall|i: int|
            0 <= i < complete_lines(s).len() ==> {
                let l = #[trigger] complete_lines(s)[i];
                &&& l.len() > 0
                &&& l.last() == '\n'
                &&& forall|k: int| 0 <= k < l.len() - 1 ==> l[k] != '\n'
            },
        forall|k: int| 0 <= k < pending_line(s).len() ==> pending_line(s)[k] != '\n',
    decreases s.len(),
{
    if s.len() > 0 {
        let p = s.drop_last();
        lemma_complete_lines_shape(p);
        if s.last() == '\n' {
            let l = pending_line(p).push('\n');
            assert forall|i: int| 0 <= i < complete_lines(s).len() implies {
                let l = #[trigger] complete_lines(s)[i];
                &&& l.len() > 0
                &&& l.last() == '\n'
                &&& forall|k: int| 0 <= k < l.len() - 1 ==> l[k] != '\n'
            } by {
                if i < complete_lines(p).len() {
                    assert(complete_lines(s)[i] == complete_lines(p)[i]);
                } else {
                    assert(complete_lines(s)[i] == l);
                    assert forall|k: int| 0 <= k < l.len() - 1 implies l[k] != '\n' by {
                        assert(l[k] == pending_line(p)[k]);
                    }
                }
            }
        } else {
            assert forall|k: int| 0 <= k < pending_line(s).len() implies pending_line(s)[k]
                != '\n' by {
                if k < pending_line(p).len() {
                    assert(pending_line(s)[k] == pending_line(p)[k]);
                }
            }
        }
    }
}

/// Trimming twice is trimming once.
pub proof fn lemma_trim_idempotent(s: Seq<char>)
    ensures
        trim(trim(s)) == trim(s),
        trim(s).len() > 0 ==> !is_white_space(trim(s)[0]) && !is_white_space(trim(s).last()),
{
    lemma_trim_start_end(s);
    let t = trim(s);
    if t.len() > 0 {
        assert(trim_start(t) == t);
        assert(trim_end(t) == t);
    } else {
        assert(trim_start(t) == t);
        assert(trim_end(t) == t);
    }
}

/// What trimming leaves starts and ends with a character that is not white space.
proof fn lemma_trim_start_end(s: Seq<char>)
    ensures
        trim_start(s).len() > 0 ==> !is_white_space(trim_start(s)[0]),
        trim(s).len() > 0 ==> !is_white_space(trim(s)[0]) && !is_white_space(trim(s).last()),
    decreases s.len(),
{
    if s.len() > 0 && is_white_space(s[0]) {
        lemma_trim_start_end(s.drop_first());
        assert(trim_start(s) == trim_start(s.drop_first()));
    }
    let u = trim_start(s);
    lemma_trim_end_front(u);
}

/// Trimming the back keeps the front: the first character of what is left is the first
/// character of the text.
proof fn lemma_trim_end_front(u: Seq<char>)
    ensures
        trim_end(u).len() > 0 ==> trim_end(u)[0] == u[0] && !is_white_space(trim_end(u).last()),
        trim_end(u).len() <= u.len(),
    decreases u.len(),
{
    if u.len() > 0 && is_white_space(u.last()) {
        lemma_trim_end_front(u.drop_last());
    }
}

/// No word is empty and no word holds white space.
pub proof fn lemma_words_shape(s: Seq<char>)
    ensures
        forall|i: int|
            0 <= i < words(s).len() ==> {
                let w = #[trigger] words(s)[i];
                &&& w.len() > 0
                &&& forall|k: int| 0 <= k < w.len() ==> !is_white_space(w[k])
            },
{
    lemma_closed_words_shape(s);
}

proof fn lemma_closed_words_shape(s: Seq<char>)
    ensures
        forall|i: int|
            0 <= i < closed_words(s).len() ==> {
                let w = #[trigger] closed_words(s)[i];
                &&& w.len() > 0
                &&& forall|k: int| 0 <= k < w.len() ==> !is_white_space(w[k])
            },
        forall|k: int| 0 <= k < partial_word(s).len() ==> !is_white_space(partial_word(s)[k]),
    decreases s.len(),
{
    if s.len() > 0 {
        let p = s.drop_last();
        lemma_closed_words_shape(p);
        if is_white_space(s.last()) && partial_word(p).len() > 0 {
            assert forall|i: int| 0 <= i < closed_words(s).len() implies {
                let w = #[trigger] closed_words(s)[i];
                &&& w.len() > 0
                &&& forall|k: int| 0 <= k < w.len() ==> !is_white_space(w[k])
            } by {
                if i < closed_words(p).len() {
                    assert(closed_words(s)[i] == closed_words(p)[i]);
                }
            }
        }
        if !is_white_space(s.last()) {
            assert forall|k: int| 0 <= k < partial_word(s).len() implies !is_white_space(
                partial_word(s)[k],
            ) by {
                if k < partial_word(p).len() {
                    assert(partial_word(s)[k] == partial_word(p)[k]);
                }
            }
        }
    }
}


/// The characters after the last line feed of `s` (see `pending_line`).
pub fn pending_tail(s: &str) -> (r: String)
    ensures
        r@ == pending_line(s@),
{
    let v = chars_of(s);
    let mut start: usize = 0;
    let mut i: usize = 0;
    while i < v.len()
        invariant
            0 <= start <= i <= v.len(),
            v@ == s@,
            v@.subrange(start as int, i as int) == pending_line(v@.take(i as int)),
        decreases v.len() - i,
    {
        assert(v@.take(i + 1).drop_last() == v@.take(i as int));
        if v[i] == '\n' {
            start = i + 1;
        } else {
            assert(v@.subrange(start as int, i + 1) == v@.subrange(start as int, i as int).push(
                v@[i as int],
            ));
        }
        i = i + 1;
    }
    assert(v@.take(v@.len() as int) == v@);
    string_from_chars(&v, start, v.len())
}

/// Text without a line feed has no complete line: all of it is still open.
pub proof fn lemma_no_line_feed(s: Seq<char>)
    requires
        forall|k: int| 0 <= k < s.len() ==> s[k] != '\n',
    ensures
        complete_lines(s) == Seq::<Seq<char>>::empty(),
        pending_line(s) == s,
    decreases s.len(),
{
    if s.len() > 0 {
        let p = s.drop_last();
        assert forall|k: int| 0 <= k < p.len() implies p[k] != '\n' by {
            assert(p[k] == s[k]);
        }
        lemma_no_line_feed(p);
        assert(s.last() == s[s.len() - 1]);
        assert(p.push(s.last()) == s);
    }
}

/// Cutting `a + b` into lines is cutting `a`, then cutting the line `a` leaves open
/// followed by `b`.
pub proof fn lemma_complete_lines_split(a: Seq<char>, b: Seq<char>)
    ensures
        complete_lines(a + b) == complete_lines(a) + complete_lines(pending_line(a) + b),
        pending_line(a + b) == pending_line(pending_line(a) + b),
    decreases b.len(),
{
    let pa = pending_line(a);
    if b.len() == 0 {
        lemma_complete_lines_shape(a);
        lemma_no_line_feed(pa);
        assert(a + b == a);
        assert(pa + b == pa);
        assert(complete_lines(a) + Seq::<Seq<char>>::empty() == complete_lines(a));
    } else {
        let b0 = b.drop_last();
        lemma_complete_lines_split(a, b0);
        assert((a + b).drop_last() == a + b0);
        assert((pa + b).drop_last() == pa + b0);
        assert((a + b).last() == b.last());
        assert((pa + b).last() == b.last());
        if b.last() == '\n' {
            assert(complete_lines(a + b) == complete_lines(a + b0).push(
                pending_line(a + b0).push('\n'),
            ));
            assert(complete_lines(pa + b) == complete_lines(pa + b0).push(
                pending_line(pa + b0).push('\n'),
            ));
            assert(complete_lines(a) + complete_lines(pa + b) == (complete_lines(a)
                + complete_lines(pa + b0)).push(pending_line(pa + b0).push('\n')));
        } else {
            assert(complete_lines(a + b) == complete_lines(a + b0));
            assert(complete_lines(pa + b) == complete_lines(pa + b0));
        }
    }
}

/// Trimming and dropping blank lines works line by line: on two runs of lines one after
/// another it gives what it gives on each, one after another.
pub proof fn lemma_trimmed_nonblank_concat(x: Seq<Seq<char>>, y: Seq<Seq<char>>)
    ensures
        trimmed_nonblank(x + y) == trimmed_nonblank(x) + trimmed_nonblank(y),
    decreases y.len(),
{
    if y.len() == 0 {
        assert(x + y == x);
        assert(trimmed_nonblank(x) + trimmed_nonblank(y) == trimmed_nonblank(x));
    } else {
        let y0 = y.drop_last();
        lemma_trimmed_nonblank_concat(x, y0);
        assert((x + y).drop_last() == x + y0);
        assert((x + y).last() == y.last());
        if trim(y.last()).len() > 0 {
            assert(trimmed_nonblank(x) + trimmed_nonblank(y) == (trimmed_nonblank(x)
                + trimmed_nonblank(y0)).push(trim(y.last())));
        }
    }
}

} // verus!
