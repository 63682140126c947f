//! Character-level string helpers with exact specifications.
//!
//! Strings are specified by their view, the sequence of their characters.

use vstd::prelude::*;

verus! {

/// Appends one character to a string (`String::push`).
#[verifier::external_body]
pub(crate) fn push_char(s: &mut String, c: char)
    ensures
        final(s)@ == old(s)@.push(c),
{
    s.push(c)
}

/// The characters of a string slice, in order.
pub fn chars_of(s: &str) -> (v: Vec<char>)
    ensures
        v@ == s@,
{
    let mut v: Vec<char> = Vec::new();
    for c in it: s.chars()
        invariant
            v@ == it.seq().take(it.index() as int),
            it.seq() == s@,
    {
        v.push(c);
    }
    v
}

/// The string made of the given characters.
pub fn string_of(v: &[char]) -> (s: String)
    ensures
        s@ == v@,
{
    let mut s = String::new();
    let mut i: usize = 0;
    while i < v.len()
        invariant
            i <= v.len(),
            s@ == v@.take(i as int),
        decreases v.len() - i,
    {
        push_char(&mut s, v[i]);
        assert(v@.take(i as int + 1) == v@.take(i as int).push(v@[i as int]));
        i = i + 1;
    }
    assert(v@.take(v.len() as int) == v@);
    s
}

/// Appends the characters of `v` to `s`.
pub fn push_chars(s: &mut String, v: &[char])
    ensures
        final(s)@ == old(s)@ + v@,
{
    let mut i: usize = 0;
    while i < v.len()
        invariant
            i <= v.len(),
            s@ == old(s)@ + v@.take(i as int),
        decreases v.len() - i,
    {
        push_char(s, v[i]);
        assert(v@.take(i as int + 1) == v@.take(i as int).push(v@[i as int]));
        i = i + 1;
    }
    assert(v@.take(v.len() as int) == v@);
}

/// `s` ends with `suffix`.
pub open spec fn ends_with(s: Seq<char>, suffix: Seq<char>) -> bool {
    suffix.len() <= s.len() && s.skip(s.len() - suffix.len()) == suffix
}

/// `s` starts with `prefix`.
pub open spec fn starts_with(s: Seq<char>, prefix: Seq<char>) -> bool {
    prefix.len() <= s.len() && s.take(prefix.len() as int) == prefix
}

/// `s`, with `suffix` appended unless `s` already ends with it.
pub open spec fn with_suffix(s: Seq<char>, suffix: Seq<char>) -> Seq<char> {
    if ends_with(s, suffix) {
        s
    } else {
        s + suffix
    }
}

/// `s` with a trailing `suffix` removed, if it has one.
pub open spec fn without_suffix(s: Seq<char>, suffix: Seq<char>) -> Seq<char> {
    if ends_with(s, suffix) {
        s.take(s.len() - suffix.len())
    } else {
        s
    }
}

/// Whether the characters `s` end with the characters `suffix`.
pub fn chars_end_with(s: &[char], suffix: &[char]) -> (b: bool)
    ensures
        b == ends_with(s@, suffix@),
{
    if suffix.len() > s.len() {
        return false;
    }
    let start = s.len() - suffix.len();
    let mut i: usize = 0;
    while i < suffix.len()
        invariant
            start + suffix.len() == s.len(),
            i <= suffix.len(),
            forall|k: int| 0 <= k < i ==> s@[start + k] == suffix@[k],
        decreases suffix.len() - i,
    {
        if s[start + i] != suffix[i] {
            assert(s@.skip(start as int)[i as int] != suffix@[i as int]);
            return false;
        }
        i = i + 1;
    }
    assert(s@.skip(start as int) =~= suffix@);
    true
}

/// Whether the string `s` ends with `suffix` (`str::ends_with`).
pub fn str_ends_with(s: &str, suffix: &str) -> (b: bool)
    ensures
        b == ends_with(s@, suffix@),
{
    let v = chars_of(s);
    let w = chars_of(suffix);
    chars_end_with(&v, &w)
}

/// Whether the string `s` starts with `prefix` (`str::starts_with`).
pub fn str_starts_with(s: &str, prefix: &str) -> (b: bool)
    ensures
        b == starts_with(s@, prefix@),
{
    let v = chars_of(s);
    let w = chars_of(prefix);
    if w.len() > v.len() {
        return false;
    }
    let mut i: usize = 0;
    while i < w.len()
        invariant
            v@ == s@,
            w@ == prefix@,
            w.len() <= v.len(),
            i <= w.len(),
            forall|k: int| 0 <= k < i ==> v@[k] == w@[k],
        decreases w.len() - i,
    {
        if v[i] != w[i] {
            assert(v@.take(w.len() as int)[i as int] != w@[i as int]);
            return false;
        }
        i = i + 1;
    }
    assert(v@.take(w.len() as int) =~= w@);
    true
}

/// `s` with `suffix` appended unless it already ends with it.
pub fn with_suffix_string(s: &str, suffix: &str) -> (r: String)
    ensures
        r@ == with_suffix(s@, suffix@),
{
    let mut r = s.to_owned();
    if !str_ends_with(s, suffix) {
        let w = chars_of(suffix);
        push_chars(&mut r, &w);
    }
    r
}

/// `s` with a trailing `suffix` removed, if it has one (`str::strip_suffix`).
pub fn without_suffix_string(s: &str, suffix: &str) -> (r: String)
    ensures
        r@ == without_suffix(s@, suffix@),
{
    let v = chars_of(s);
    let w = chars_of(suffix);
    if chars_end_with(&v, &w) {
        let keep = v.len() - w.len();
        let mut u: Vec<char> = Vec::new();
        let mut i: usize = 0;
        while i < keep
            invariant
                keep <= v.len(),
                i <= keep,
                u@ == v@.take(i as int),
            decreases keep - i,
        {
            u.push(v[i]);
            assert(v@.take(i as int + 1) == v@.take(i as int).push(v@[i as int]));
            i = i + 1;
        }
        string_of(&u)
    } else {
        s.to_owned()
    }
}


/// The views of a sequence of strings.
pub open spec fn views(v: Seq<String>) -> Seq<Seq<char>> {
    v.map_values(|w: String| w@)
}

/// The index of the last `c` in `p`, or -1 when it has none.
pub open spec fn last_index(p: Seq<char>, c: char) -> int
    decreases p.len(),
{
    if p.len() == 0 {
        -1
    } else if p.last() == c {
        p.len() - 1
    } else {
        last_index(p.drop_last(), c)
    }
}

/// The index of the first `c` in `p`, or its length when it has none.
pub open spec fn first_index(p: Seq<char>, c: char) -> int
    decreases p.len(),
{
    if p.len() == 0 {
        0
    } else if p[0] == c {
        0
    } else {
        1 + first_index(p.drop_first(), c)
    }
}

/// `c` does not occur in `s`.
pub open spec fn lacks(s: Seq<char>, c: char) -> bool {
    forall|i: int| 0 <= i < s.len() ==> s[i] != c
}

/// The parts joined into one sequence, `sep` between each two (`join` on slices).
pub open spec fn join(parts: Seq<Seq<char>>, sep: char) -> Seq<char>
    decreases parts.len(),
{
    if parts.len() == 0 {
        Seq::empty()
    } else if parts.len() == 1 {
        parts[0]
    } else {
        parts[0] + seq![sep] + join(parts.drop_first(), sep)
    }
}

/// The pieces of `s` between occurrences of `sep`, the first piece starting
/// with `cur` (helper of `split`).
pub open spec fn split_from(s: Seq<char>, sep: char, cur: Seq<char>) -> Seq<Seq<char>>
    decreases s.len(),
{
    if s.len() == 0 {
        seq![cur]
    } else if s[0] == sep {
        seq![cur] + split_from(s.drop_first(), sep, Seq::empty())
    } else {
        split_from(s.drop_first(), sep, cur.push(s[0]))
    }
}

/// The pieces of `s` between occurrences of `sep` (`str::split` on a character):
/// always at least one piece, possibly empty ones.
pub open spec fn split(s: Seq<char>, sep: char) -> Seq<Seq<char>> {
    split_from(s, sep, Seq::empty())
}

/// Joining one more part.
pub proof fn lemma_join_push(parts: Seq<Seq<char>>, x: Seq<char>, sep: char)
    ensures
        join(parts.push(x), sep) == (if parts.len() == 0 {
            x
        } else {
            join(parts, sep) + seq![sep] + x
        }),
    decreases parts.len(),
{
    if parts.len() == 0 {
        assert(parts.push(x)[0] == x);
    } else if parts.len() == 1 {
        assert(parts.push(x).drop_first() =~= seq![x]);
        assert(join(seq![x], sep) == x);
        assert(parts.push(x)[0] == parts[0]);
    } else {
        lemma_join_push(parts.drop_first(), x, sep);
        assert(parts.push(x).drop_first() =~= parts.drop_first().push(x));
        assert(join(parts.push(x), sep) =~= join(parts, sep) + seq![sep] + x);
    }
}

/// A run of characters without `sep` is taken into the current piece.
pub proof fn lemma_split_from_run(a: Seq<char>, rest: Seq<char>, sep: char, cur: Seq<char>)
    requires
        lacks(a, sep),
    ensures
        split_from(a + rest, sep, cur) == split_from(rest, sep, cur + a),
    decreases a.len(),
{
    if a.len() == 0 {
        assert(a + rest =~= rest);
        assert(cur + a =~= cur);
    } else {
        assert((a + rest).drop_first() =~= a.drop_first() + rest);
        assert((a + rest)[0] == a[0]);
        lemma_split_from_run(a.drop_first(), rest, sep, cur.push(a[0]));
        assert(cur.push(a[0]) + a.drop_first() =~= cur + a);
    }
}

/// Splitting what was joined gives back the parts, when no part holds the separator.
pub proof fn lemma_split_join(parts: Seq<Seq<char>>, sep: char)
    requires
        parts.len() >= 1,
        forall|i: int| 0 <= i < parts.len() ==> lacks(#[trigger] parts[i], sep),
    ensures
        split(join(parts, sep), sep) == parts,
    decreases parts.len(),
{
    let p0 = parts[0];
    if parts.len() == 1 {
        lemma_split_from_run(p0, Seq::empty(), sep, Seq::empty());
        assert(p0 + Seq::<char>::empty() =~= p0);
        assert(Seq::<char>::empty() + p0 =~= p0);
        assert(split(join(parts, sep), sep) =~= parts);
    } else {
        let rest = parts.drop_first();
        assert(forall|i: int| 0 <= i < rest.len() ==> rest[i] == parts[i + 1]);
        lemma_split_join(rest, sep);
        let tail = seq![sep] + join(rest, sep);
        assert(join(parts, sep) =~= p0 + tail);
        lemma_split_from_run(p0, tail, sep, Seq::empty());
        assert(Seq::<char>::empty() + p0 =~= p0);
        assert(tail.drop_first() =~= join(rest, sep));
        assert(split(join(parts, sep), sep) =~= seq![p0] + rest);
        assert(seq![p0] + rest =~= parts);
    }
}

/// Appends the strings, `sep` between each two.
pub fn push_joined(r: &mut String, parts: &Vec<String>, sep: char)
    ensures
        final(r)@ == old(r)@ + join(views(parts@), sep),
{
    let ghost vs = views(parts@);
    let ghost start = r@;
    assert(r@ =~= start + join(vs.take(0), sep));
    for i in 0..parts.len()
        invariant
            vs == views(parts@),
            r@ == start + join(vs.take(i as int), sep),
    {
        proof {
            lemma_join_push(vs.take(i as int), vs[i as int], sep);
            assert(vs.take(i as int + 1) =~= vs.take(i as int).push(vs[i as int]));
        }
        let ghost before = r@;
        if i > 0 {
            push_char(r, sep);
        }
        let w = chars_of(parts[i].as_str());
        push_chars(r, &w);
        assert(r@ =~= start + join(vs.take(i as int + 1), sep));
    }
    assert(vs.take(parts.len() as int) =~= vs);
}

/// Joins the strings with `sep` between each two.
pub fn join_strings(parts: &Vec<String>, sep: char) -> (r: String)
    ensures
        r@ == join(views(parts@), sep),
{
    let mut r = String::new();
    push_joined(&mut r, parts, sep);
    assert(r@ =~= join(views(parts@), sep));
    r
}

/// Splitting at the first separator.
pub proof fn lemma_split_first(s: Seq<char>, i: int, sep: char)
    requires
        0 <= i < s.len(),
        lacks(s.take(i), sep),
        s[i] == sep,
    ensures
        split(s, sep) == seq![s.take(i)] + split(s.skip(i + 1), sep),
{
    lemma_split_from_run(s.take(i), s.skip(i), sep, Seq::empty());
    assert(s.take(i) + s.skip(i) =~= s);
    assert(Seq::<char>::empty() + s.take(i) =~= s.take(i));
    assert(s.skip(i)[0] == sep);
    assert(s.skip(i).drop_first() =~= s.skip(i + 1));
}

/// Splitting a text without the separator gives the text alone.
pub proof fn lemma_split_none(s: Seq<char>, sep: char)
    requires
        lacks(s, sep),
    ensures
        split(s, sep) == seq![s],
{
    lemma_split_from_run(s, Seq::empty(), sep, Seq::empty());
    assert(s + Seq::<char>::empty() =~= s);
    assert(Seq::<char>::empty() + s =~= s);
}

/// Splitting always gives at least one piece.
pub proof fn lemma_split_from_len(s: Seq<char>, sep: char, cur: Seq<char>)
    ensures
        split_from(s, sep, cur).len() >= 1,
    decreases s.len(),
{
    if s.len() > 0 {
        if s[0] == sep {
            lemma_split_from_len(s.drop_first(), sep, Seq::empty());
        } else {
            lemma_split_from_len(s.drop_first(), sep, cur.push(s[0]));
        }
    }
}

/// The first index at or after `from` where `c` stands, or the length.
pub fn find_char(v: &[char], c: char, from: usize) -> (r: usize)
    requires
        from <= v.len(),
    ensures
        from <= r <= v.len(),
        lacks(v@.subrange(from as int, r as int), c),
        r < v.len() ==> v@[r as int] == c,
{
    let mut i = from;
    while i < v.len() && v[i] != c
        invariant
            from <= i <= v.len(),
            lacks(v@.subrange(from as int, i as int), c),
        decreases v.len() - i,
    {
        assert(v@.subrange(from as int, i as int + 1) =~= v@.subrange(from as int, i as int).push(
            v@[i as int],
        ));
        i = i + 1;
    }
    i
}

/// The characters of `v` from `from` up to `to`.
pub fn sub_chars(v: &[char], from: usize, to: usize) -> (r: Vec<char>)
    requires
        from <= to <= v.len(),
    ensures
        r@ == v@.subrange(from as int, to as int),
{
    let mut u: Vec<char> = Vec::new();
    let mut k: usize = from;
    while k < to
        invariant
            from <= k <= to <= v.len(),
            u@ == v@.subrange(from as int, k as int),
        decreases to - k,
    {
        u.push(v[k]);
        assert(v@.subrange(from as int, k as int + 1) =~= v@.subrange(from as int, k as int).push(
            v@[k as int],
        ));
        k = k + 1;
    }
    u
}

/// The pieces of `v` between occurrences of `sep` (`str::split`).
pub fn split_chars(v: &[char], sep: char) -> (r: Vec<String>)
    ensures
        views(r@) == split(v@, sep),
{
    let mut out: Vec<String> = Vec::new();
    let mut cur: Vec<char> = Vec::new();
    let mut i: usize = 0;
    assert(v@.skip(0) =~= v@);
    while i < v.len()
        invariant
            i <= v.len(),
            views(out@) + split_from(v@.skip(i as int), sep, cur@) == split(v@, sep),
        decreases v.len() - i,
    {
        let ghost rest = v@.skip(i as int);
        assert(rest[0] == v@[i as int]);
        assert(rest.drop_first() =~= v@.skip(i as int + 1));
        if v[i] == sep {
            let piece = string_of(&cur);
            let ghost old_out = views(out@);
            out.push(piece);
            assert(views(out@) =~= old_out.push(piece@));
            assert(views(out@) + split_from(v@.skip(i as int + 1), sep, Seq::empty()) =~= old_out
                + split_from(rest, sep, cur@));
            cur = Vec::new();
        } else {
            cur.push(v[i]);
        }
        i = i + 1;
    }
    let piece = string_of(&cur);
    let ghost old_out = views(out@);
    out.push(piece);
    assert(views(out@) =~= old_out.push(piece@));
    assert(views(out@) =~= old_out + split_from(v@.skip(i as int), sep, cur@));
    out
}


/// `s` without one trailing carriage return.
pub open spec fn strip_cr(s: Seq<char>) -> Seq<char> {
    if s.len() > 0 && s.last() == '\r' {
        s.drop_last()
    } else {
        s
    }
}

/// The lines of `s`, the first starting with `cur` (helper of `lines`).
pub open spec fn lines_from(s: Seq<char>, cur: Seq<char>) -> Seq<Seq<char>>
    decreases s.len(),
{
    if s.len() == 0 {
        if cur.len() == 0 {
            Seq::empty()
        } else {
            seq![cur]
        }
    } else if s[0] == '\n' {
        seq![strip_cr(cur)] + lines_from(s.drop_first(), Seq::empty())
    } else {
        lines_from(s.drop_first(), cur.push(s[0]))
    }
}

/// The lines of `s` (`str::lines`): split at `\n`, a `\r` right before a `\n`
/// dropped with it, and no empty line after a final `\n`.
pub open spec fn lines(s: Seq<char>) -> Seq<Seq<char>> {
    lines_from(s, Seq::empty())
}

/// A run of characters without a newline is taken into the current line.
pub proof fn lemma_lines_from_run(a: Seq<char>, rest: Seq<char>, cur: Seq<char>)
    requires
        lacks(a, '\n'),
    ensures
        lines_from(a + rest, cur) == lines_from(rest, cur + a),
    decreases a.len(),
{
    if a.len() == 0 {
        assert(a + rest =~= rest);
        assert(cur + a =~= cur);
    } else {
        assert((a + rest).drop_first() =~= a.drop_first() + rest);
        assert((a + rest)[0] == a[0]);
        lemma_lines_from_run(a.drop_first(), rest, cur.push(a[0]));
        assert(cur.push(a[0]) + a.drop_first() =~= cur + a);
    }
}

/// A line that can be written and read back unchanged: no newline in it and no
/// carriage return at its end.
pub open spec fn plain_line(l: Seq<char>) -> bool {
    lacks(l, '\n') && (l.len() == 0 || l.last() != '\r')
}

/// Reading the lines of text joined with newlines gives back the lines, when
/// each is a plain line and the last is not empty.
pub proof fn lemma_lines_join(ls: Seq<Seq<char>>)
    requires
        forall|i: int| 0 <= i < ls.len() ==> plain_line(#[trigger] ls[i]),
        ls.len() == 0 || ls.last().len() > 0,
    ensures
        lines(join(ls, '\n')) == ls,
    decreases ls.len(),
{
    if ls.len() == 0 {
        assert(lines(join(ls, '\n')) =~= ls);
    } else if ls.len() == 1 {
        let p0 = ls[0];
        assert(plain_line(ls[0]));
        lemma_lines_from_run(p0, Seq::empty(), Seq::empty());
        assert(p0 + Seq::<char>::empty() =~= p0);
        assert(Seq::<char>::empty() + p0 =~= p0);
        assert(lines(join(ls, '\n')) =~= ls);
    } else {
        let p0 = ls[0];
        assert(plain_line(ls[0]));
        let rest = ls.drop_first();
        assert(forall|i: int| 0 <= i < rest.len() ==> rest[i] == ls[i + 1]);
        assert(rest.last() == ls.last());
        lemma_lines_join(rest);
        let tail = seq!['\n'] + join(rest, '\n');
        assert(join(ls, '\n') =~= p0 + tail);
        lemma_lines_from_run(p0, tail, Seq::empty());
        assert(Seq::<char>::empty() + p0 =~= p0);
        assert(tail.drop_first() =~= join(rest, '\n'));
        assert(strip_cr(p0) == p0);
        assert(lines(join(ls, '\n')) =~= seq![p0] + rest);
        assert(seq![p0] + rest =~= ls);
    }
}

/// The lines of `v` (`str::lines`).
pub fn lines_of(v: &[char]) -> (r: Vec<String>)
    ensures
        views(r@) == lines(v@),
{
    let mut out: Vec<String> = Vec::new();
    let mut cur: Vec<char> = Vec::new();
    let mut i: usize = 0;
    assert(v@.skip(0) =~= v@);
    while i < v.len()
        invariant
            i <= v.len(),
            views(out@) + lines_from(v@.skip(i as int), cur@) == lines(v@),
        decreases v.len() - i,
    {
        let ghost rest = v@.skip(i as int);
        assert(rest[0] == v@[i as int]);
        assert(rest.drop_first() =~= v@.skip(i as int + 1));
        if v[i] == '\n' {
            let ghost cur0 = cur@;
            if cur.len() > 0 && cur[cur.len() - 1] == '\r' {
                cur.pop();
                assert(cur@ =~= cur0.drop_last());
            }
            assert(cur@ == strip_cr(cur0));
            let piece = string_of(&cur);
            let ghost old_out = views(out@);
            out.push(piece);
            assert(views(out@) =~= old_out.push(piece@));
            assert(views(out@) + lines_from(v@.skip(i as int + 1), Seq::empty()) =~= old_out
                + lines_from(rest, cur0));
            cur = Vec::new();
        } else {
            cur.push(v[i]);
        }
        i = i + 1;
    }
    if cur.len() > 0 {
        let piece = string_of(&cur);
        let ghost old_out = views(out@);
        out.push(piece);
        assert(views(out@) =~= old_out.push(piece@));
        assert(views(out@) =~= old_out + lines_from(v@.skip(i as int), cur@));
    } else {
        assert(views(out@) =~= views(out@) + lines_from(v@.skip(i as int), cur@));
    }
    out
}

/// The Unicode `White_Space` property (PropList.txt), which `char::is_whitespace` tests.
pub open spec fn is_white_space(c: char) -> bool {
    let n = c as u32;
    (0x9 <= n <= 0xD) || n == 0x20 || n == 0x85 || n == 0xA0 || n == 0x1680 || (0x2000 <= n
        <= 0x200A) || n == 0x2028 || n == 0x2029 || n == 0x202F || n == 0x205F || n == 0x3000
}

/// Whether `c` is white space.
pub fn white_space(c: char) -> (b: bool)
    ensures
        b == is_white_space(c),
{
    let n = c as u32;
    (0x9 <= n && n <= 0xD) || n == 0x20 || n == 0x85 || n == 0xA0 || n == 0x1680 || (0x2000 <= n
        && n <= 0x200A) || n == 0x2028 || n == 0x2029 || n == 0x202F || n == 0x205F || n == 0x3000
}

/// The words of `s`, the first starting with `cur` (helper of `words`).
pub open spec fn words_from(s: Seq<char>, cur: Seq<char>) -> Seq<Seq<char>>
    decreases s.len(),
{
    if s.len() == 0 {
        if cur.len() == 0 {
            Seq::empty()
        } else {
            seq![cur]
        }
    } else if is_white_space(s[0]) {
        (if cur.len() == 0 {
            Seq::empty()
        } else {
            seq![cur]
        }) + words_from(s.drop_first(), Seq::empty())
    } else {
        words_from(s.drop_first(), cur.push(s[0]))
    }
}

/// The maximal runs of non-white-space characters of `s`, in order
/// (`str::split_whitespace`).
pub open spec fn words(s: Seq<char>) -> Seq<Seq<char>> {
    words_from(s, Seq::empty())
}

/// The words of `s` (`str::split_whitespace`).
pub fn split_whitespace(s: &str) -> (r: Vec<String>)
    ensures
        views(r@) == words(s@),
{
    let v = chars_of(s);
    let mut out: Vec<String> = Vec::new();
    let mut cur: Vec<char> = Vec::new();
    let mut i: usize = 0;
    assert(v@.skip(0) =~= v@);
    while i < v.len()
        invariant
            v@ == s@,
            i <= v.len(),
            views(out@) + words_from(v@.skip(i as int), cur@) == words(s@),
        decreases v.len() - i,
    {
        let ghost rest = v@.skip(i as int);
        assert(rest[0] == v@[i as int]);
        assert(rest.drop_first() =~= v@.skip(i as int + 1));
        if white_space(v[i]) {
            if cur.len() > 0 {
                let piece = string_of(&cur);
                let ghost old_out = views(out@);
                out.push(piece);
                assert(views(out@) =~= old_out.push(piece@));
                assert(views(out@) + words_from(v@.skip(i as int + 1), Seq::empty()) =~= old_out
                    + words_from(rest, cur@));
                cur = Vec::new();
            } else {
                assert(cur@ =~= Seq::<char>::empty());
                assert(views(out@) + words_from(v@.skip(i as int + 1), Seq::empty()) =~= views(
                    out@,
                ) + words_from(rest, cur@));
            }
        } else {
            let ghost cur0 = cur@;
            cur.push(v[i]);
            assert(words_from(rest, cur0) == words_from(v@.skip(i as int + 1), cur@));
        }
        i = i + 1;
    }
    if cur.len() > 0 {
        let piece = string_of(&cur);
        let ghost old_out = views(out@);
        out.push(piece);
        assert(views(out@) =~= old_out.push(piece@));
        assert(views(out@) =~= old_out + words_from(v@.skip(i as int), cur@));
    } else {
        assert(views(out@) =~= views(out@) + words_from(v@.skip(i as int), cur@));
    }
    out
}

/// `s` without its leading white space.
pub open spec fn trim_start(s: Seq<char>) -> Seq<char>
    decreases s.len(),
{
    if s.len() > 0 && is_white_space(s[0]) {
        trim_start(s.drop_first())
    } else {
        s
    }
}

/// `s` without its trailing white space.
pub open spec fn trim_end(s: Seq<char>) -> Seq<char>
    decreases s.len(),
{
    if s.len() > 0 && is_white_space(s.last()) {
        trim_end(s.drop_last())
    } else {
        s
    }
}

/// `s` without leading and trailing white space (`str::trim`).
pub open spec fn trim(s: Seq<char>) -> Seq<char> {
    trim_end(trim_start(s))
}

/// `s` without leading and trailing white space (`str::trim`).
pub fn trim_string(s: &str) -> (r: String)
    ensures
        r@ == trim(s@),
{
    let v = chars_of(s);
    let mut i: usize = 0;
    assert(v@.skip(0) =~= v@);
    while i < v.len() && white_space(v[i])
        invariant
            v@ == s@,
            i <= v.len(),
            trim_start(v@.skip(i as int)) == trim_start(s@),
        decreases v.len() - i,
    {
        assert(v@.skip(i as int).drop_first() =~= v@.skip(i as int + 1));
        i = i + 1;
    }
    let mut j: usize = v.len();
    assert(v@.skip(i as int) =~= v@.subrange(i as int, j as int));
    while j > i && white_space(v[j - 1])
        invariant
            v@ == s@,
            i <= j <= v.len(),
            trim_start(s@) == v@.skip(i as int),
            trim_end(v@.subrange(i as int, j as int)) == trim(s@),
        decreases j,
    {
        assert(v@.subrange(i as int, j as int).drop_last() =~= v@.subrange(i as int, j as int - 1));
        j = j - 1;
    }
    let mut u: Vec<char> = Vec::new();
    let mut k: usize = i;
    while k < j
        invariant
            i <= k <= j <= v.len(),
            u@ == v@.subrange(i as int, k as int),
        decreases j - k,
    {
        u.push(v[k]);
        assert(v@.subrange(i as int, k as int + 1) =~= v@.subrange(i as int, k as int).push(
            v@[k as int],
        ));
        k = k + 1;
    }
    string_of(&u)
}


/// Whether two strings are equal.
pub fn str_eq(a: &str, b: &str) -> (r: bool)
    ensures
        r == (a@ == b@),
{
    let u = chars_of(a);
    let v = chars_of(b);
    if u.len() != v.len() {
        return false;
    }
    let mut i: usize = 0;
    while i < u.len()
        invariant
            u@ == a@,
            v@ == b@,
            u.len() == v.len(),
            i <= u.len(),
            forall|k: int| 0 <= k < i ==> u@[k] == v@[k],
        decreases u.len() - i,
    {
        if u[i] != v[i] {
            return false;
        }
        i = i + 1;
    }
    assert(u@ =~= v@);
    true
}


/// Appends the string `t` to `r`.
pub fn push_str(r: &mut String, t: &str)
    ensures
        final(r)@ == old(r)@ + t@,
{
    let v = chars_of(t);
    push_chars(r, &v);
}

} // verus!
