//! Character-sequence helpers shared by the formatting code: decimal
//! rendering, substring tests, padding and joining, all stated over
//! `Seq<char>` so that callers can phrase exact contracts.

use vstd::prelude::*;

verus! {

/// The ten decimal digit characters, in order.
pub open spec fn digit_char(d: nat) -> char {
    seq!['0', '1', '2', '3', '4', '5', '6', '7', '8', '9'][d as int]
}

/// Decimal rendering of a natural number, without leading zeros
/// (what `{}` produces for an unsigned integer).
pub open spec fn decimal(n: nat) -> Seq<char>
    decreases n,
{
    if n < 10 {
        seq![digit_char(n)]
    } else {
        decimal(n / 10).push(digit_char(n % 10))
    }
}

/// `String::push`: appends one character.
#[verifier::external_body]
pub(crate) fn push_char(s: &mut String, c: char)
    ensures
        final(s)@ == old(s)@.push(c),
{
    s.push(c);
}

/// Appends a string slice.
pub fn push_str(s: &mut String, t: &str)
    ensures
        final(s)@ == old(s)@ + t@,
{
    s.append(t);
}

/// Appends the decimal rendering of `n`.
pub fn push_decimal(s: &mut String, n: usize)
    ensures
        final(s)@ == old(s)@ + decimal(n as nat),
{
    push_decimal_u64(s, n as u64);
}

/// Appends the decimal rendering of a 64-bit `n`.
pub fn push_decimal_u64(s: &mut String, n: u64)
    ensures
        final(s)@ == old(s)@ + decimal(n as nat),
    decreases n,
{
    if n >= 10 {
        push_decimal_u64(s, n / 10);
    }
    let d = n % 10;
    let c = if d == 0 {
        '0'
    } else if d == 1 {
        '1'
    } else if d == 2 {
        '2'
    } else if d == 3 {
        '3'
    } else if d == 4 {
        '4'
    } else if d == 5 {
        '5'
    } else if d == 6 {
        '6'
    } else if d == 7 {
        '7'
    } else if d == 8 {
        '8'
    } else {
        '9'
    };
    push_char(s, c);
    assert(s@ =~= old(s)@ + decimal(n as nat));
}

/// Decimal rendering of `n` as a new string.
pub fn usize_to_string(n: usize) -> (r: String)
    ensures
        r@ == decimal(n as nat),
{
    let mut s = String::new();
    push_decimal(&mut s, n);
    assert(s@ =~= decimal(n as nat));
    s
}

/// The characters of `s`, collected into a vector.
pub fn chars_of(s: &str) -> (v: Vec<char>)
    ensures
        v@ == s@,
{
    let mut v: Vec<char> = Vec::new();
    for c in it: s.chars()
        invariant
            it.seq() == s@,
            v@ == it.seq().take(it.index() as int),
    {
        v.push(c);
        assert(v@ =~= it.seq().take(it.index() as int + 1));
    }
    assert(v@ =~= s@);
    v
}

/// `needle` occurs in `hay` starting at position `i`.
pub open spec fn occurs_at(hay: Seq<char>, needle: Seq<char>, i: int) -> bool {
    0 <= i && i + needle.len() <= hay.len() && hay.subrange(i, i + needle.len()) == needle
}

/// `needle` occurs somewhere in `hay` (`str::contains`).
pub open spec fn contains_seq(hay: Seq<char>, needle: Seq<char>) -> bool {
    exists|i: int| occurs_at(hay, needle, i)
}

/// `hay` starts with `p` (`str::starts_with`).
pub open spec fn starts_with(hay: Seq<char>, p: Seq<char>) -> bool {
    occurs_at(hay, p, 0)
}

/// `hay` ends with `p` (`str::ends_with`).
pub open spec fn ends_with(hay: Seq<char>, p: Seq<char>) -> bool {
    occurs_at(hay, p, hay.len() - p.len())
}

/// The first position at or after `i` at which `needle` occurs in `hay`.
pub open spec fn find_from(hay: Seq<char>, needle: Seq<char>, i: int) -> Option<int>
    decreases hay.len() + 1 - i,
{
    if i < 0 || i > hay.len() {
        None
    } else if occurs_at(hay, needle, i) {
        Some(i)
    } else {
        find_from(hay, needle, i + 1)
    }
}

/// The first position at which `needle` occurs in `hay` (`str::find`).
pub open spec fn find_first(hay: Seq<char>, needle: Seq<char>) -> Option<int> {
    find_from(hay, needle, 0)
}

/// `find_from` yields an occurrence at or after `i`, the first one there, and
/// yields nothing exactly when no occurrence lies at or after `i`.
pub proof fn lemma_find_from(hay: Seq<char>, needle: Seq<char>, i: int)
    requires
        0 <= i,
    ensures
        match find_from(hay, needle, i) {
            Some(k) => i <= k && occurs_at(hay, needle, k) && forall|j: int| i <= j < k ==> !occurs_at(hay, needle, j),
            None => forall|j: int| i <= j ==> !occurs_at(hay, needle, j),
        },
    decreases hay.len() + 1 - i,
{
    if i > hay.len() {
    } else if occurs_at(hay, needle, i) {
    } else {
        lemma_find_from(hay, needle, i + 1);
    }
}

/// `find_first` is defined exactly when the needle occurs.
pub proof fn lemma_find_first(hay: Seq<char>, needle: Seq<char>)
    ensures
        find_first(hay, needle) is Some <==> contains_seq(hay, needle),
        match find_first(hay, needle) {
            Some(k) => occurs_at(hay, needle, k) && forall|j: int| 0 <= j < k ==> !occurs_at(hay, needle, j),
            None => true,
        },
{
    lemma_find_from(hay, needle, 0);
    if contains_seq(hay, needle) {
        let w = choose|w: int| occurs_at(hay, needle, w);
        assert(occurs_at(hay, needle, w));
    }
}

/// Checks whether `needle` occurs in `hay` at position `i`.
pub fn matches_at(hay: &Vec<char>, needle: &Vec<char>, i: usize) -> (b: bool)
    ensures
        b == occurs_at(hay@, needle@, i as int),
{
    if i > hay.len() || needle.len() > hay.len() - i {
        return false;
    }
    let mut k: usize = 0;
    while k < needle.len()
        invariant
            i + needle.len() <= hay.len(),
            0 <= k <= needle@.len(),
            forall|m: int| 0 <= m < k ==> hay@[i + m] == needle@[m],
        decreases needle@.len() - k,
    {
        if hay[i + k] != needle[k] {
            assert(hay@.subrange(i as int, i + needle@.len())[k as int] != needle@[k as int]);
            return false;
        }
        k = k + 1;
    }
    assert(hay@.subrange(i as int, i + needle@.len()) =~= needle@);
    true
}

/// Position of the first occurrence of `needle` in `hay`, if any.
pub fn find_in(hay: &Vec<char>, needle: &Vec<char>) -> (r: Option<usize>)
    ensures
        match r {
            Some(i) => find_first(hay@, needle@) == Some(i as int),
            None => find_first(hay@, needle@) is None,
        },
{
    let mut i: usize = 0;
    while i <= hay.len()
        invariant
            find_first(hay@, needle@) == find_from(hay@, needle@, i as int),
        decreases hay@.len() + 1 - i,
    {
        if matches_at(hay, needle, i) {
            return Some(i);
        }
        if i == hay.len() {
            assert(find_from(hay@, needle@, i as int + 1) is None);
            return None;
        }
        i = i + 1;
    }
    None
}

/// Checks whether `hay` ends with `p`.
pub fn ends_with_vec(hay: &Vec<char>, p: &Vec<char>) -> (b: bool)
    ensures
        b == ends_with(hay@, p@),
{
    if p.len() > hay.len() {
        return false;
    }
    matches_at(hay, p, hay.len() - p.len())
}

/// Checks whether `hay` contains `needle`.
pub fn contains_vec(hay: &Vec<char>, needle: &Vec<char>) -> (b: bool)
    ensures
        b == contains_seq(hay@, needle@),
{
    proof {
        lemma_find_first(hay@, needle@);
    }
    match find_in(hay, needle) {
        Some(_) => true,
        None => false,
    }
}

/// `n` copies of `c`.
pub open spec fn repeat_char(c: char, n: nat) -> Seq<char> {
    Seq::new(n, |_i: int| c)
}

/// `s` padded on the right with spaces to at least `width` characters
/// (what `{:<width$}` produces).
pub open spec fn pad_right(s: Seq<char>, width: nat) -> Seq<char> {
    if s.len() >= width {
        s
    } else {
        s + repeat_char(' ', (width - s.len()) as nat)
    }
}

/// Appends `n` copies of `c`.
pub fn push_repeat(s: &mut String, c: char, n: usize)
    ensures
        final(s)@ == old(s)@ + repeat_char(c, n as nat),
{
    let mut k: usize = 0;
    while k < n
        invariant
            0 <= k <= n,
            s@ == old(s)@ + repeat_char(c, k as nat),
        decreases n - k,
    {
        push_char(s, c);
        assert(s@ =~= old(s)@ + repeat_char(c, (k + 1) as nat));
        k = k + 1;
    }
}

/// Appends `t` padded on the right with spaces to `width` characters.
pub fn push_padded(s: &mut String, t: &str, width: usize)
    ensures
        final(s)@ == old(s)@ + pad_right(t@, width as nat),
{
    let len = t.unicode_len();
    push_str(s, t);
    if len < width {
        push_repeat(s, ' ', width - len);
        assert(s@ =~= old(s)@ + pad_right(t@, width as nat));
    }
}

/// `str::lines`: the end (exclusive, past any `\n`) of the line that
/// starts at `i`.
pub open spec fn line_end(s: Seq<char>, i: int) -> int
    decreases s.len() - i,
{
    if i >= s.len() {
        s.len() as int
    } else if s[i] == '\n' {
        i + 1
    } else {
        line_end(s, i + 1)
    }
}

pub proof fn lemma_line_end_bounds(s: Seq<char>, i: int)
    requires
        0 <= i < s.len(),
    ensures
        i < line_end(s, i) <= s.len(),
    decreases s.len() - i,
{
    if s[i] != '\n' {
        if i + 1 < s.len() {
            lemma_line_end_bounds(s, i + 1);
        } else {
            assert(line_end(s, i + 1) == s.len());
        }
    }
}

/// A line without its terminator: a final `\n`, and a `\r` just before it.
pub open spec fn strip_line_terminator(l: Seq<char>) -> Seq<char> {
    if l.len() > 0 && l.last() == '\n' {
        let m = l.drop_last();
        if m.len() > 0 && m.last() == '\r' {
            m.drop_last()
        } else {
            m
        }
    } else {
        l
    }
}

/// The lines of `s` from position `i` on (`str::lines`).
pub open spec fn lines_from(s: Seq<char>, i: int) -> Seq<Seq<char>>
    decreases s.len() - i,
{
    if i < 0 || i >= s.len() {
        Seq::empty()
    } else {
        proof {
            lemma_line_end_bounds(s, i);
        }
        seq![strip_line_terminator(s.subrange(i, line_end(s, i)))] + lines_from(s, line_end(s, i))
    }
}

/// The lines of `s` (`str::lines`).
pub open spec fn lines_spec(s: Seq<char>) -> Seq<Seq<char>> {
    lines_from(s, 0)
}

/// The lines of `s`, each without its line terminator.
pub fn lines_of(s: &str) -> (v: Vec<String>)
    ensures
        v@.map_values(|l: String| l@) == lines_spec(s@),
{
    let cs = chars_of(s);
    let n = cs.len();
    let mut v: Vec<String> = Vec::new();
    let mut i: usize = 0;
    while i < n
        invariant
            cs@ == s@,
            n == cs@.len(),
            0 <= i <= n,
            v@.map_values(|l: String| l@) + lines_from(cs@, i as int) == lines_spec(cs@),
        decreases n - i,
    {
        proof {
            lemma_line_end_bounds(cs@, i as int);
        }
        let mut j = i;
        while j < n && cs[j] != '\n'
            invariant
                n == cs@.len(),
                i <= j <= n,
                line_end(cs@, i as int) == line_end(cs@, j as int),
                forall|q: int| i <= q < j ==> cs@[q] != '\n',
            decreases n - j,
        {
            j = j + 1;
        }
        let end = if j < n { j + 1 } else { n };
        assert(end == line_end(cs@, i as int));
        let mut stop = j;
        if j < n && j > i && cs[j - 1] == '\r' {
            stop = j - 1;
        }
        let mut line = String::new();
        let mut k = i;
        while k < stop
            invariant
                n == cs@.len(),
                i <= k <= stop <= n,
                line@ == cs@.subrange(i as int, k as int),
            decreases stop - k,
        {
            push_char(&mut line, cs[k]);
            assert(line@ =~= cs@.subrange(i as int, k + 1));
            k = k + 1;
        }
        proof {
            let seg = cs@.subrange(i as int, end as int);
            if j < n {
                assert(seg.last() == '\n');
                assert(seg.drop_last() =~= cs@.subrange(i as int, j as int));
                if j > i && cs@[j - 1] == '\r' {
                    assert(seg.drop_last().drop_last() =~= cs@.subrange(i as int, stop as int));
                }
            } else {
                assert(seg =~= cs@.subrange(i as int, stop as int));
                if seg.len() > 0 {
                    assert(seg.last() != '\n');
                }
            }
            assert(line@ == strip_line_terminator(seg));
        }
        let ghost before = v@.map_values(|l: String| l@);
        v.push(line);
        assert(v@.map_values(|l: String| l@) =~= before.push(strip_line_terminator(cs@.subrange(i as int, end as int))));
        assert(lines_from(cs@, i as int) =~= seq![strip_line_terminator(cs@.subrange(i as int, end as int))] + lines_from(cs@, end as int));
        i = end;
    }
    v
}

/// Number of characters of `s` (`str::chars().count()`).
pub fn char_count(s: &str) -> (n: usize)
    ensures
        n == s@.len(),
{
    s.unicode_len()
}

/// `s` with leading whitespace removed (`str::trim_start`), as the index of
/// its first non-whitespace character.
pub open spec fn first_non_ws(s: Seq<char>, i: int) -> int
    decreases s.len() - i,
{
    if i >= s.len() {
        s.len() as int
    } else if is_ws_char(s[i]) {
        first_non_ws(s, i + 1)
    } else {
        i
    }
}

/// `char::is_whitespace`: the Unicode `White_Space` characters.
pub open spec fn is_ws_char(c: char) -> bool {
    ('\u{9}' <= c && c <= '\u{d}') || c == ' ' || c == '\u{85}' || c == '\u{a0}' || c == '\u{1680}'
        || ('\u{2000}' <= c && c <= '\u{200a}') || c == '\u{2028}' || c == '\u{2029}'
        || c == '\u{202f}' || c == '\u{205f}' || c == '\u{3000}'
}

/// Whether `c` is whitespace (`char::is_whitespace`).
pub fn is_ws_exec(c: char) -> (b: bool)
    ensures
        b == is_ws_char(c),
{
    ('\u{9}' <= c && c <= '\u{d}') || c == ' ' || c == '\u{85}' || c == '\u{a0}' || c == '\u{1680}'
        || ('\u{2000}' <= c && c <= '\u{200a}') || c == '\u{2028}' || c == '\u{2029}'
        || c == '\u{202f}' || c == '\u{205f}' || c == '\u{3000}'
}

pub proof fn lemma_first_non_ws_bounds(s: Seq<char>, i: int)
    requires
        0 <= i <= s.len(),
    ensures
        i <= first_non_ws(s, i) <= s.len(),
    decreases s.len() - i,
{
    if i < s.len() && is_ws_char(s[i]) {
        lemma_first_non_ws_bounds(s, i + 1);
    }
}

/// `s.trim_start()`.
pub open spec fn trim_start_spec(s: Seq<char>) -> Seq<char> {
    s.subrange(first_non_ws(s, 0), s.len() as int)
}

/// The characters of `s` without leading whitespace.
pub fn trim_start_chars(s: &Vec<char>) -> (r: Vec<char>)
    ensures
        r@ == trim_start_spec(s@),
{
    proof {
        lemma_first_non_ws_bounds(s@, 0);
    }
    let mut i: usize = 0;
    while i < s.len() && is_ws_exec(s[i])
        invariant
            0 <= i <= s@.len(),
            first_non_ws(s@, 0) == first_non_ws(s@, i as int),
        decreases s@.len() - i,
    {
        i = i + 1;
    }
    let mut r: Vec<char> = Vec::new();
    let mut k = i;
    while k < s.len()
        invariant
            i <= k <= s@.len(),
            r@ == s@.subrange(i as int, k as int),
        decreases s@.len() - k,
    {
        r.push(s[k]);
        assert(r@ =~= s@.subrange(i as int, k + 1));
        k = k + 1;
    }
    r
}

/// `s` cut to at most `max` characters: unchanged when it fits, otherwise
/// its first `max - 1` characters and `…` (empty when `max` is 0).
pub open spec fn truncate_chars(s: Seq<char>, max: nat) -> Seq<char> {
    if s.len() <= max {
        s
    } else if max == 0 {
        Seq::empty()
    } else {
        s.take(max - 1) + seq!['\u{2026}']
    }
}

/// Truncate `s` to at most `max` characters, marking a cut with `…`.
pub fn truncate(s: &str, max: usize) -> (r: String)
    ensures
        r@ == truncate_chars(s@, max as nat),
        r@.len() <= max || r@ == s@,
{
    let cs = chars_of(s);
    if cs.len() <= max {
        return s.to_owned();
    }
    let mut r = String::new();
    if max == 0 {
        assert(r@ =~= truncate_chars(s@, max as nat));
        return r;
    }
    let mut k: usize = 0;
    while k < max - 1
        invariant
            cs@ == s@,
            max > 0,
            max <= cs@.len(),
            0 <= k <= max - 1,
            r@ == cs@.take(k as int),
        decreases max - 1 - k,
    {
        push_char(&mut r, cs[k]);
        assert(r@ =~= cs@.take(k + 1));
        k = k + 1;
    }
    push_char(&mut r, '\u{2026}');
    assert(r@ =~= truncate_chars(s@, max as nat));
    r
}

/// `s` padded on the left with spaces to at least `width` characters
/// (what `{:>width$}` produces).
pub open spec fn pad_left(s: Seq<char>, width: nat) -> Seq<char> {
    if s.len() >= width {
        s
    } else {
        repeat_char(' ', (width - s.len()) as nat) + s
    }
}

pub proof fn lemma_decimal_len(n: nat)
    ensures
        decimal(n).len() >= 1,
        n < 10 ==> decimal(n).len() == 1,
        n < 100 ==> decimal(n).len() <= 2,
        n < 1000 ==> decimal(n).len() <= 3,
    decreases n,
{
    if n >= 10 {
        lemma_decimal_len(n / 10);
    }
}

/// Appends the decimal rendering of `n`, right-aligned in `width` columns.
pub fn push_decimal_right(s: &mut String, n: usize, width: usize)
    ensures
        final(s)@ == old(s)@ + pad_left(decimal(n as nat), width as nat),
{
    let d = usize_to_string(n);
    let len = d.as_str().unicode_len();
    if len < width {
        push_repeat(s, ' ', width - len);
    }
    push_str(s, d.as_str());
    assert(s@ =~= old(s)@ + pad_left(decimal(n as nat), width as nat));
}

/// `parts` joined by `sep` (`[..].join(sep)`).
pub open spec fn join_seq(parts: Seq<Seq<char>>, sep: Seq<char>) -> Seq<char>
    decreases parts.len(),
{
    if parts.len() == 0 {
        Seq::empty()
    } else if parts.len() == 1 {
        parts[0]
    } else {
        join_seq(parts.drop_last(), sep) + sep + parts.last()
    }
}

/// The views of a sequence of strings.
pub open spec fn string_views(v: Seq<String>) -> Seq<Seq<char>> {
    v.map_values(|s: String| s@)
}

/// Joins strings with a separator.
pub fn join_strings(parts: &Vec<String>, sep: &str) -> (r: String)
    ensures
        r@ == join_seq(string_views(parts@), sep@),
{
    let mut r = String::new();
    let mut i: usize = 0;
    while i < parts.len()
        invariant
            0 <= i <= parts@.len(),
            r@ == join_seq(string_views(parts@.take(i as int)), sep@),
        decreases parts@.len() - i,
    {
        let ghost prev = string_views(parts@.take(i as int));
        if i > 0 {
            push_str(&mut r, sep);
        }
        push_str(&mut r, parts[i].as_str());
        proof {
            let cur = string_views(parts@.take(i + 1));
            assert(cur.drop_last() =~= prev);
            assert(cur.last() == parts@[i as int]@);
            if i == 0 {
                assert(cur.len() == 1);
                assert(r@ =~= cur[0]);
            }
        }
        i = i + 1;
    }
    assert(parts@.take(parts@.len() as int) =~= parts@);
    r
}

} // verus!

verus! {

/// The end (exclusive) of `s[..j]` without trailing whitespace.
pub open spec fn end_non_ws(s: Seq<char>, j: int) -> int
    decreases j,
{
    if j <= 0 {
        0
    } else if is_ws_char(s[j - 1]) {
        end_non_ws(s, j - 1)
    } else {
        j
    }
}

pub proof fn lemma_end_non_ws_bounds(s: Seq<char>, j: int)
    requires
        0 <= j <= s.len(),
    ensures
        0 <= end_non_ws(s, j) <= j,
    decreases j,
{
    if j > 0 && is_ws_char(s[j - 1]) {
        lemma_end_non_ws_bounds(s, j - 1);
    }
}

/// `s.trim()`: without leading and trailing whitespace.
pub open spec fn trim_spec(s: Seq<char>) -> Seq<char> {
    let a = first_non_ws(s, 0);
    let b = end_non_ws(s, s.len() as int);
    if a >= b { Seq::empty() } else { s.subrange(a, b) }
}

/// `s.trim()` as an owned string.
pub fn trim_str(s: &str) -> (r: String)
    ensures
        r@ == trim_spec(s@),
{
    let cs = chars_of(s);
    let n = cs.len();
    proof {
        lemma_first_non_ws_bounds(s@, 0);
        lemma_end_non_ws_bounds(s@, n as int);
    }
    let mut a: usize = 0;
    while a < n && is_ws_exec(cs[a])
        invariant
            cs@ == s@,
            n == cs@.len(),
            0 <= a <= n,
            first_non_ws(s@, 0) == first_non_ws(s@, a as int),
        decreases n - a,
    {
        a = a + 1;
    }
    let mut b: usize = n;
    while b > 0 && is_ws_exec(cs[b - 1])
        invariant
            cs@ == s@,
            n == cs@.len(),
            0 <= b <= n,
            end_non_ws(s@, n as int) == end_non_ws(s@, b as int),
        decreases b,
    {
        b = b - 1;
    }
    let mut r = String::new();
    if a >= b {
        assert(r@ =~= trim_spec(s@));
        return r;
    }
    let mut k = a;
    while k < b
        invariant
            cs@ == s@,
            a <= k <= b,
            b <= cs@.len(),
            r@ == s@.subrange(a as int, k as int),
        decreases b - k,
    {
        push_char(&mut r, cs[k]);
        assert(r@ =~= s@.subrange(a as int, k + 1));
        k = k + 1;
    }
    r
}

/// Whether two strings have the same characters.
pub fn str_eq(a: &str, b: &str) -> (r: bool)
    ensures
        r == (a@ == b@),
{
    let x = chars_of(a);
    let y = chars_of(b);
    if x.len() != y.len() {
        return false;
    }
    let mut i: usize = 0;
    while i < x.len()
        invariant
            x@ == a@,
            y@ == b@,
            x@.len() == y@.len(),
            0 <= i <= x@.len(),
            forall|j: int| 0 <= j < i ==> x@[j] == y@[j],
        decreases x@.len() - i,
    {
        if x[i] != y[i] {
            return false;
        }
        i = i + 1;
    }
    assert(a@ =~= b@);
    true
}

/// `s` without the suffix `p`, when it ends with it (`str::strip_suffix`).
pub fn strip_suffix(s: &str, p: &str) -> (r: Option<String>)
    ensures
        match r {
            Some(t) => ends_with(s@, p@) && t@ == s@.take(s@.len() - p@.len()),
            None => !ends_with(s@, p@),
        },
{
    let cs = chars_of(s);
    let ps = chars_of(p);
    if !ends_with_vec(&cs, &ps) {
        return None;
    }
    let m = cs.len() - ps.len();
    let mut t = String::new();
    let mut k: usize = 0;
    while k < m
        invariant
            cs@ == s@,
            m <= cs@.len(),
            0 <= k <= m,
            t@ == s@.take(k as int),
        decreases m - k,
    {
        push_char(&mut t, cs[k]);
        assert(t@ =~= s@.take(k + 1));
        k = k + 1;
    }
    Some(t)
}

} // verus!

verus! {

/// `s` without its last character (what `String::pop` leaves).
pub fn without_last_char(s: &str) -> (r: String)
    ensures
        r@ == (if s@.len() > 0 { s@.drop_last() } else { s@ }),
{
    let cs = chars_of(s);
    let mut r = String::new();
    if cs.len() == 0 {
        assert(r@ =~= s@);
        return r;
    }
    let m = cs.len() - 1;
    let mut k: usize = 0;
    while k < m
        invariant
            cs@ == s@,
            m + 1 == cs@.len(),
            0 <= k <= m,
            r@ == s@.take(k as int),
        decreases m - k,
    {
        push_char(&mut r, cs[k]);
        assert(r@ =~= s@.take(k + 1));
        k = k + 1;
    }
    assert(r@ =~= s@.drop_last());
    r
}

} // verus!
