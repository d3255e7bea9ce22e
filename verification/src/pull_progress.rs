//! Pull progress display: cleaning podman's stderr chatter, counting the
//! blob transfers it reports, and laying out the three-line viewport that
//! a terminal shows while an image is pulled. Everything here computes
//! text; the caller writes it to the terminal.

use vstd::prelude::*;
use vstd::utf8::*;
use vstd::string::*;

use crate::text::{
    char_count, chars_of, contains_seq, contains_vec, decimal, ends_with, ends_with_vec, find_first, find_in,
    lemma_find_first, occurs_at, pad_right, push_char, push_decimal, push_padded, push_repeat,
    push_str, repeat_char, truncate,
};

verus! {

broadcast use vstd::utf8::group_utf8_lib;

/// Minimum terminal width for the TTY viewport; below this the pull output
/// falls back to plain prefixed lines.
pub const MIN_VIEWPORT_WIDTH: usize = 40;

/// Maximum viewport content width.
pub const MAX_VIEWPORT_WIDTH: usize = 72;

/// Number of recent lines shown in the viewport.
pub const VIEWPORT_LINES: usize = 3;

// ---------------------------------------------------------------------------
// ANSI stripping
// ---------------------------------------------------------------------------

/// `char::is_ascii_alphabetic`.
pub open spec fn is_ascii_alpha(c: char) -> bool {
    ('a' <= c && c <= 'z') || ('A' <= c && c <= 'Z')
}

/// Position just past a CSI sequence whose body starts at `i`: the first
/// ASCII letter at or after `i` ends it; without one, the rest is consumed.
pub open spec fn csi_end(s: Seq<char>, i: int) -> int
    decreases s.len() - i,
{
    if i >= s.len() {
        s.len() as int
    } else if is_ascii_alpha(s[i]) {
        i + 1
    } else {
        csi_end(s, i + 1)
    }
}

/// Position just past an OSC sequence whose body starts at `i`: a BEL
/// (`\x07`) ends it; without one, the rest is consumed.
pub open spec fn osc_end(s: Seq<char>, i: int) -> int
    decreases s.len() - i,
{
    if i >= s.len() {
        s.len() as int
    } else if s[i] == '\x07' {
        i + 1
    } else {
        osc_end(s, i + 1)
    }
}

pub proof fn lemma_csi_end_bounds(s: Seq<char>, i: int)
    requires
        i <= s.len(),
    ensures
        i <= csi_end(s, i) <= s.len(),
    decreases s.len() - i,
{
    if i < s.len() && !is_ascii_alpha(s[i]) {
        lemma_csi_end_bounds(s, i + 1);
    }
}

pub proof fn lemma_osc_end_bounds(s: Seq<char>, i: int)
    requires
        i <= s.len(),
    ensures
        i <= osc_end(s, i) <= s.len(),
    decreases s.len() - i,
{
    if i < s.len() && s[i] != '\x07' {
        lemma_osc_end_bounds(s, i + 1);
    }
}

/// The text of `s` from position `i` on with escape sequences removed:
/// `ESC [ ... letter` (CSI), `ESC ] ... BEL` (OSC), and any other
/// `ESC x` pair are dropped; every other character is kept.
pub open spec fn strip_ansi_from(s: Seq<char>, i: int) -> Seq<char>
    decreases s.len() - i,
{
    if i < 0 || i >= s.len() {
        Seq::empty()
    } else if s[i] == '\x1b' {
        if i + 1 < s.len() && s[i + 1] == '[' {
            proof {
                lemma_csi_end_bounds(s, i + 2);
            }
            strip_ansi_from(s, csi_end(s, i + 2))
        } else if i + 1 < s.len() && s[i + 1] == ']' {
            proof {
                lemma_osc_end_bounds(s, i + 2);
            }
            strip_ansi_from(s, osc_end(s, i + 2))
        } else if i + 1 < s.len() {
            strip_ansi_from(s, i + 2)
        } else {
            Seq::empty()
        }
    } else {
        seq![s[i]] + strip_ansi_from(s, i + 1)
    }
}

/// `s` with its ANSI escape sequences removed.
pub open spec fn strip_ansi_spec(s: Seq<char>) -> Seq<char> {
    strip_ansi_from(s, 0)
}

/// The positions of `s`, from `i` on, whose characters stripping keeps.
pub open spec fn kept_from(s: Seq<char>, i: int) -> Seq<int>
    decreases s.len() - i,
{
    if i < 0 || i >= s.len() {
        Seq::empty()
    } else if s[i] == '\x1b' {
        if i + 1 < s.len() && s[i + 1] == '[' {
            proof {
                lemma_csi_end_bounds(s, i + 2);
            }
            kept_from(s, csi_end(s, i + 2))
        } else if i + 1 < s.len() && s[i + 1] == ']' {
            proof {
                lemma_osc_end_bounds(s, i + 2);
            }
            kept_from(s, osc_end(s, i + 2))
        } else if i + 1 < s.len() {
            kept_from(s, i + 2)
        } else {
            Seq::empty()
        }
    } else {
        seq![i] + kept_from(s, i + 1)
    }
}

proof fn lemma_kept_from(s: Seq<char>, i: int)
    requires
        0 <= i <= s.len(),
    ensures
        kept_from(s, i).len() == strip_ansi_from(s, i).len(),
        strip_ansi_from(s, i).len() <= s.len() - i,
        forall|k: int| 0 <= k < kept_from(s, i).len() ==> {
            let p = #[trigger] kept_from(s, i)[k];
            &&& i <= p < s.len()
            &&& s[p] == strip_ansi_from(s, i)[k]
            &&& s[p] != '\x1b'
        },
        forall|j: int, k: int| 0 <= j < k < kept_from(s, i).len() ==> #[trigger] kept_from(s, i)[j] < #[trigger] kept_from(s, i)[k],
    decreases s.len() - i,
{
    if i < s.len() {
        if s[i] == '\x1b' {
            if i + 1 < s.len() && s[i + 1] == '[' {
                lemma_csi_end_bounds(s, i + 2);
                lemma_kept_from(s, csi_end(s, i + 2));
            } else if i + 1 < s.len() && s[i + 1] == ']' {
                lemma_osc_end_bounds(s, i + 2);
                lemma_kept_from(s, osc_end(s, i + 2));
            } else if i + 1 < s.len() {
                lemma_kept_from(s, i + 2);
            }
        } else {
            lemma_kept_from(s, i + 1);
            let rest = kept_from(s, i + 1);
            let ks = kept_from(s, i);
            let out = strip_ansi_from(s, i);
            assert(ks == seq![i] + rest);
            assert(out == seq![s[i]] + strip_ansi_from(s, i + 1));
            assert forall|k: int| 0 <= k < ks.len() implies {
                let p = #[trigger] ks[k];
                &&& i <= p < s.len()
                &&& s[p] == out[k]
                &&& s[p] != '\x1b'
            } by {
                if k > 0 {
                    assert(ks[k] == rest[k - 1]);
                    assert(out[k] == strip_ansi_from(s, i + 1)[k - 1]);
                }
            }
            assert forall|j: int, k: int| 0 <= j < k < ks.len() implies #[trigger] ks[j] < #[trigger] ks[k] by {
                assert(ks[k] == rest[k - 1]);
                if j > 0 {
                    assert(ks[j] == rest[j - 1]);
                }
            }
        }
    }
}

/// Stripping escape sequences only drops characters: the result is never
/// longer than the line, its characters are the line's own in their order,
/// and no escape character is left in it.
pub proof fn law_strip_ansi_keeps_text(s: Seq<char>)
    ensures
        strip_ansi_spec(s).len() <= s.len(),
        exists|pos: Seq<int>| #![trigger pos.len()] {
            &&& pos.len() == strip_ansi_spec(s).len()
            &&& forall|k: int| 0 <= k < pos.len() ==> 0 <= #[trigger] pos[k] < s.len() && s[pos[k]] == strip_ansi_spec(s)[k]
            &&& forall|j: int, k: int| 0 <= j < k < pos.len() ==> #[trigger] pos[j] < #[trigger] pos[k]
        },
        forall|k: int| 0 <= k < strip_ansi_spec(s).len() ==> #[trigger] strip_ansi_spec(s)[k] != '\x1b',
{
    lemma_kept_from(s, 0);
    let pos = kept_from(s, 0);
    assert(forall|k: int| 0 <= k < pos.len() ==> 0 <= #[trigger] pos[k] < s.len() && s[pos[k]] == strip_ansi_spec(s)[k]);
    assert forall|k: int| 0 <= k < strip_ansi_spec(s).len() implies #[trigger] strip_ansi_spec(s)[k] != '\x1b' by {
        assert(s[pos[k]] == strip_ansi_spec(s)[k]);
    }
}

/// Strip ANSI escape sequences (CSI `\x1b[...X` and OSC `\x1b]...\x07`)
/// from a line of podman output.
pub fn strip_ansi(s: &str) -> (r: String)
    ensures
        r@ == strip_ansi_spec(s@),
{
    let cs = chars_of(s);
    let n = cs.len();
    let mut out = String::new();
    let mut i: usize = 0;
    while i < n
        invariant
            n == cs@.len(),
            cs@ == s@,
            0 <= i <= n,
            out@ + strip_ansi_from(cs@, i as int) == strip_ansi_spec(cs@),
        decreases n - i,
    {
        let c = cs[i];
        if c == '\x1b' {
            if i + 1 < n && cs[i + 1] == '[' {
                let mut j = i + 2;
                proof {
                    lemma_csi_end_bounds(cs@, i + 2);
                }
                while j < n && !(('a' <= cs[j] && cs[j] <= 'z') || ('A' <= cs[j] && cs[j] <= 'Z'))
                    invariant
                        n == cs@.len(),
                        i + 2 <= j <= n,
                        csi_end(cs@, i + 2) == csi_end(cs@, j as int),
                    decreases n - j,
                {
                    j = j + 1;
                }
                if j < n {
                    j = j + 1;
                }
                assert(j == csi_end(cs@, i + 2));
                assert(strip_ansi_from(cs@, i as int) == strip_ansi_from(cs@, j as int));
                i = j;
            } else if i + 1 < n && cs[i + 1] == ']' {
                let mut j = i + 2;
                proof {
                    lemma_osc_end_bounds(cs@, i + 2);
                }
                while j < n && cs[j] != '\x07'
                    invariant
                        n == cs@.len(),
                        i + 2 <= j <= n,
                        osc_end(cs@, i + 2) == osc_end(cs@, j as int),
                    decreases n - j,
                {
                    j = j + 1;
                }
                if j < n {
                    j = j + 1;
                }
                assert(j == osc_end(cs@, i + 2));
                assert(strip_ansi_from(cs@, i as int) == strip_ansi_from(cs@, j as int));
                i = j;
            } else {
                if i + 1 < n {
                    i = i + 2;
                } else {
                    i = n;
                }
            }
        } else {
            let ghost prev = out@;
            push_char(&mut out, c);
            proof {
                let rest = strip_ansi_from(cs@, i + 1);
                assert(strip_ansi_from(cs@, i as int) == seq![c] + rest);
                assert(out@ + rest =~= prev + (seq![c] + rest));
            }
            i = i + 1;
        }
    }
    out
}

// ---------------------------------------------------------------------------
// Blob counting
// ---------------------------------------------------------------------------

/// `char::is_whitespace`: the Unicode `White_Space` characters.
pub open spec fn is_ws(c: char) -> bool {
    ('\u{9}' <= c && c <= '\u{d}') || c == ' ' || c == '\u{85}' || c == '\u{a0}' || c == '\u{1680}'
        || ('\u{2000}' <= c && c <= '\u{200a}') || c == '\u{2028}' || c == '\u{2029}'
        || c == '\u{202f}' || c == '\u{205f}' || c == '\u{3000}'
}

/// Whether `c` is whitespace (`char::is_whitespace`).
pub fn is_whitespace(c: char) -> (b: bool)
    ensures
        b == is_ws(c),
{
    ('\u{9}' <= c && c <= '\u{d}') || c == ' ' || c == '\u{85}' || c == '\u{a0}' || c == '\u{1680}'
        || ('\u{2000}' <= c && c <= '\u{200a}') || c == '\u{2028}' || c == '\u{2029}'
        || c == '\u{202f}' || c == '\u{205f}' || c == '\u{3000}'
}

/// End of the run of non-whitespace characters starting at `i`.
pub open spec fn token_end(s: Seq<char>, i: int) -> int
    decreases s.len() - i,
{
    if i >= s.len() {
        s.len() as int
    } else if is_ws(s[i]) {
        i
    } else {
        token_end(s, i + 1)
    }
}

pub proof fn lemma_token_end_bounds(s: Seq<char>, i: int)
    requires
        0 <= i <= s.len(),
    ensures
        i <= token_end(s, i) <= s.len(),
    decreases s.len() - i,
{
    if i < s.len() && !is_ws(s[i]) {
        lemma_token_end_bounds(s, i + 1);
    }
}

/// The blob that a pull line reports as finished: after stripping escape
/// sequences, the line mentions `Copying blob`, ends in `done` or
/// `skipped`, and holds `sha256:`; the identifier is the whitespace-free
/// word that starts at the first `sha256:`.
pub open spec fn completed_blob_id(line: Seq<char>) -> Option<Seq<char>> {
    let t = strip_ansi_spec(line);
    if contains_seq(t, "Copying blob"@) && (ends_with(t, "done"@) || ends_with(t, "skipped"@)) {
        match find_first(t, "sha256:"@) {
            Some(k) => Some(t.subrange(k, token_end(t, k))),
            None => None,
        }
    } else {
        None
    }
}

/// Identifiers of the finished blobs reported by `lines`, in order, with
/// repeats.
pub open spec fn completed_blob_ids(lines: Seq<Seq<char>>) -> Seq<Seq<char>>
    decreases lines.len(),
{
    if lines.len() == 0 {
        Seq::empty()
    } else {
        let prev = completed_blob_ids(lines.drop_last());
        match completed_blob_id(lines.last()) {
            Some(id) => prev.push(id),
            None => prev,
        }
    }
}

/// Number of distinct finished blobs, or `None` when no line reports one.
pub open spec fn completed_blob_count(lines: Seq<Seq<char>>) -> Option<usize> {
    let n = completed_blob_ids(lines).to_set().len();
    if n == 0 {
        None
    } else {
        Some(n as usize)
    }
}

proof fn lemma_blob_ids_contain(lines: Seq<Seq<char>>, x: Seq<char>)
    ensures
        completed_blob_ids(lines).contains(x) <==> exists|j: int| 0 <= j < lines.len() && #[trigger] completed_blob_id(lines[j]) == Some(x),
    decreases lines.len(),
{
    if lines.len() > 0 {
        let init = lines.drop_last();
        lemma_blob_ids_contain(init, x);
        let prev = completed_blob_ids(init);
        let ids = completed_blob_ids(lines);
        if ids.contains(x) {
            let i = choose|i: int| 0 <= i < ids.len() && ids[i] == x;
            if i < prev.len() {
                assert(ids[i] == prev[i]);
                assert(prev.contains(x));
                let j = choose|j: int| 0 <= j < init.len() && #[trigger] completed_blob_id(init[j]) == Some(x);
                assert(lines[j] == init[j]);
            } else {
                assert(completed_blob_id(lines[lines.len() - 1]) == Some(x));
            }
        }
        if exists|j: int| 0 <= j < lines.len() && #[trigger] completed_blob_id(lines[j]) == Some(x) {
            let j = choose|j: int| 0 <= j < lines.len() && #[trigger] completed_blob_id(lines[j]) == Some(x);
            if j < init.len() {
                assert(init[j] == lines[j]);
                assert(prev.contains(x));
                let i = choose|i: int| 0 <= i < prev.len() && prev[i] == x;
                assert(ids[i] == x);
            } else {
                assert(ids[ids.len() - 1] == x);
            }
        }
    }
}

/// The blob count depends only on which lines were seen: reordering the
/// lines, or repeating any of them, leaves it unchanged.
pub proof fn law_blob_count_ignores_order(a: Seq<Seq<char>>, b: Seq<Seq<char>>)
    requires
        a.to_set() == b.to_set(),
    ensures
        completed_blob_count(a) == completed_blob_count(b),
{
    assert forall|x: Seq<char>| completed_blob_ids(a).to_set().contains(x) implies completed_blob_ids(b).to_set().contains(x) by {
        lemma_blob_ids_contain(a, x);
        lemma_blob_ids_contain(b, x);
        let j = choose|j: int| 0 <= j < a.len() && #[trigger] completed_blob_id(a[j]) == Some(x);
        assert(a.to_set().contains(a[j]));
        assert(b.to_set().contains(a[j]));
        let k = choose|k: int| 0 <= k < b.len() && b[k] == a[j];
        assert(completed_blob_id(b[k]) == Some(x));
    }
    assert forall|x: Seq<char>| completed_blob_ids(b).to_set().contains(x) implies completed_blob_ids(a).to_set().contains(x) by {
        lemma_blob_ids_contain(a, x);
        lemma_blob_ids_contain(b, x);
        let j = choose|j: int| 0 <= j < b.len() && #[trigger] completed_blob_id(b[j]) == Some(x);
        assert(b.to_set().contains(b[j]));
        assert(a.to_set().contains(b[j]));
        let k = choose|k: int| 0 <= k < a.len() && a[k] == b[j];
        assert(completed_blob_id(a[k]) == Some(x));
    }
    assert(completed_blob_ids(a).to_set() =~= completed_blob_ids(b).to_set());
}

/// The views of a slice of strings.
pub open spec fn views(v: Seq<String>) -> Seq<Seq<char>> {
    v.map_values(|s: String| s@)
}

/// The identifier of the blob a line reports as finished, if any.
fn blob_id_of_line(line: &str) -> (r: Option<Vec<char>>)
    ensures
        match r {
            Some(v) => completed_blob_id(line@) == Some(v@),
            None => completed_blob_id(line@) is None,
        },
{
    let stripped = strip_ansi(line);
    let t = chars_of(stripped.as_str());
    let copying = chars_of("Copying blob");
    let done = chars_of("done");
    let skipped = chars_of("skipped");
    let sha = chars_of("sha256:");
    if !contains_vec(&t, &copying) {
        return None;
    }
    if !ends_with_vec(&t, &done) && !ends_with_vec(&t, &skipped) {
        return None;
    }
    match find_in(&t, &sha) {
        Some(start) => {
            proof {
                lemma_find_first(t@, sha@);
                lemma_token_end_bounds(t@, start as int);
            }
            let mut id: Vec<char> = Vec::new();
            let mut j = start;
            while j < t.len() && !is_whitespace(t[j])
                invariant
                    start <= j <= t@.len(),
                    token_end(t@, start as int) == token_end(t@, j as int),
                    id@ == t@.subrange(start as int, j as int),
                decreases t@.len() - j,
            {
                id.push(t[j]);
                assert(id@ =~= t@.subrange(start as int, j + 1));
                j = j + 1;
            }
            Some(id)
        },
        None => None,
    }
}

/// Whether two character vectors hold the same characters.
fn same_chars(a: &Vec<char>, b: &Vec<char>) -> (r: bool)
    ensures
        r == (a@ == b@),
{
    if a.len() != b.len() {
        return false;
    }
    let r = crate::text::matches_at(a, b, 0);
    proof {
        if r {
            assert(a@ =~= a@.subrange(0, b@.len() as int));
        } else if a@ == b@ {
            assert(a@.subrange(0, b@.len() as int) =~= a@);
        }
    }
    r
}

/// Count unique completed blob transfers (`Copying blob <sha256:...> done`
/// or `... skipped`) in podman pull stderr lines. Repeated lines for the
/// same blob count once; `None` when no such line was seen.
pub fn count_completed_blobs(stderr_lines: &[String]) -> (r: Option<usize>)
    ensures
        r == completed_blob_count(views(stderr_lines@)),
{
    let ghost lines = views(stderr_lines@);
    let mut seen: Vec<Vec<char>> = Vec::new();
    let ghost mut seen_view: Seq<Seq<char>> = Seq::empty();
    let mut i: usize = 0;
    while i < stderr_lines.len()
        invariant
            lines == views(stderr_lines@),
            0 <= i <= stderr_lines@.len(),
            seen_view.len() == seen@.len(),
            forall|k: int| 0 <= k < seen_view.len() ==> #[trigger] seen@[k]@ == seen_view[k],
            seen_view.no_duplicates(),
            seen_view.to_set() == completed_blob_ids(lines.take(i as int)).to_set(),
        decreases stderr_lines@.len() - i,
    {
        let ghost ids_before = completed_blob_ids(lines.take(i as int));
        assert(lines.take(i + 1).drop_last() =~= lines.take(i as int));
        assert(lines.take(i + 1).last() == stderr_lines@[i as int]@);
        match blob_id_of_line(stderr_lines[i].as_str()) {
            Some(id) => {
                let mut found = false;
                let mut k: usize = 0;
                while k < seen.len()
                    invariant
                        0 <= k <= seen@.len(),
                        seen_view.len() == seen@.len(),
                        forall|m: int| 0 <= m < seen_view.len() ==> #[trigger] seen@[m]@ == seen_view[m],
                        found == (exists|m: int| 0 <= m < k && seen_view[m] == id@),
                    decreases seen@.len() - k,
                {
                    if same_chars(&seen[k], &id) {
                        found = true;
                    }
                    k = k + 1;
                }
                assert(completed_blob_ids(lines.take(i + 1)) == ids_before.push(id@));
                if !found {
                    proof {
                        assert(!seen_view.contains(id@));
                        let ghost old_view = seen_view;
                        seen_view = seen_view.push(id@);
                        assert(seen_view.drop_last() =~= old_view);
                        assert(seen_view.to_set() =~= ids_before.push(id@).to_set()) by {
                            assert forall|x: Seq<char>| seen_view.to_set().contains(x) <==> ids_before.push(id@).to_set().contains(x) by {
                                if x == id@ {
                                    assert(seen_view[seen_view.len() - 1] == x);
                                    assert(ids_before.push(id@)[ids_before.len() as int] == x);
                                } else {
                                    if seen_view.to_set().contains(x) {
                                        let m = choose|m: int| 0 <= m < seen_view.len() && seen_view[m] == x;
                                        assert(seen_view.drop_last()[m] == x);
                                        assert(ids_before.to_set().contains(x));
                                        let q = choose|q: int| 0 <= q < ids_before.len() && ids_before[q] == x;
                                        assert(ids_before.push(id@)[q] == x);
                                    }
                                    if ids_before.push(id@).to_set().contains(x) {
                                        let q = choose|q: int| 0 <= q < ids_before.len() + 1 && ids_before.push(id@)[q] == x;
                                        assert(ids_before[q] == x);
                                        assert(ids_before.to_set().contains(x));
                                        assert(seen_view.drop_last().to_set().contains(x));
                                        let m = choose|m: int| 0 <= m < seen_view.len() - 1 && seen_view.drop_last()[m] == x;
                                        assert(seen_view[m] == x);
                                    }
                                }
                            }
                        }
                    }
                    seen.push(id);
                } else {
                    proof {
                        assert(seen_view.to_set() =~= ids_before.push(id@).to_set()) by {
                            assert forall|x: Seq<char>| seen_view.to_set().contains(x) <==> ids_before.push(id@).to_set().contains(x) by {
                                if seen_view.to_set().contains(x) {
                                    let m = choose|m: int| 0 <= m < seen_view.len() && seen_view[m] == x;
                                    assert(ids_before.to_set().contains(x));
                                    let q = choose|q: int| 0 <= q < ids_before.len() && ids_before[q] == x;
                                    assert(ids_before.push(id@)[q] == x);
                                }
                                if ids_before.push(id@).to_set().contains(x) {
                                    let q = choose|q: int| 0 <= q < ids_before.len() + 1 && ids_before.push(id@)[q] == x;
                                    if q < ids_before.len() {
                                        assert(ids_before[q] == x);
                                        assert(ids_before.to_set().contains(x));
                                    } else {
                                        assert(x == id@);
                                        let m = choose|m: int| 0 <= m < seen_view.len() && seen_view[m] == id@;
                                        assert(seen_view.to_set().contains(x));
                                    }
                                }
                            }
                        }
                    }
                }
            },
            None => {
                assert(completed_blob_ids(lines.take(i + 1)) == ids_before);
            },
        }
        i = i + 1;
    }
    proof {
        assert(lines.take(stderr_lines@.len() as int) =~= lines);
        seen_view.unique_seq_to_set();
    }
    if seen.len() == 0 {
        None
    } else {
        Some(seen.len())
    }
}

// ---------------------------------------------------------------------------
// Summary line and truncation
// ---------------------------------------------------------------------------

/// UTF-8 byte length of a character sequence (`str::len`).
pub open spec fn byte_len(s: Seq<char>) -> nat {
    encode_utf8(s).len()
}

/// Each character takes between one and four bytes.
pub proof fn lemma_byte_len_bounds(s: Seq<char>)
    ensures
        s.len() <= byte_len(s) <= 4 * s.len(),
    decreases s.len(),
{
    if s.len() > 0 {
        lemma_byte_len_bounds(s.drop_first());
    }
}

/// The first `n` bytes of `s`, read back as characters (`&s[..n]`).
pub open spec fn byte_prefix(s: Seq<char>, n: int) -> Seq<char> {
    decode_utf8(encode_utf8(s).subrange(0, n))
}

/// Slicing `s` at byte `n` is well formed: `n` falls on a character boundary.
pub open spec fn is_byte_boundary(s: Seq<char>, n: int) -> bool {
    is_char_boundary(encode_utf8(s), n)
}

/// The digest as shown in the summary: its first 19 bytes when longer.
pub open spec fn short_digest(digest: Seq<char>) -> Seq<char> {
    if byte_len(digest) > 19 {
        byte_prefix(digest, 19)
    } else {
        digest
    }
}

/// The summary line printed once a pull completes.
pub open spec fn pull_summary_text(image_ref: Seq<char>, digest: Seq<char>, blob_count: Option<usize>) -> Seq<char> {
    match blob_count {
        Some(n) => "Pulled "@ + image_ref + " ("@ + decimal(n as nat) + " blob transfers, "@
            + short_digest(digest) + ")"@,
        None => "Pulled "@ + image_ref + " ("@ + short_digest(digest) + ")"@,
    }
}

/// UTF-8 byte length of `s`.
pub fn byte_length(s: &str) -> (n: usize)
    ensures
        n == byte_len(s@),
{
    s.as_bytes().len()
}

/// The first `n` bytes of `s` as a string slice.
pub(crate) fn byte_prefix_str(s: &str, n: usize) -> (r: &str)
    requires
        n <= byte_len(s@),
        is_byte_boundary(s@, n as int),
    ensures
        r@ == byte_prefix(s@, n as int),
{
    let (a, _b) = s.split_at(n);
    proof {
        assert(a.spec_bytes() =~= encode_utf8(s@).subrange(0, n as int));
        assert(decode_utf8(encode_utf8(a@)) == a@);
    }
    a
}

/// Format the pull summary line, e.g.
/// `Pulled quay.io/x:1 (7 blob transfers, sha256:abc123def45)`.
/// The digest is cut to its first 19 bytes; "blob transfers" rather than
/// "layers", since the count is transport-level chatter.
pub fn pull_summary_line(image_ref: &str, digest: &str, blob_count: Option<usize>) -> (r: String)
    requires
        byte_len(digest@) > 19 ==> is_byte_boundary(digest@, 19),
    ensures
        r@ == pull_summary_text(image_ref@, digest@, blob_count),
{
    let short = if byte_length(digest) > 19 {
        byte_prefix_str(digest, 19)
    } else {
        digest
    };
    assert(short@ == short_digest(digest@));
    let mut s = String::new();
    push_str(&mut s, "Pulled ");
    push_str(&mut s, image_ref);
    push_str(&mut s, " (");
    match blob_count {
        Some(n) => {
            push_decimal(&mut s, n);
            push_str(&mut s, " blob transfers, ");
        },
        None => {},
    }
    push_str(&mut s, short);
    push_str(&mut s, ")");
    assert(s@ =~= pull_summary_text(image_ref@, digest@, blob_count));
    s
}

/// `s` cut to at most `max_len` characters: unchanged when it fits,
/// otherwise its first `max_len - 1` characters followed by `…` (just `…`
/// when `max_len` is 0 or 1).
pub open spec fn truncated(s: Seq<char>, max_len: nat) -> Seq<char> {
    if s.len() <= max_len {
        s
    } else if max_len > 1 {
        s.take(max_len - 1) + seq!['\u{2026}']
    } else {
        seq!['\u{2026}']
    }
}

/// Truncate a line to `max_len` characters, marking a cut with `…`.
pub fn truncate_line(s: &str, max_len: usize) -> (r: String)
    ensures
        r@ == truncated(s@, max_len as nat),
{
    if char_count(s) <= max_len {
        s.to_owned()
    } else if max_len > 1 {
        truncate(s, max_len)
    } else {
        let mut r = String::new();
        push_char(&mut r, '\u{2026}');
        assert(r@ =~= seq!['\u{2026}']);
        r
    }
}

// ---------------------------------------------------------------------------
// Viewport
// ---------------------------------------------------------------------------

/// Viewport content width for a terminal of `term_width` columns: the
/// width minus six columns of box borders, capped at `MAX_VIEWPORT_WIDTH - 6`.
pub fn viewport_content_width(term_width: usize) -> (w: usize)
    ensures
        w == if term_width < 6 { 0 } else if term_width - 6 < MAX_VIEWPORT_WIDTH - 6 {
            term_width - 6
        } else {
            MAX_VIEWPORT_WIDTH - 6
        },
{
    let max = term_width.saturating_sub(6);
    if max < MAX_VIEWPORT_WIDTH - 6 {
        max
    } else {
        MAX_VIEWPORT_WIDTH - 6
    }
}

/// Every character of `s` is whitespace (`s.trim().is_empty()`).
pub open spec fn is_blank(s: Seq<char>) -> bool {
    forall|i: int| 0 <= i < s.len() ==> is_ws(#[trigger] s[i])
}

/// Whether every character of `s` is whitespace.
pub fn blank(s: &str) -> (b: bool)
    ensures
        b == is_blank(s@),
{
    let cs = chars_of(s);
    let mut i: usize = 0;
    while i < cs.len()
        invariant
            cs@ == s@,
            0 <= i <= cs@.len(),
            forall|k: int| 0 <= k < i ==> is_ws(#[trigger] cs@[k]),
        decreases cs@.len() - i,
    {
        if !is_whitespace(cs[i]) {
            return false;
        }
        i = i + 1;
    }
    true
}

/// The line a non-terminal pull prints for a raw stderr line: the cleaned
/// text behind a `  pull: ` prefix, or nothing for a blank line.
pub open spec fn non_tty_line(line: Seq<char>) -> Option<Seq<char>> {
    let cleaned = strip_ansi_spec(line);
    if is_blank(cleaned) {
        None
    } else {
        Some("  pull: "@ + cleaned)
    }
}

/// Handles one pull stderr line without a terminal: the cleaned line is
/// kept in `collected` (for blob counting) and the returned text, if any,
/// is what gets printed.
pub fn non_tty_step(collected: &mut Vec<String>, line: &str) -> (out: Option<String>)
    ensures
        final(collected)@.len() == old(collected)@.len() + 1,
        final(collected)@.drop_last() == old(collected)@,
        final(collected)@.last()@ == strip_ansi_spec(line@),
        match out {
            Some(t) => non_tty_line(line@) == Some(t@),
            None => non_tty_line(line@) is None,
        },
{
    let cleaned = strip_ansi(line);
    let out = if blank(cleaned.as_str()) {
        None
    } else {
        let mut t = String::new();
        push_str(&mut t, "  pull: ");
        push_str(&mut t, cleaned.as_str());
        Some(t)
    };
    collected.push(cleaned);
    proof {
        assert(final(collected)@.drop_last() =~= old(collected)@);
    }
    out
}

/// The text of viewport row `i` after `pos` lines have been pushed into
/// the three-slot ring.
pub open spec fn viewport_slot(ring: Seq<Seq<char>>, pos: nat, i: int) -> Seq<char> {
    if pos >= 3 {
        ring[((pos - 3 + i) % 3) as int]
    } else if i < pos {
        ring[i]
    } else {
        Seq::empty()
    }
}

/// One bordered content row of the viewport.
pub open spec fn viewport_row(text: Seq<char>, width: nat) -> Seq<char> {
    "  \u{2502} "@ + pad_right(text, width) + " \u{2502}\n"@
}

/// The full redraw of the viewport: a cursor-up over the previous frame
/// (from the second draw on), a top border, three rows, a bottom border.
pub open spec fn viewport_frame(ring: Seq<Seq<char>>, pos: nat, width: nat) -> Seq<char> {
    (if pos > 1 { "\x1b[5A"@ } else { Seq::empty() })
        + "  \u{250c}"@ + repeat_char('\u{2500}', width + 2) + "\u{2510}\n"@
        + viewport_row(viewport_slot(ring, pos, 0), width)
        + viewport_row(viewport_slot(ring, pos, 1), width)
        + viewport_row(viewport_slot(ring, pos, 2), width)
        + "  \u{2514}"@ + repeat_char('\u{2500}', width + 2) + "\u{2518}\n"@
}

fn push_viewport_row(s: &mut String, text: &str, width: usize)
    ensures
        final(s)@ == old(s)@ + viewport_row(text@, width as nat),
{
    push_str(s, "  \u{2502} ");
    push_padded(s, text, width);
    push_str(s, " \u{2502}\n");
    assert(s@ =~= old(s)@ + viewport_row(text@, width as nat));
}

/// Handles one pull stderr line on a terminal: blank lines are ignored;
/// otherwise the cleaned line is kept in `collected`, its truncation to
/// `content_width` characters enters the ring at `ring_pos % 3`, `ring_pos`
/// advances, and the returned text redraws the viewport.
pub fn tty_viewport_step(
    collected: &mut Vec<String>,
    ring: &mut Vec<String>,
    ring_pos: &mut usize,
    content_width: usize,
    line: &str,
) -> (out: Option<String>)
    requires
        old(ring)@.len() == VIEWPORT_LINES,
        *old(ring_pos) < usize::MAX,
        content_width + 2 <= usize::MAX,
    ensures
        final(ring)@.len() == VIEWPORT_LINES,
        is_blank(strip_ansi_spec(line@)) ==> {
            &&& out is None
            &&& final(collected)@ == old(collected)@
            &&& final(ring)@ == old(ring)@
            &&& *final(ring_pos) == *old(ring_pos)
        },
        !is_blank(strip_ansi_spec(line@)) ==> {
            &&& final(collected)@.len() == old(collected)@.len() + 1
            &&& final(collected)@.drop_last() == old(collected)@
            &&& final(collected)@.last()@ == strip_ansi_spec(line@)
            &&& *final(ring_pos) == *old(ring_pos) + 1
            &&& views(final(ring)@) == views(old(ring)@).update(
                (*old(ring_pos) % 3) as int,
                truncated(strip_ansi_spec(line@), content_width as nat),
            )
            &&& out matches Some(t) && t@ == viewport_frame(
                views(final(ring)@),
                *final(ring_pos) as nat,
                content_width as nat,
            )
        },
{
    let cleaned = strip_ansi(line);
    if blank(cleaned.as_str()) {
        return None;
    }
    let entry = truncate_line(cleaned.as_str(), content_width);
    collected.push(cleaned);
    proof {
        assert(final(collected)@.drop_last() =~= old(collected)@);
    }
    let slot = *ring_pos % VIEWPORT_LINES;
    ring.set(slot, entry);
    *ring_pos = *ring_pos + 1;
    let pos = *ring_pos;
    proof {
        assert(views(ring@) =~= views(old(ring)@).update(slot as int, truncated(strip_ansi_spec(line@), content_width as nat)));
    }
    let s = viewport_frame_text(ring, pos, content_width);
    Some(s)
}

/// The redraw text for the ring after `pos` pushed lines.
pub fn viewport_frame_text(ring: &Vec<String>, pos: usize, content_width: usize) -> (s: String)
    requires
        ring@.len() == VIEWPORT_LINES,
        content_width + 2 <= usize::MAX,
    ensures
        s@ == viewport_frame(views(ring@), pos as nat, content_width as nat),
{
    let mut s = String::new();
    if pos > 1 {
        push_str(&mut s, "\x1b[5A");
    }
    push_str(&mut s, "  \u{250c}");
    push_repeat(&mut s, '\u{2500}', content_width + 2);
    push_str(&mut s, "\u{2510}\n");
    let ghost head = s@;
    let mut i: usize = 0;
    while i < VIEWPORT_LINES
        invariant
            ring@.len() == VIEWPORT_LINES,
            0 <= i <= VIEWPORT_LINES,
            s@ == head + rows_upto(views(ring@), pos as nat, content_width as nat, i as nat),
        decreases VIEWPORT_LINES - i,
    {
        let ghost before = s@;
        if pos >= VIEWPORT_LINES {
            let idx = (pos - VIEWPORT_LINES + i) % VIEWPORT_LINES;
            push_viewport_row(&mut s, ring[idx].as_str(), content_width);
        } else if i < pos {
            push_viewport_row(&mut s, ring[i].as_str(), content_width);
        } else {
            push_viewport_row(&mut s, "", content_width);
            proof {
                assert(""@ =~= Seq::<char>::empty()) by {
                    reveal_strlit("");
                }
            }
        }
        proof {
            assert(views(ring@)[i as int] == ring@[i as int]@);
            assert(views(ring@)[((pos - 3 + i) % 3) as int] == ring@[((pos - 3 + i) % 3) as int]@);
            assert(s@ =~= head + rows_upto(views(ring@), pos as nat, content_width as nat, (i + 1) as nat));
        }
        i = i + 1;
    }
    push_str(&mut s, "  \u{2514}");
    push_repeat(&mut s, '\u{2500}', content_width + 2);
    push_str(&mut s, "\u{2518}\n");
    proof {
        reveal_with_fuel(rows_upto, 4);
        assert(s@ =~= viewport_frame(views(ring@), pos as nat, content_width as nat));
    }
    s
}

/// The first `n` content rows of the viewport.
pub open spec fn rows_upto(ring: Seq<Seq<char>>, pos: nat, width: nat, n: nat) -> Seq<char>
    decreases n,
{
    if n == 0 {
        Seq::empty()
    } else {
        rows_upto(ring, pos, width, (n - 1) as nat) + viewport_row(viewport_slot(ring, pos, n - 1), width)
    }
}

/// The text that clears the viewport once the pull is over: up five
/// lines, clear each of the five, and up five again.
pub open spec fn viewport_cleanup_text() -> Seq<char> {
    "\x1b[5A"@ + "\x1b[2K\n"@ + "\x1b[2K\n"@ + "\x1b[2K\n"@ + "\x1b[2K\n"@ + "\x1b[2K\n"@ + "\x1b[5A"@
}

/// Text that clears the pull viewport (top border, three rows, bottom border).
pub fn viewport_cleanup() -> (s: String)
    ensures
        s@ == viewport_cleanup_text(),
{
    let mut s = String::new();
    push_str(&mut s, "\x1b[5A");
    let mut k: usize = 0;
    while k < 5
        invariant
            0 <= k <= 5,
            s@ == "\x1b[5A"@ + clear_lines(k as nat),
        decreases 5 - k,
    {
        push_str(&mut s, "\x1b[2K\n");
        assert(s@ =~= "\x1b[5A"@ + clear_lines((k + 1) as nat));
        k = k + 1;
    }
    push_str(&mut s, "\x1b[5A");
    reveal_with_fuel(clear_lines, 6);
    assert(s@ =~= viewport_cleanup_text());
    s
}

/// `n` line-clear sequences, each followed by a newline.
pub open spec fn clear_lines(n: nat) -> Seq<char>
    decreases n,
{
    if n == 0 {
        Seq::empty()
    } else {
        clear_lines((n - 1) as nat) + "\x1b[2K\n"@
    }
}

// ---------------------------------------------------------------------------
// Laws
// ---------------------------------------------------------------------------

/// Stripping never leaves an escape character behind.
pub proof fn lemma_strip_ansi_from_no_escape(s: Seq<char>, i: int)
    ensures
        !strip_ansi_from(s, i).contains('\x1b'),
    decreases s.len() - i,
{
    if i < 0 || i >= s.len() {
    } else if s[i] == '\x1b' {
        if i + 1 < s.len() && s[i + 1] == '[' {
            lemma_csi_end_bounds(s, i + 2);
            lemma_strip_ansi_from_no_escape(s, csi_end(s, i + 2));
        } else if i + 1 < s.len() && s[i + 1] == ']' {
            lemma_osc_end_bounds(s, i + 2);
            lemma_strip_ansi_from_no_escape(s, osc_end(s, i + 2));
        } else if i + 1 < s.len() {
            lemma_strip_ansi_from_no_escape(s, i + 2);
        }
    } else {
        lemma_strip_ansi_from_no_escape(s, i + 1);
        let rest = strip_ansi_from(s, i + 1);
        assert forall|k: int| 0 <= k < rest.len() + 1 implies (seq![s[i]] + rest)[k] != '\x1b' by {
            if k > 0 {
                assert((seq![s[i]] + rest)[k] == rest[k - 1]);
            }
        }
    }
}

/// Text without an escape character is left unchanged from position `i` on.
pub proof fn lemma_strip_ansi_from_plain(s: Seq<char>, i: int)
    requires
        0 <= i <= s.len(),
        !s.contains('\x1b'),
    ensures
        strip_ansi_from(s, i) == s.subrange(i, s.len() as int),
    decreases s.len() - i,
{
    if i < s.len() {
        assert(s[i] != '\x1b');
        lemma_strip_ansi_from_plain(s, i + 1);
        assert(seq![s[i]] + s.subrange(i + 1, s.len() as int) =~= s.subrange(i, s.len() as int));
    } else {
        assert(s.subrange(i, s.len() as int) =~= Seq::<char>::empty());
    }
}

/// Law: stripping removes every escape character, leaves text without
/// escape characters unchanged, and so stripping twice is stripping once.
pub proof fn law_strip_ansi(s: Seq<char>)
    ensures
        !strip_ansi_spec(s).contains('\x1b'),
        !s.contains('\x1b') ==> strip_ansi_spec(s) == s,
        strip_ansi_spec(strip_ansi_spec(s)) == strip_ansi_spec(s),
{
    lemma_strip_ansi_from_no_escape(s, 0);
    if !s.contains('\x1b') {
        lemma_strip_ansi_from_plain(s, 0);
        assert(s.subrange(0, s.len() as int) =~= s);
    }
    let t = strip_ansi_spec(s);
    lemma_strip_ansi_from_plain(t, 0);
    assert(t.subrange(0, t.len() as int) =~= t);
}

/// Law: a repeated line does not change the blob count, and no count is
/// reported unless some line reports a finished blob.
pub proof fn law_blob_count_ignores_repeats(lines: Seq<Seq<char>>, k: int)
    requires
        0 <= k < lines.len(),
    ensures
        completed_blob_count(lines.push(lines[k])) == completed_blob_count(lines),
        completed_blob_count(lines) is None <==> completed_blob_ids(lines).len() == 0,
{
    let ids = completed_blob_ids(lines);
    assert(lines.push(lines[k]).drop_last() =~= lines);
    lemma_ids_contain(lines, k);
    match completed_blob_id(lines[k]) {
        Some(id) => {
            assert(ids.contains(id));
            assert(ids.push(id).to_set() =~= ids.to_set()) by {
                assert forall|x: Seq<char>| ids.push(id).to_set().contains(x) implies ids.to_set().contains(x) by {
                    let q = choose|q: int| 0 <= q < ids.len() + 1 && ids.push(id)[q] == x;
                    if q < ids.len() {
                        assert(ids[q] == x);
                    }
                }
                assert forall|x: Seq<char>| ids.to_set().contains(x) implies ids.push(id).to_set().contains(x) by {
                    let q = choose|q: int| 0 <= q < ids.len() && ids[q] == x;
                    assert(ids.push(id)[q] == x);
                }
            }
        },
        None => {},
    }
    ids.lemma_cardinality_of_empty_set_is_0();
}

/// Each finished blob reported by line `k` is among the collected ids.
pub proof fn lemma_ids_contain(lines: Seq<Seq<char>>, k: int)
    requires
        0 <= k < lines.len(),
    ensures
        completed_blob_id(lines[k]) matches Some(id) ==> completed_blob_ids(lines).contains(id),
    decreases lines.len(),
{
    let prev = completed_blob_ids(lines.drop_last());
    if k < lines.len() - 1 {
        lemma_ids_contain(lines.drop_last(), k);
        assert(lines.drop_last()[k] == lines[k]);
        if let Some(id) = completed_blob_id(lines[k]) {
            let q = choose|q: int| 0 <= q < prev.len() && prev[q] == id;
            match completed_blob_id(lines.last()) {
                Some(x) => assert(prev.push(x)[q] == id),
                None => {},
            }
        }
    } else {
        if let Some(id) = completed_blob_id(lines[k]) {
            assert(prev.push(id)[prev.len() as int] == id);
        }
    }
}

} // verus!
