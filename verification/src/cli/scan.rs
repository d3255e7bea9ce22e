//! `inspectah scan`: exit codes from the snapshot's completeness, the
//! os-release parser, flag validation, and the completion summary.

use vstd::prelude::*;

use crate::progress::ProgressMode;
use crate::text::{decimal, join_seq, lines_spec, push_decimal, push_str, string_views, trim_spec};

verus! {

/// How complete a scan's snapshot is.
pub enum Completeness {
    Complete,
    /// Some sections degraded.
    Partial { degraded_sections: Vec<String> },
    /// Some sections failed.
    Incomplete { failed_sections: Vec<String>, degraded_sections: Vec<String> },
}

/// What a scan's exit status says about its report.
#[derive(Debug, Clone, Copy, PartialEq, Eq, Structural)]
pub enum ScanOutcome {
    /// Exit 0: the report is trustworthy.
    Clean,
    /// Exit 0: trustworthy, with caveats.
    Degraded,
    /// Exit 2: the report has blind spots (an inspector failed).
    Incomplete,
    /// Exit 130: interrupted by the user.
    Interrupted,
}

pub open spec fn exit_code_spec(o: ScanOutcome) -> i32 {
    match o {
        ScanOutcome::Clean | ScanOutcome::Degraded => 0,
        ScanOutcome::Incomplete => 2,
        ScanOutcome::Interrupted => 130,
    }
}

pub open spec fn outcome_of(c: Completeness) -> ScanOutcome {
    match c {
        Completeness::Complete => ScanOutcome::Clean,
        Completeness::Partial { .. } => ScanOutcome::Degraded,
        Completeness::Incomplete { .. } => ScanOutcome::Incomplete,
    }
}

impl ScanOutcome {
    /// The outcome a snapshot's completeness calls for.
    pub fn from_completeness(completeness: &Completeness) -> (o: ScanOutcome)
        ensures
            o == outcome_of(*completeness),
    {
        match completeness {
            Completeness::Complete => ScanOutcome::Clean,
            Completeness::Partial { .. } => ScanOutcome::Degraded,
            Completeness::Incomplete { .. } => ScanOutcome::Incomplete,
        }
    }

    /// The process exit code: 0 clean or degraded, 2 incomplete, 130
    /// interrupted.
    pub fn exit_code(&self) -> (c: i32)
        ensures
            c == exit_code_spec(*self),
    {
        match self {
            ScanOutcome::Clean | ScanOutcome::Degraded => 0,
            ScanOutcome::Incomplete => 2,
            ScanOutcome::Interrupted => 130,
        }
    }
}

/// Arguments of the scan subcommand.
pub struct ScanArgs {
    /// Write the JSON snapshot only, no tarball or artifacts.
    pub inspect_only: bool,
    /// Output tarball path, or directory with `inspect_only`.
    pub output: Option<String>,
    /// Target base image for cross-distro conversion.
    pub base_image: Option<String>,
    /// Skip baseline extraction.
    pub no_baseline: bool,
    /// Preserve password hashes of users whose password is set.
    pub preserve_password_hashes: bool,
    /// Preserve full SSH authorized_keys content per user.
    pub preserve_ssh_keys: bool,
    /// Acknowledge that the snapshot holds sensitive data.
    pub acknowledge_sensitive: bool,
    /// Progress display mode.
    pub progress: Option<ProgressMode>,
}

/// A base image and skipping the baseline cannot be asked for together.
pub fn check_scan_flags(args: &ScanArgs) -> (r: Result<(), String>)
    ensures
        r is Err <==> (args.base_image is Some && args.no_baseline),
        r matches Err(m) ==> m@ == "Cannot specify both --base-image and --no-baseline. Use --base-image to set the target image, or --no-baseline to skip baseline extraction."@,
{
    if args.base_image.is_some() && args.no_baseline {
        return Err("Cannot specify both --base-image and --no-baseline. Use --base-image to set the target image, or --no-baseline to skip baseline extraction.".to_owned());
    }
    Ok(())
}

/// Scanning reads system state that needs root: for any effective user
/// other than root (uid 0) the scan refuses with these lines.
pub fn root_refusal(euid: u32) -> (r: Option<Vec<String>>)
    ensures
        r is None <==> euid == 0,
        r matches Some(ls) ==> string_views(ls@) == seq![
            "Error: inspectah scan requires root privileges."@,
            "Run with: sudo inspectah scan [options]"@,
        ],
{
    if euid == 0 {
        return None;
    }
    let v = vec!["Error: inspectah scan requires root privileges.".to_owned(), "Run with: sudo inspectah scan [options]".to_owned()];
    assert(string_views(v@) =~= seq![
        "Error: inspectah scan requires root privileges."@,
        "Run with: sudo inspectah scan [options]"@,
    ]);
    Some(v)
}

/// The lines a refused sensitive export prints before its error: what the
/// snapshot holds, how to export anyway, and how many credentials and SSH
/// keys were preserved.
pub fn sensitive_export_notice(preserved_credentials: usize, preserved_ssh_keys: usize) -> (v: Vec<String>)
    ensures
        string_views(v@) == seq![
            "Error: Snapshot contains sensitive data (password hashes or SSH keys)."@,
            "       To export, re-run with --acknowledge-sensitive"@,
            "       Preserved credentials: "@ + decimal(preserved_credentials as nat),
            "       Preserved SSH keys: "@ + decimal(preserved_ssh_keys as nat),
        ],
{
    let mut c = "       Preserved credentials: ".to_owned();
    push_decimal(&mut c, preserved_credentials);
    let mut k = "       Preserved SSH keys: ".to_owned();
    push_decimal(&mut k, preserved_ssh_keys);
    let v = vec![
        "Error: Snapshot contains sensitive data (password hashes or SSH keys).".to_owned(),
        "       To export, re-run with --acknowledge-sensitive".to_owned(),
        c,
        k,
    ];
    assert(string_views(v@) =~= seq![
        "Error: Snapshot contains sensitive data (password hashes or SSH keys)."@,
        "       To export, re-run with --acknowledge-sensitive"@,
        "       Preserved credentials: "@ + decimal(preserved_credentials as nat),
        "       Preserved SSH keys: "@ + decimal(preserved_ssh_keys as nat),
    ]);
    v
}

/// A snapshot taken with password hashes or SSH keys preserved holds
/// sensitive data, and is exported only when the user acknowledged that.
pub fn check_export_allowed(args: &ScanArgs) -> (r: Result<(), String>)
    ensures
        r is Err <==> ((args.preserve_password_hashes || args.preserve_ssh_keys) && !args.acknowledge_sensitive),
        r matches Err(m) ==> m@ == "Cannot export sensitive snapshot without --acknowledge-sensitive flag"@,
{
    if (args.preserve_password_hashes || args.preserve_ssh_keys) && !args.acknowledge_sensitive {
        return Err("Cannot export sensitive snapshot without --acknowledge-sensitive flag".to_owned());
    }
    Ok(())
}

/// The hostname for naming the tarball: the trimmed output of `hostname`,
/// or `unknown` when empty.
pub fn hostname_from_output(stdout: &str) -> (h: String)
    ensures
        h@ == (if trim_spec(stdout@).len() == 0 { "unknown"@ } else { trim_spec(stdout@) }),
{
    let t = crate::text::trim_str(stdout);
    let n = crate::pull_progress::byte_length(t.as_str());
    proof { crate::pull_progress::lemma_byte_len_bounds(t@); }
    if n == 0 {
        "unknown".to_owned()
    } else {
        t
    }
}

/// Fields of `/etc/os-release`.
pub struct OsRelease {
    pub name: String,
    pub version_id: String,
    pub version: String,
    pub id: String,
    pub id_like: String,
    pub pretty_name: String,
    pub variant_id: String,
}

/// The abstract value of the parsed fields, in declaration order.
pub open spec fn os_view(o: OsRelease) -> Seq<Seq<char>> {
    seq![o.name@, o.version_id@, o.version@, o.id@, o.id_like@, o.pretty_name@, o.variant_id@]
}

/// The keys that are read, in the order of [`os_view`].
pub open spec fn os_keys() -> Seq<Seq<char>> {
    seq!["NAME"@, "VERSION_ID"@, "VERSION"@, "ID"@, "ID_LIKE"@, "PRETTY_NAME"@, "VARIANT_ID"@]
}

/// Position of the first `c` in `s` from `i` on.
pub open spec fn index_of_from(s: Seq<char>, c: char, i: int) -> Option<int>
    decreases s.len() - i,
{
    if i < 0 || i >= s.len() {
        None
    } else if s[i] == c {
        Some(i)
    } else {
        index_of_from(s, c, i + 1)
    }
}

/// First index from `i` that is not a double quote.
pub open spec fn first_non_quote(s: Seq<char>, i: int) -> int
    decreases s.len() - i,
{
    if i >= s.len() { s.len() as int } else if s[i] == '"' { first_non_quote(s, i + 1) } else { i }
}

/// End of `s[..j]` without trailing double quotes.
pub open spec fn end_non_quote(s: Seq<char>, j: int) -> int
    decreases j,
{
    if j <= 0 { 0 } else if s[j - 1] == '"' { end_non_quote(s, j - 1) } else { j }
}

/// `s.trim_matches('"')`.
pub open spec fn strip_quotes(s: Seq<char>) -> Seq<char> {
    let a = first_non_quote(s, 0);
    let b = end_non_quote(s, s.len() as int);
    if a >= b { Seq::empty() } else { s.subrange(a, b) }
}

/// The (key, value) of an os-release line: the trimmed line split at its
/// first `=`, the value without surrounding double quotes.
pub open spec fn key_value(line: Seq<char>) -> Option<(Seq<char>, Seq<char>)> {
    let t = trim_spec(line);
    match index_of_from(t, '=', 0) {
        Some(i) => Some((t.take(i), strip_quotes(t.skip(i + 1)))),
        None => None,
    }
}

/// The fields after reading the first `n` lines: a line whose key is
/// known sets that field; later lines win.
pub open spec fn os_after(lines: Seq<Seq<char>>, n: nat) -> Seq<Seq<char>>
    decreases n,
{
    if n == 0 {
        seq![Seq::empty(), Seq::empty(), Seq::empty(), Seq::empty(), Seq::empty(), Seq::empty(), Seq::empty()]
    } else {
        let prev = os_after(lines, (n - 1) as nat);
        match key_value(lines[n - 1]) {
            Some((k, v)) => match os_keys().index_of_first(k) {
                Some(f) => prev.update(f, v),
                None => prev,
            },
            None => prev,
        }
    }
}

fn find_char(s: &Vec<char>, c: char) -> (r: Option<usize>)
    ensures
        match r {
            Some(i) => index_of_from(s@, c, 0) == Some(i as int) && i < s@.len(),
            None => index_of_from(s@, c, 0) is None,
        },
{
    let mut i: usize = 0;
    while i < s.len()
        invariant
            0 <= i <= s@.len(),
            index_of_from(s@, c, 0) == index_of_from(s@, c, i as int),
        decreases s@.len() - i,
    {
        if s[i] == c {
            return Some(i);
        }
        i = i + 1;
    }
    None
}

proof fn lemma_first_non_quote_bounds(s: Seq<char>, i: int)
    requires
        0 <= i <= s.len(),
    ensures
        i <= first_non_quote(s, i) <= s.len(),
    decreases s.len() - i,
{
    if i < s.len() && s[i] == '"' {
        lemma_first_non_quote_bounds(s, i + 1);
    }
}

proof fn lemma_end_non_quote_bounds(s: Seq<char>, j: int)
    requires
        0 <= j <= s.len(),
    ensures
        0 <= end_non_quote(s, j) <= j,
    decreases j,
{
    if j > 0 && s[j - 1] == '"' {
        lemma_end_non_quote_bounds(s, j - 1);
    }
}

fn strip_quotes_exec(s: &Vec<char>, from: usize) -> (r: String)
    requires
        from <= s@.len(),
    ensures
        r@ == strip_quotes(s@.skip(from as int)),
{
    let ghost t = s@.skip(from as int);
    let n = s.len();
    proof {
        lemma_first_non_quote_bounds(t, 0);
        lemma_end_non_quote_bounds(t, t.len() as int);
    }
    let mut a: usize = from;
    while a < n && s[a] == '"'
        invariant
            t == s@.skip(from as int),
            n == s@.len(),
            from <= a <= n,
            first_non_quote(t, 0) == first_non_quote(t, a - from),
        decreases n - a,
    {
        a = a + 1;
    }
    let mut b: usize = n;
    while b > from && s[b - 1] == '"'
        invariant
            t == s@.skip(from as int),
            n == s@.len(),
            from <= b <= n,
            end_non_quote(t, t.len() as int) == end_non_quote(t, b - from),
        decreases b,
    {
        b = b - 1;
    }
    let mut r = String::new();
    if a >= b {
        assert(r@ =~= strip_quotes(t));
        return r;
    }
    let mut k = a;
    while k < b
        invariant
            t == s@.skip(from as int),
            from <= a <= k <= b,
            b <= s@.len(),
            r@ == s@.subrange(a as int, k as int),
        decreases b - k,
    {
        crate::text::push_char(&mut r, s[k]);
        assert(r@ =~= s@.subrange(a as int, k + 1));
        k = k + 1;
    }
    assert(r@ =~= strip_quotes(t));
    r
}

fn key_slot(key: &str) -> (r: Option<usize>)
    ensures
        r matches Some(f) ==> f < 7,
        match r {
            Some(f) => os_keys().index_of_first(key@) == Some(f as int),
            None => os_keys().index_of_first(key@) is None,
        },
{
    let keys = ["NAME", "VERSION_ID", "VERSION", "ID", "ID_LIKE", "PRETTY_NAME", "VARIANT_ID"];
    let ghost kv = seq!["NAME"@, "VERSION_ID"@, "VERSION"@, "ID"@, "ID_LIKE"@, "PRETTY_NAME"@, "VARIANT_ID"@];
    assert(kv == os_keys());
    let mut i: usize = 0;
    while i < 7
        invariant
            0 <= i <= 7,
            kv == os_keys(),
            keys@.len() == 7,
            forall|j: int| 0 <= j < 7 ==> #[trigger] keys@[j]@ == kv[j],
            forall|j: int| 0 <= j < i ==> kv[j] != key@,
        decreases 7 - i,
    {
        if crate::text::str_eq(keys[i], key) {
            proof {
                let r = kv.index_of_first(key@);
                kv.index_of_first_ensures(key@);
                assert(kv.contains(key@));
                assert(r == Some(i as int));
            }
            return Some(i);
        }
        i = i + 1;
    }
    proof {
        kv.index_of_first_ensures(key@);
        assert(!kv.contains(key@));
    }
    None
}

/// Parse the key=value lines of `/etc/os-release`.
pub fn parse_os_release(content: &str) -> (os: OsRelease)
    ensures
        os_view(os) == os_after(lines_spec(content@), lines_spec(content@).len()),
{
    let lines = crate::text::lines_of(content);
    let ghost ls = string_views(lines@);
    let mut fields: Vec<String> = vec![String::new(), String::new(), String::new(), String::new(), String::new(), String::new(), String::new()];
    let mut i: usize = 0;
    while i < lines.len()
        invariant
            0 <= i <= lines@.len(),
            ls == string_views(lines@),
            ls == lines_spec(content@),
            fields@.len() == 7,
            string_views(fields@) == os_after(ls, i as nat),
        decreases lines@.len() - i,
    {
        let ghost prev = string_views(fields@);
        let t = crate::text::trim_str(lines[i].as_str());
        assert(ls[i as int] == lines@[i as int]@);
        let cs = crate::text::chars_of(t.as_str());
        match find_char(&cs, '=') {
            Some(eq) => {
                let mut key = String::new();
                let mut k: usize = 0;
                while k < eq
                    invariant
                        cs@ == t@,
                        eq < cs@.len(),
                        0 <= k <= eq,
                        key@ == t@.take(k as int),
                    decreases eq - k,
                {
                    crate::text::push_char(&mut key, cs[k]);
                    assert(key@ =~= t@.take(k + 1));
                    k = k + 1;
                }
                let val = strip_quotes_exec(&cs, eq + 1);
                match key_slot(key.as_str()) {
                    Some(f) => {
                        fields.set(f, val);
                        assert(string_views(fields@) =~= prev.update(f as int, val@));
                    },
                    None => {},
                }
            },
            None => {},
        }
        assert(string_views(fields@) =~= os_after(ls, (i + 1) as nat));
        i = i + 1;
    }
    let os = OsRelease {
        name: fields[0].clone(),
        version_id: fields[1].clone(),
        version: fields[2].clone(),
        id: fields[3].clone(),
        id_like: fields[4].clone(),
        pretty_name: fields[5].clone(),
        variant_id: fields[6].clone(),
    };
    assert(os_view(os) =~= string_views(fields@));
    os
}

/// Item counts of the snapshot sections the summary mentions; `None` for
/// a section the snapshot lacks.
pub struct SummaryCounts {
    pub packages_added: Option<usize>,
    pub config_files: Option<usize>,
    pub service_changes: Option<usize>,
    pub running_containers: Option<usize>,
}

/// One part of the summary: `"{n} {noun}"` when present and non-zero.
pub open spec fn count_part(c: Option<usize>, noun: Seq<char>) -> Seq<Seq<char>> {
    match c {
        Some(n) => if n > 0 { seq![decimal(n as nat) + " "@ + noun] } else { Seq::empty() },
        None => Seq::empty(),
    }
}

/// The summary: packages, configs, services, containers, joined by ", ".
pub open spec fn summary_spec(c: SummaryCounts) -> Seq<char> {
    join_seq(
        count_part(c.packages_added, "packages"@) + count_part(c.config_files, "configs"@)
            + count_part(c.service_changes, "services"@) + count_part(c.running_containers, "containers"@),
        ", "@,
    )
}

fn push_count(parts: &mut Vec<String>, c: Option<usize>, noun: &str)
    ensures
        string_views(final(parts)@) == string_views(old(parts)@) + count_part(c, noun@),
{
    match c {
        Some(n) => {
            if n > 0 {
                let mut s = String::new();
                push_decimal(&mut s, n);
                push_str(&mut s, " ");
                push_str(&mut s, noun);
                let ghost before = parts@;
                parts.push(s);
                assert(string_views(parts@) =~= string_views(before) + count_part(c, noun@));
            } else {
                assert(string_views(parts@) =~= string_views(old(parts)@) + count_part(c, noun@));
            }
        },
        None => {
            assert(string_views(parts@) =~= string_views(old(parts)@) + count_part(c, noun@));
        },
    }
}

/// The one-line count summary of a scan, like `3 packages, 2 configs`.
pub fn build_summary_counts(c: &SummaryCounts) -> (s: String)
    ensures
        s@ == summary_spec(*c),
{
    let mut parts: Vec<String> = Vec::new();
    assert(string_views(parts@) =~= Seq::<Seq<char>>::empty());
    push_count(&mut parts, c.packages_added, "packages");
    push_count(&mut parts, c.config_files, "configs");
    push_count(&mut parts, c.service_changes, "services");
    push_count(&mut parts, c.running_containers, "containers");
    let s = crate::text::join_strings(&parts, ", ");
    assert(string_views(parts@) =~= count_part(c.packages_added, "packages"@) + count_part(c.config_files, "configs"@)
        + count_part(c.service_changes, "services"@) + count_part(c.running_containers, "containers"@));
    s
}

/// The detail line of an incomplete scan: failed and degraded counts.
pub open spec fn incomplete_detail(failed: nat, degraded: nat) -> Seq<char> {
    join_seq(
        (if failed > 0 { seq![decimal(failed) + " failed"@] } else { Seq::empty() })
            + (if degraded > 0 { seq![decimal(degraded) + " degraded"@] } else { Seq::empty() }),
        ", "@,
    )
}

/// The completion block printed after a scan. `elapsed` is the elapsed
/// time already formatted (`12.3s`), `counts` the count summary. Nothing
/// for an interrupted scan.
pub open spec fn completion_spec(outcome: ScanOutcome, elapsed: Seq<char>, counts: Seq<char>, completeness: Completeness, output: Option<Seq<char>>, inspect_only: bool) -> Seq<Seq<char>> {
    if outcome == ScanOutcome::Interrupted {
        Seq::empty()
    } else {
        let head = seq!["Scan complete ("@ + elapsed + ") \u{2014} "@ + counts];
        let detail = match outcome {
            ScanOutcome::Degraded => match completeness {
                Completeness::Partial { degraded_sections } => seq!["  "@ + decimal(degraded_sections@.len()) + " degraded (see report for details)"@],
                _ => Seq::empty(),
            },
            ScanOutcome::Incomplete => match completeness {
                Completeness::Incomplete { failed_sections, degraded_sections } =>
                    seq!["  "@ + incomplete_detail(failed_sections@.len(), degraded_sections@.len()) + " (see report for details)"@],
                _ => Seq::empty(),
            },
            _ => Seq::empty(),
        };
        let tail = match output {
            Some(p) => if inspect_only {
                seq!["Output: "@ + p]
            } else {
                seq!["Report: "@ + p, "To review: inspectah refine "@ + p]
            },
            None => Seq::empty(),
        };
        head + detail + tail
    }
}

/// The completion block of a scan, line by line.
pub fn completion_lines(outcome: ScanOutcome, elapsed: &str, counts: &str, completeness: &Completeness, output: Option<&str>, inspect_only: bool) -> (v: Vec<String>)
    ensures
        string_views(v@) == completion_spec(outcome, elapsed@, counts@, *completeness, match output { Some(p) => Some(p@), None => None }, inspect_only),
{
    let mut v: Vec<String> = Vec::new();
    if outcome == ScanOutcome::Interrupted {
        assert(string_views(v@) =~= Seq::<Seq<char>>::empty());
        return v;
    }
    let mut head = String::new();
    push_str(&mut head, "Scan complete (");
    push_str(&mut head, elapsed);
    push_str(&mut head, ") \u{2014} ");
    push_str(&mut head, counts);
    v.push(head);
    let ghost h = string_views(v@);
    match outcome {
        ScanOutcome::Degraded => {
            if let Completeness::Partial { degraded_sections } = completeness {
                let mut d = String::new();
                push_str(&mut d, "  ");
                push_decimal(&mut d, degraded_sections.len());
                push_str(&mut d, " degraded (see report for details)");
                v.push(d);
            }
        },
        ScanOutcome::Incomplete => {
            if let Completeness::Incomplete { failed_sections, degraded_sections } = completeness {
                let mut parts: Vec<String> = Vec::new();
                if failed_sections.len() > 0 {
                    let mut p = String::new();
                    push_decimal(&mut p, failed_sections.len());
                    push_str(&mut p, " failed");
                    parts.push(p);
                }
                if degraded_sections.len() > 0 {
                    let mut p = String::new();
                    push_decimal(&mut p, degraded_sections.len());
                    push_str(&mut p, " degraded");
                    parts.push(p);
                }
                let ghost fl = failed_sections@.len();
                let ghost dl = degraded_sections@.len();
                assert(string_views(parts@) =~= (if fl > 0 { seq![decimal(fl) + " failed"@] } else { Seq::empty() })
                    + (if dl > 0 { seq![decimal(dl) + " degraded"@] } else { Seq::empty() }));
                let joined = crate::text::join_strings(&parts, ", ");
                let mut d = String::new();
                push_str(&mut d, "  ");
                push_str(&mut d, joined.as_str());
                push_str(&mut d, " (see report for details)");
                v.push(d);
            }
        },
        _ => {},
    }
    let ghost mid = string_views(v@);
    match output {
        Some(p) => {
            if inspect_only {
                let mut l = String::new();
                push_str(&mut l, "Output: ");
                push_str(&mut l, p);
                v.push(l);
            } else {
                let mut l = String::new();
                push_str(&mut l, "Report: ");
                push_str(&mut l, p);
                v.push(l);
                let mut l2 = String::new();
                push_str(&mut l2, "To review: inspectah refine ");
                push_str(&mut l2, p);
                v.push(l2);
            }
        },
        None => {},
    }
    assert(string_views(v@) =~= completion_spec(outcome, elapsed@, counts@, *completeness, match output { Some(p) => Some(p@), None => None }, inspect_only));
    v
}

} // verus!
