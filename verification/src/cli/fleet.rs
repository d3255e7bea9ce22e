//! `inspectah fleet`: its arguments and subcommands.

use vstd::prelude::*;

verus! {

/// Arguments of the fleet subcommand.
pub struct FleetArgs {
    pub command: FleetSubcommand,
}

/// The fleet subcommands.
pub enum FleetSubcommand {
    /// Aggregate host tarballs into a fleet tarball.
    Aggregate(FleetAggregateArgs),
    /// Generate a fleet manifest from a directory of tarballs.
    Init(FleetInitArgs),
}

/// Arguments of `fleet aggregate`.
pub struct FleetAggregateArgs {
    /// Input tarballs, or a directory of tarballs.
    pub inputs: Vec<String>,
    /// Fleet manifest (TOML) naming the sources.
    pub manifest: Option<String>,
    /// Baseline image reference override.
    pub baseline: Option<String>,
    /// Output directory for the fleet tarball.
    pub output_dir: Option<String>,
    /// Output file for the fleet tarball.
    pub output_file: Option<String>,
    /// Write the JSON snapshot instead of a tarball.
    pub json_only: bool,
    /// Treat warnings as errors.
    pub strict: bool,
    /// Per-host detail in the output.
    pub verbose: bool,
}

/// Arguments of `fleet init`.
pub struct FleetInitArgs {
    /// Directory of host tarballs.
    pub directory: String,
    /// Output path of the manifest.
    pub output: Option<String>,
    /// Overwrite an existing manifest.
    pub overwrite: bool,
}

pub open spec fn init_unavailable() -> Seq<char> {
    "fleet init is not yet implemented (coming in a future release)"@
}

/// Entry point of `inspectah fleet`: `aggregate` proceeds with its
/// arguments; `init` is refused as not yet available.
pub fn run_fleet(args: &FleetArgs) -> (r: Result<&FleetAggregateArgs, String>)
    ensures
        match args.command {
            FleetSubcommand::Aggregate(a) => r == Ok::<&FleetAggregateArgs, String>(&a),
            FleetSubcommand::Init(_) => r matches Err(e) && e@ == init_unavailable(),
        },
{
    match &args.command {
        FleetSubcommand::Aggregate(agg) => Ok(agg),
        FleetSubcommand::Init(_) => Err("fleet init is not yet implemented (coming in a future release)".to_owned()),
    }
}

/// How `fleet aggregate` finds its tarballs.
#[derive(Debug, Clone, Copy, PartialEq, Eq, Structural)]
pub enum InputMode {
    /// From the sources of the manifest.
    Manifest,
    /// All `.tar.gz` files of a single directory.
    Directory,
    /// The tarball paths given.
    Paths,
}

/// The input mode, or why the inputs are unusable: a manifest and paths
/// together, or nothing at all. `single_dir` says whether the only input
/// is a directory.
pub open spec fn input_mode_spec(a: FleetAggregateArgs, single_dir: bool) -> Result<InputMode, Seq<char>> {
    if a.manifest is Some && a.inputs@.len() > 0 {
        Err("cannot specify both --manifest and positional input paths"@)
    } else if a.manifest is Some {
        Ok(InputMode::Manifest)
    } else if a.inputs@.len() == 1 && single_dir {
        Ok(InputMode::Directory)
    } else if a.inputs@.len() > 0 {
        Ok(InputMode::Paths)
    } else {
        Err("no inputs specified \u{2014} provide tarball paths, a directory, or --manifest"@)
    }
}

/// Decide how the inputs of `fleet aggregate` are resolved.
pub fn input_mode(a: &FleetAggregateArgs, single_dir: bool) -> (r: Result<InputMode, String>)
    ensures
        match r {
            Ok(m) => input_mode_spec(*a, single_dir) == Ok::<InputMode, Seq<char>>(m),
            Err(e) => input_mode_spec(*a, single_dir) == Err::<InputMode, Seq<char>>(e@),
        },
{
    if a.manifest.is_some() && a.inputs.len() > 0 {
        return Err("cannot specify both --manifest and positional input paths".to_owned());
    }
    if a.manifest.is_some() {
        return Ok(InputMode::Manifest);
    }
    if a.inputs.len() == 1 && single_dir {
        return Ok(InputMode::Directory);
    }
    if a.inputs.len() > 0 {
        return Ok(InputMode::Paths);
    }
    Err("no inputs specified \u{2014} provide tarball paths, a directory, or --manifest".to_owned())
}

/// A directory entry is taken as a host tarball when its name ends in
/// `.tar.gz`.
pub fn is_tarball_name(name: &str) -> (b: bool)
    ensures
        b == crate::text::ends_with(name@, ".tar.gz"@),
{
    let cs = crate::text::chars_of(name);
    let suffix = crate::text::chars_of(".tar.gz");
    crate::text::ends_with_vec(&cs, &suffix)
}

/// A warning raised when merging a fleet.
pub enum FleetWarning {
    StaleScanDates { spread_description: String },
    BaselineConflict { distribution: Vec<(String, usize)>, selected: String },
    MinorVersionSpread { versions: Vec<String> },
    SystemTypeMismatch { types: Vec<String> },
}

pub open spec fn dist_part(d: (String, usize)) -> Seq<char> {
    d.0@ + " ("@ + crate::text::decimal(d.1 as nat) + ")"@
}

/// The text of a fleet warning.
pub open spec fn warning_text(w: FleetWarning) -> Seq<char> {
    match w {
        FleetWarning::StaleScanDates { spread_description } => "stale scan dates: "@ + spread_description@,
        FleetWarning::BaselineConflict { distribution, selected } => "baseline conflict: selected "@ + selected@ + " from ["@
            + crate::text::join_seq(distribution@.map_values(|d: (String, usize)| dist_part(d)), ", "@) + "]"@,
        FleetWarning::MinorVersionSpread { versions } => "minor version spread: "@
            + crate::text::join_seq(crate::text::string_views(versions@), ", "@),
        FleetWarning::SystemTypeMismatch { types } => "system type mismatch: "@
            + crate::text::join_seq(crate::text::string_views(types@), ", "@),
    }
}

/// Format a fleet warning for the terminal.
pub fn format_warning(w: &FleetWarning) -> (s: String)
    ensures
        s@ == warning_text(*w),
{
    let mut s = String::new();
    match w {
        FleetWarning::StaleScanDates { spread_description } => {
            crate::text::push_str(&mut s, "stale scan dates: ");
            crate::text::push_str(&mut s, spread_description.as_str());
        },
        FleetWarning::BaselineConflict { distribution, selected } => {
            let mut parts: Vec<String> = Vec::new();
            let mut i: usize = 0;
            while i < distribution.len()
                invariant
                    0 <= i <= distribution@.len(),
                    crate::text::string_views(parts@) == distribution@.map_values(|d: (String, usize)| dist_part(d)).take(i as int),
                decreases distribution@.len() - i,
            {
                let mut p = String::new();
                crate::text::push_str(&mut p, distribution[i].0.as_str());
                crate::text::push_str(&mut p, " (");
                crate::text::push_decimal(&mut p, distribution[i].1);
                crate::text::push_str(&mut p, ")");
                let ghost before = parts@;
                parts.push(p);
                assert(crate::text::string_views(parts@) =~= crate::text::string_views(before).push(p@));
                assert(distribution@.map_values(|d: (String, usize)| dist_part(d)).take(i + 1)
                    =~= distribution@.map_values(|d: (String, usize)| dist_part(d)).take(i as int).push(p@));
                i = i + 1;
            }
            assert(distribution@.map_values(|d: (String, usize)| dist_part(d)).take(distribution@.len() as int)
                =~= distribution@.map_values(|d: (String, usize)| dist_part(d)));
            crate::text::push_str(&mut s, "baseline conflict: selected ");
            crate::text::push_str(&mut s, selected.as_str());
            crate::text::push_str(&mut s, " from [");
            let j = crate::text::join_strings(&parts, ", ");
            crate::text::push_str(&mut s, j.as_str());
            crate::text::push_str(&mut s, "]");
        },
        FleetWarning::MinorVersionSpread { versions } => {
            crate::text::push_str(&mut s, "minor version spread: ");
            let j = crate::text::join_strings(versions, ", ");
            crate::text::push_str(&mut s, j.as_str());
        },
        FleetWarning::SystemTypeMismatch { types } => {
            crate::text::push_str(&mut s, "system type mismatch: ");
            let j = crate::text::join_strings(types, ", ");
            crate::text::push_str(&mut s, j.as_str());
        },
    }
    s
}

/// Why a set of snapshots cannot be merged into a fleet.
pub enum FleetValidationError {
    TooFewSnapshots { count: usize },
    SchemaVersionMismatch { versions: Vec<u32> },
    DuplicateHostname { hostname: String },
    ArchitectureMismatch { architectures: Vec<String> },
    EmptySnapshot { hostname: String },
    OsMajorVersionMismatch { versions: Vec<String> },
}

/// `[a, b, c]`: numbers as a bracketed list.
pub open spec fn number_list(vs: Seq<u32>) -> Seq<char> {
    "["@ + crate::text::join_seq(vs.map_values(|v: u32| crate::text::decimal(v as nat)), ", "@) + "]"@
}

/// The text of a validation error.
pub open spec fn validation_text(e: FleetValidationError) -> Seq<char> {
    match e {
        FleetValidationError::TooFewSnapshots { count } => "too few snapshots: "@ + crate::text::decimal(count as nat) + " (need at least 2)"@,
        FleetValidationError::SchemaVersionMismatch { versions } => "schema version mismatch: "@ + number_list(versions@),
        FleetValidationError::DuplicateHostname { hostname } => "duplicate hostname: "@ + hostname@,
        FleetValidationError::ArchitectureMismatch { architectures } => "architecture mismatch: "@
            + crate::text::join_seq(crate::text::string_views(architectures@), ", "@),
        FleetValidationError::EmptySnapshot { hostname } => "empty snapshot: "@ + hostname@,
        FleetValidationError::OsMajorVersionMismatch { versions } => "OS major version mismatch: "@
            + crate::text::join_seq(crate::text::string_views(versions@), ", "@),
    }
}

/// The message of a failed fleet validation: a heading and one indented
/// line per error.
pub open spec fn validation_message(errors: Seq<FleetValidationError>) -> Seq<char> {
    "fleet validation failed:\n  "@ + crate::text::join_seq(errors.map_values(|e: FleetValidationError| validation_text(e)), "\n  "@)
}

fn number_list_exec(vs: &Vec<u32>) -> (s: String)
    ensures
        s@ == number_list(vs@),
{
    let mut parts: Vec<String> = Vec::new();
    let mut i: usize = 0;
    while i < vs.len()
        invariant
            0 <= i <= vs@.len(),
            crate::text::string_views(parts@) == vs@.map_values(|v: u32| crate::text::decimal(v as nat)).take(i as int),
        decreases vs@.len() - i,
    {
        let mut p = String::new();
        crate::text::push_decimal(&mut p, vs[i] as usize);
        let ghost before = parts@;
        parts.push(p);
        assert(crate::text::string_views(parts@) =~= crate::text::string_views(before).push(p@));
        assert(vs@.map_values(|v: u32| crate::text::decimal(v as nat)).take(i + 1)
            =~= vs@.map_values(|v: u32| crate::text::decimal(v as nat)).take(i as int).push(p@));
        i = i + 1;
    }
    assert(vs@.map_values(|v: u32| crate::text::decimal(v as nat)).take(vs@.len() as int) =~= vs@.map_values(|v: u32| crate::text::decimal(v as nat)));
    let mut s = String::new();
    crate::text::push_str(&mut s, "[");
    let j = crate::text::join_strings(&parts, ", ");
    crate::text::push_str(&mut s, j.as_str());
    crate::text::push_str(&mut s, "]");
    assert(s@ =~= number_list(vs@));
    s
}

fn validation_text_exec(e: &FleetValidationError) -> (s: String)
    ensures
        s@ == validation_text(*e),
{
    let mut s = String::new();
    match e {
        FleetValidationError::TooFewSnapshots { count } => {
            crate::text::push_str(&mut s, "too few snapshots: ");
            crate::text::push_decimal(&mut s, *count);
            crate::text::push_str(&mut s, " (need at least 2)");
        },
        FleetValidationError::SchemaVersionMismatch { versions } => {
            crate::text::push_str(&mut s, "schema version mismatch: ");
            let l = number_list_exec(versions);
            crate::text::push_str(&mut s, l.as_str());
        },
        FleetValidationError::DuplicateHostname { hostname } => {
            crate::text::push_str(&mut s, "duplicate hostname: ");
            crate::text::push_str(&mut s, hostname.as_str());
        },
        FleetValidationError::ArchitectureMismatch { architectures } => {
            crate::text::push_str(&mut s, "architecture mismatch: ");
            let j = crate::text::join_strings(architectures, ", ");
            crate::text::push_str(&mut s, j.as_str());
        },
        FleetValidationError::EmptySnapshot { hostname } => {
            crate::text::push_str(&mut s, "empty snapshot: ");
            crate::text::push_str(&mut s, hostname.as_str());
        },
        FleetValidationError::OsMajorVersionMismatch { versions } => {
            crate::text::push_str(&mut s, "OS major version mismatch: ");
            let j = crate::text::join_strings(versions, ", ");
            crate::text::push_str(&mut s, j.as_str());
        },
    }
    assert(s@ =~= validation_text(*e));
    s
}

/// The message of a failed fleet validation.
pub fn format_validation_errors(errors: &Vec<FleetValidationError>) -> (s: String)
    ensures
        s@ == validation_message(errors@),
{
    let mut msgs: Vec<String> = Vec::new();
    let mut i: usize = 0;
    while i < errors.len()
        invariant
            0 <= i <= errors@.len(),
            crate::text::string_views(msgs@) == errors@.map_values(|e: FleetValidationError| validation_text(e)).take(i as int),
        decreases errors@.len() - i,
    {
        let m = validation_text_exec(&errors[i]);
        let ghost before = msgs@;
        msgs.push(m);
        assert(crate::text::string_views(msgs@) =~= crate::text::string_views(before).push(m@));
        assert(errors@.map_values(|e: FleetValidationError| validation_text(e)).take(i + 1)
            =~= errors@.map_values(|e: FleetValidationError| validation_text(e)).take(i as int).push(m@));
        i = i + 1;
    }
    assert(errors@.map_values(|e: FleetValidationError| validation_text(e)).take(errors@.len() as int)
        =~= errors@.map_values(|e: FleetValidationError| validation_text(e)));
    let mut s = String::new();
    crate::text::push_str(&mut s, "fleet validation failed:\n  ");
    let j = crate::text::join_strings(&msgs, "\n  ");
    crate::text::push_str(&mut s, j.as_str());
    s
}

} // verus!

verus! {

// ---- aggregating the fleet ----

/// A host tarball that could not be read, and why.
pub struct UnparseableFile {
    pub path: String,
    pub reason: String,
}

/// Refuses a fleet with no tarball, or none that could be read.
pub fn check_inputs(tarballs: usize, loaded: usize, unparseable: usize) -> (r: Result<(), String>)
    ensures
        tarballs == 0 ==> (r matches Err(m) && m@ == "no tarball files found"@),
        tarballs > 0 && loaded == 0 ==> (r matches Err(m) && m@ == "no valid snapshots found ("@ + crate::text::decimal(unparseable as nat)
            + " file(s) could not be parsed)"@),
        tarballs > 0 && loaded > 0 ==> r is Ok,
{
    if tarballs == 0 {
        return Err("no tarball files found".to_owned());
    }
    if loaded == 0 {
        let mut m = "no valid snapshots found (".to_owned();
        crate::text::push_decimal(&mut m, unparseable);
        crate::text::push_str(&mut m, " file(s) could not be parsed)");
        return Err(m);
    }
    Ok(())
}

pub open spec fn unparseable_text(u: UnparseableFile) -> Seq<char> {
    "unparseable file: "@ + u.path@ + " ("@ + u.reason@ + ")"@
}

/// The warnings of an aggregation: the merge's own, then one per tarball
/// that could not be read.
pub open spec fn fleet_warnings_spec(ws: Seq<FleetWarning>, us: Seq<UnparseableFile>) -> Seq<Seq<char>> {
    ws.map_values(|w: FleetWarning| warning_text(w)) + us.map_values(|u: UnparseableFile| unparseable_text(u))
}

pub fn collect_fleet_warnings(ws: &Vec<FleetWarning>, us: &Vec<UnparseableFile>) -> (v: Vec<String>)
    ensures
        crate::text::string_views(v@) == fleet_warnings_spec(ws@, us@),
{
    let ghost a = ws@.map_values(|w: FleetWarning| warning_text(w));
    let ghost b = us@.map_values(|u: UnparseableFile| unparseable_text(u));
    let mut v: Vec<String> = Vec::new();
    let mut i: usize = 0;
    while i < ws.len()
        invariant
            0 <= i <= ws@.len(),
            a == ws@.map_values(|w: FleetWarning| warning_text(w)),
            crate::text::string_views(v@) == a.take(i as int),
        decreases ws@.len() - i,
    {
        let s = format_warning(&ws[i]);
        let ghost before = v@;
        v.push(s);
        assert(crate::text::string_views(v@) =~= crate::text::string_views(before).push(s@));
        assert(a.take(i + 1) =~= a.take(i as int).push(a[i as int]));
        i = i + 1;
    }
    assert(a.take(ws@.len() as int) =~= a);
    let mut j: usize = 0;
    while j < us.len()
        invariant
            0 <= j <= us@.len(),
            a == ws@.map_values(|w: FleetWarning| warning_text(w)),
            b == us@.map_values(|u: UnparseableFile| unparseable_text(u)),
            crate::text::string_views(v@) == a + b.take(j as int),
        decreases us@.len() - j,
    {
        let mut s = "unparseable file: ".to_owned();
        crate::text::push_str(&mut s, us[j].path.as_str());
        crate::text::push_str(&mut s, " (");
        crate::text::push_str(&mut s, us[j].reason.as_str());
        crate::text::push_str(&mut s, ")");
        let ghost before = v@;
        v.push(s);
        assert(crate::text::string_views(v@) =~= crate::text::string_views(before).push(s@));
        assert(b.take(j + 1) =~= b.take(j as int).push(b[j as int]));
        j = j + 1;
    }
    assert(b.take(us@.len() as int) =~= b);
    v
}

/// Under `--strict`, any warning aborts the aggregation.
pub fn check_strict(strict: bool, warnings: usize) -> (r: Result<(), String>)
    ensures
        (strict && warnings > 0) ==> (r matches Err(m) && m@ == "aborting due to --strict: "@ + crate::text::decimal(warnings as nat) + " warning(s)"@),
        !(strict && warnings > 0) ==> r is Ok,
{
    if strict && warnings > 0 {
        let mut m = "aborting due to --strict: ".to_owned();
        crate::text::push_decimal(&mut m, warnings);
        crate::text::push_str(&mut m, " warning(s)");
        return Err(m);
    }
    Ok(())
}

/// What was merged, for the closing summary.
pub struct FleetSummary {
    pub label: String,
    pub host_count: usize,
    pub packages: usize,
    pub config_files: usize,
    pub services: usize,
    pub hostnames: Vec<String>,
    /// Per section, on how many hosts it was found, in section order.
    pub section_host_counts: Vec<(String, usize)>,
    pub output: String,
}

pub open spec fn coverage_line(c: (String, usize), hosts: usize) -> Seq<char> {
    "  "@ + c.0@ + ": "@ + crate::text::decimal(c.1 as nat) + "/"@ + crate::text::decimal(hosts as nat) + " hosts"@
}

/// The closing summary of an aggregation: the fleet and its size, what was
/// merged, with `verbose` the hosts and (when known) the section coverage,
/// and the output path.
pub open spec fn summary_lines_spec(s: FleetSummary, verbose: bool) -> Seq<Seq<char>> {
    let d = |n: usize| crate::text::decimal(n as nat);
    seq![
        "Fleet: "@ + s.label@ + " ("@ + d(s.host_count) + " hosts)"@,
        "Merged: "@ + d(s.packages) + " packages, "@ + d(s.config_files) + " config files, "@ + d(s.services) + " services"@,
    ] + (if verbose {
        seq!["Hosts:"@] + crate::text::string_views(s.hostnames@).map_values(|h: Seq<char>| "  - "@ + h)
            + (if s.section_host_counts@.len() > 0 {
            seq!["Section coverage:"@] + s.section_host_counts@.map_values(|c: (String, usize)| coverage_line(c, s.host_count))
        } else {
            Seq::empty()
        })
    } else {
        Seq::empty()
    }) + seq!["Output: "@ + s.output@]
}

fn push_line(out: &mut Vec<String>, s: String)
    ensures
        crate::text::string_views(final(out)@) == crate::text::string_views(old(out)@).push(s@),
{
    let ghost before = out@;
    out.push(s);
    assert(crate::text::string_views(out@) =~= crate::text::string_views(before).push(s@));
}

pub fn fleet_summary_lines(s: &FleetSummary, verbose: bool) -> (v: Vec<String>)
    ensures
        crate::text::string_views(v@) == summary_lines_spec(*s, verbose),
{
    let mut v: Vec<String> = Vec::new();
    let mut l = "Fleet: ".to_owned();
    crate::text::push_str(&mut l, s.label.as_str());
    crate::text::push_str(&mut l, " (");
    crate::text::push_decimal(&mut l, s.host_count);
    crate::text::push_str(&mut l, " hosts)");
    push_line(&mut v, l);
    let mut l = "Merged: ".to_owned();
    crate::text::push_decimal(&mut l, s.packages);
    crate::text::push_str(&mut l, " packages, ");
    crate::text::push_decimal(&mut l, s.config_files);
    crate::text::push_str(&mut l, " config files, ");
    crate::text::push_decimal(&mut l, s.services);
    crate::text::push_str(&mut l, " services");
    push_line(&mut v, l);
    let ghost head = crate::text::string_views(v@);
    if verbose {
        push_line(&mut v, "Hosts:".to_owned());
        let ghost hv = crate::text::string_views(s.hostnames@).map_values(|h: Seq<char>| "  - "@ + h);
        let ghost h0 = crate::text::string_views(v@);
        let mut i: usize = 0;
        while i < s.hostnames.len()
            invariant
                0 <= i <= s.hostnames@.len(),
                hv == crate::text::string_views(s.hostnames@).map_values(|h: Seq<char>| "  - "@ + h),
                crate::text::string_views(v@) == h0 + hv.take(i as int),
            decreases s.hostnames@.len() - i,
        {
            let mut l = "  - ".to_owned();
            crate::text::push_str(&mut l, s.hostnames[i].as_str());
            push_line(&mut v, l);
            assert(hv.take(i + 1) =~= hv.take(i as int).push(hv[i as int]));
            i = i + 1;
        }
        assert(hv.take(s.hostnames@.len() as int) =~= hv);
        let ghost h1 = crate::text::string_views(v@);
        if s.section_host_counts.len() > 0 {
            push_line(&mut v, "Section coverage:".to_owned());
            let ghost cv = s.section_host_counts@.map_values(|c: (String, usize)| coverage_line(c, s.host_count));
            let ghost h2 = crate::text::string_views(v@);
            let mut j: usize = 0;
            while j < s.section_host_counts.len()
                invariant
                    0 <= j <= s.section_host_counts@.len(),
                    cv == s.section_host_counts@.map_values(|c: (String, usize)| coverage_line(c, s.host_count)),
                    crate::text::string_views(v@) == h2 + cv.take(j as int),
                decreases s.section_host_counts@.len() - j,
            {
                let c = &s.section_host_counts[j];
                let mut l = "  ".to_owned();
                crate::text::push_str(&mut l, c.0.as_str());
                crate::text::push_str(&mut l, ": ");
                crate::text::push_decimal(&mut l, c.1);
                crate::text::push_str(&mut l, "/");
                crate::text::push_decimal(&mut l, s.host_count);
                crate::text::push_str(&mut l, " hosts");
                push_line(&mut v, l);
                assert(cv.take(j + 1) =~= cv.take(j as int).push(cv[j as int]));
                j = j + 1;
            }
            assert(cv.take(s.section_host_counts@.len() as int) =~= cv);
        }
    }
    let mut l = "Output: ".to_owned();
    crate::text::push_str(&mut l, s.output.as_str());
    push_line(&mut v, l);
    assert(crate::text::string_views(v@) =~= summary_lines_spec(*s, verbose));
    v
}

} // verus!
