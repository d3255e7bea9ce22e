use inspectah::tui_types::ItemId;
use inspectah::web::aggregate::{AggregateDiffStats, AggregateLineRange, HostPrevalence, PrevalenceZone, VariantSelection};
use inspectah::web::diff::{
    aggregate_diff_response, malformed_request_reply, plan_aggregate_diff, AggregateDiffError, AggregateDiffRequest, ChangeKind, DiffChange, DiffError,
    DiffHunk, DiffPlan, DiffResult,
};
use inspectah::web::fleet::{ConfigFileVariant, ContentVariant};

fn file(path: &str, hash: &str, hosts: &[&str]) -> ConfigFileVariant {
    ConfigFileVariant {
        path: path.into(),
        default_kind: false,
        variant: ContentVariant {
            content_hash: hash.into(),
            selection: VariantSelection::Alternative,
            aggregate: Some(HostPrevalence {
                count: hosts.len() as i32,
                total: 3,
                hosts: hosts.iter().map(|h| h.to_string()).collect(),
                zone: PrevalenceZone::NearConsensus,
            }),
        },
    }
}

fn request(item_id: ItemId, base: &str, target: &str) -> AggregateDiffRequest {
    AggregateDiffRequest { item_id, base: base.into(), target: target.into() }
}

fn files() -> Option<Vec<ConfigFileVariant>> {
    Some(vec![
        file("/etc/other.conf", "aaa", &["x"]),
        file("/etc/app.conf", "aaa", &["host-a", "host-b"]),
        file("/etc/app.conf", "bbb", &["host-c"]),
    ])
}

fn config(path: &str) -> ItemId {
    ItemId::Config { path: path.into() }
}

#[test]
fn diff_refused_for_non_config_items() {
    let e = plan_aggregate_diff(&request(ItemId::Service { unit: "sshd.service".into() }, "a", "b"), &files()).err().unwrap();
    assert_eq!(e, AggregateDiffError::NotConfig);
    assert_eq!(e.message(), "diff is only supported for config items");
}

#[test]
fn diff_refused_without_config_section() {
    let e = plan_aggregate_diff(&request(config("/etc/app.conf"), "aaa", "bbb"), &None).err().unwrap();
    assert_eq!(e, AggregateDiffError::NoConfigSection);
    assert_eq!(e.message(), "no config section in snapshot");
}

#[test]
fn diff_refused_for_unknown_path_and_hashes() {
    let e = plan_aggregate_diff(&request(config("/etc/none.conf"), "aaa", "bbb"), &files()).err().unwrap();
    assert_eq!(e.message(), "unknown config path: /etc/none.conf");
    let e = plan_aggregate_diff(&request(config("/etc/app.conf"), "zzz", "bbb"), &files()).err().unwrap();
    assert_eq!(e, AggregateDiffError::UnknownBase("zzz".into()));
    assert_eq!(e.message(), "unknown base hash: zzz");
    let e = plan_aggregate_diff(&request(config("/etc/app.conf"), "aaa", "yyy"), &files()).err().unwrap();
    assert_eq!(e.message(), "unknown target hash: yyy");
}

#[test]
fn diff_plan_takes_entries_of_the_path() {
    let p = plan_aggregate_diff(&request(config("/etc/app.conf"), "aaa", "bbb"), &files()).ok().unwrap();
    assert_eq!((p.base_index, p.target_index), (1, 2));
    assert_eq!(p.base_hosts, vec!["host-a".to_string(), "host-b".to_string()]);
    assert_eq!(p.target_hosts, vec!["host-c".to_string()]);
}

fn plan() -> DiffPlan {
    DiffPlan { base_index: 1, target_index: 2, base_hosts: vec!["host-a".into()], target_hosts: vec!["host-c".into()] }
}

#[test]
fn diff_response_names_line_kinds() {
    let d = DiffResult {
        hunks: vec![DiffHunk {
            base_range: AggregateLineRange { start: 1, count: 2 },
            target_range: AggregateLineRange { start: 1, count: 2 },
            changes: vec![
                DiffChange { kind: ChangeKind::Equal, content: "a".into() },
                DiffChange { kind: ChangeKind::Delete, content: "b".into() },
                DiffChange { kind: ChangeKind::Insert, content: "c".into() },
            ],
        }],
        stats: AggregateDiffStats { total_changes: 2, insertions: 1, deletions: 1 },
    };
    let r = aggregate_diff_response("aaa".into(), "bbb".into(), plan(), Ok(d)).ok().unwrap();
    assert_eq!((r.base_hash.as_str(), r.target_hash.as_str()), ("aaa", "bbb"));
    assert_eq!(r.base_hosts, vec!["host-a".to_string()]);
    assert_eq!(r.target_hosts, vec!["host-c".to_string()]);
    assert_eq!(r.hunks.len(), 1);
    assert_eq!(r.hunks[0].base_range, AggregateLineRange { start: 1, count: 2 });
    let kinds: Vec<&str> = r.hunks[0].changes.iter().map(|c| c.kind.as_str()).collect();
    assert_eq!(kinds, vec!["equal", "delete", "insert"]);
    assert_eq!(r.hunks[0].changes[2].content, "c");
    assert_eq!(r.stats, AggregateDiffStats { total_changes: 2, insertions: 1, deletions: 1 });
}

#[test]
fn diff_response_refusals() {
    let e = aggregate_diff_response("a".into(), "b".into(), plan(), Err(DiffError::BinaryContent)).err().unwrap();
    assert_eq!(e.message(), "binary content cannot be diffed");
    let e = aggregate_diff_response("a".into(), "b".into(), plan(), Err(DiffError::InputTooLarge)).err().unwrap();
    assert_eq!(e.message(), "content exceeds size limit for diffing");
}

#[test]
fn diff_refusals_are_unprocessable() {
    for e in [
        AggregateDiffError::NotConfig,
        AggregateDiffError::NoConfigSection,
        AggregateDiffError::UnknownPath("/etc/x".into()),
        AggregateDiffError::UnknownBase("h".into()),
        AggregateDiffError::UnknownTarget("h".into()),
        AggregateDiffError::BinaryContent,
        AggregateDiffError::InputTooLarge,
    ] {
        assert_eq!(e.status(), 422);
    }
    let (status, msg) = malformed_request_reply("missing field `base`");
    assert_eq!(status, 400);
    assert_eq!(msg, "invalid request: missing field `base`");
}
