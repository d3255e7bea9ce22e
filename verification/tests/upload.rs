use inspectah::web::upload::{error_status_and_message, remove_reply, split_name_arch, upload_file_name, upload_reply, RefineError};

#[test]
fn error_replies_by_kind() {
    assert_eq!(error_status_and_message(&RefineError::UnknownTarget("pkg:foo".into())), (422, "unknown target: pkg:foo".to_string()));
    assert_eq!(error_status_and_message(&RefineError::NothingToUndo), (409, "nothing to undo".to_string()));
    assert_eq!(error_status_and_message(&RefineError::NothingToRedo), (409, "nothing to redo".to_string()));
    assert_eq!(
        error_status_and_message(&RefineError::StaleGeneration { expected: 3, actual: 15 }),
        (409, "stale generation: expected 3, got 15".to_string())
    );
    assert_eq!(error_status_and_message(&RefineError::UntrustedSnapshot("bad sig".into())), (422, "bad sig".to_string()));
    assert_eq!(error_status_and_message(&RefineError::ArchiveSafety("symlink".into())), (400, "symlink".to_string()));
    assert_eq!(error_status_and_message(&RefineError::BadRequest("no".into())), (400, "no".to_string()));
    assert_eq!(error_status_and_message(&RefineError::NotFound("gone".into())), (404, "gone".to_string()));
    assert_eq!(error_status_and_message(&RefineError::TarballError("disk full".into())), (500, "internal error".to_string()));
    assert_eq!(error_status_and_message(&RefineError::Internal("boom".into())), (500, "internal error".to_string()));
}

#[test]
fn upload_name_strips_directories() {
    assert_eq!(upload_file_name(Some("../../etc/evil.rpm")), Ok("evil.rpm".to_string()));
    assert_eq!(upload_file_name(Some("nginx-1.20.1-1.el9.x86_64.rpm")), Ok("nginx-1.20.1-1.el9.x86_64.rpm".to_string()));
}

#[test]
fn upload_name_defaults_to_unknown() {
    assert_eq!(upload_file_name(None), Ok("unknown.rpm".to_string()));
    assert_eq!(upload_file_name(Some("/")), Ok("unknown.rpm".to_string()));
}

#[test]
fn upload_name_must_end_in_rpm() {
    assert_eq!(
        upload_file_name(Some("/tmp/notes.txt")),
        Err(RefineError::BadRequest("only .rpm files accepted, got: notes.txt".into()))
    );
}

#[test]
fn upload_reply_status() {
    let r = upload_reply(2, Some("nginx.x86_64".into()));
    assert_eq!((r.uploaded, r.matched.as_deref(), r.status.as_str()), (2, Some("nginx.x86_64"), "matched"));
    let r = upload_reply(1, None);
    assert_eq!((r.uploaded, r.matched, r.status.as_str()), (1, None, "unmatched"));
}

#[test]
fn name_arch_split_at_last_dot() {
    assert_eq!(split_name_arch("python3.11-libs.x86_64"), Ok(("python3.11-libs".to_string(), "x86_64".to_string())));
    assert_eq!(split_name_arch("nginx.noarch"), Ok(("nginx".to_string(), "noarch".to_string())));
    assert_eq!(split_name_arch("trailing."), Ok(("trailing".to_string(), String::new())));
    assert_eq!(split_name_arch("nodot"), Err(RefineError::BadRequest("invalid name.arch format: nodot".into())));
}

#[test]
fn remove_reply_by_found() {
    let ok = remove_reply("nginx.x86_64", true).ok().unwrap();
    assert_eq!((ok.removed.as_str(), ok.status.as_str()), ("nginx.x86_64", "removed"));
    assert_eq!(remove_reply("nginx.x86_64", false).err(), Some(RefineError::NotFound("no uploaded RPM for nginx.x86_64".into())));
}

#[test]
fn upload_names_follow_unix_path_components() {
    assert_eq!(upload_file_name(Some("dir//pkg.rpm/")), Ok("pkg.rpm".to_string()));
    assert_eq!(upload_file_name(Some("dir/pkg.rpm/.")), Ok("pkg.rpm".to_string()));
    assert_eq!(upload_file_name(Some("pkg.rpm/..")), Ok("unknown.rpm".to_string()));
    assert_eq!(upload_file_name(Some(".")), Ok("unknown.rpm".to_string()));
    assert_eq!(upload_file_name(Some("")), Ok("unknown.rpm".to_string()));
}
