use inspectah::users::{build_user_entries, has_password_set, UserDecision, UserPasswordChoice};

fn user(name: &str, status: Option<&str>) -> UserDecision {
    UserDecision {
        name: name.to_string(),
        uid: 1000,
        containerfile_strategy: "useradd".to_string(),
        password_status: status.map(|s| s.to_string()),
        password_choice: UserPasswordChoice::Preserve,
    }
}

#[test]
fn user_entries_report_set_passwords() {
    let users = vec![user("alice", Some("password_set")), user("bob", Some("locked")), user("carol", None)];
    let entries = build_user_entries(&users);
    let got: Vec<(&str, bool)> = entries.iter().map(|e| (e.username.as_str(), e.has_password)).collect();
    assert_eq!(got, vec![("alice", true), ("bob", false), ("carol", false)]);
    assert_eq!(entries[0].password_choice, UserPasswordChoice::Preserve);
    assert_eq!(entries[0].strategy, "useradd");
    assert!(!has_password_set(&Some("password_set ".to_string())));
}
