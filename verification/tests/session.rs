use distilllab::session::{SessionMessageRole, SessionStatus};

#[test]
fn message_roles_read_back_from_their_names() {
    for role in [SessionMessageRole::User, SessionMessageRole::Assistant, SessionMessageRole::System] {
        assert_eq!(SessionMessageRole::from_str(role.as_str()), Some(role));
    }
    assert_eq!(SessionMessageRole::from_str("tool"), None);
    assert_eq!(SessionMessageRole::from_str("User"), None);
}

#[test]
fn session_status_reads_back_from_its_name() {
    assert_eq!(SessionStatus::Active.as_str(), "active");
    assert_eq!(SessionStatus::from_str("active"), Some(SessionStatus::Active));
    assert_eq!(SessionStatus::from_str("archived"), None);
}
