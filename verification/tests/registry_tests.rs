use botcore::processor::Processor;
use botcore::session::{ConnStatus, Session};

fn session(uin: i64, protocol: u8, nickname: &str) -> Session {
    Session {
        uin,
        protocol,
        nickname: String::from(nickname),
        status: ConnStatus::Online,
    }
}

#[test]
fn register_then_list() {
    let mut p = Processor::new();
    assert!(p.list_client().is_empty());
    p.on_login_success(session(100, 1, "alpha"));
    p.on_login_success(session(200, 5, "beta"));
    let mut rows = p.list_client();
    rows.sort_by_key(|r| r.uin);
    assert_eq!(rows.len(), 2);
    assert_eq!(rows[0].uin, 100);
    assert_eq!(rows[0].protocol, 1);
    assert_eq!(rows[0].nick, "alpha");
    assert_eq!(rows[0].status, ConnStatus::Online);
    assert_eq!(rows[1].uin, 200);
    assert_eq!(rows[1].protocol, 5);
    assert_eq!(rows[1].nick, "beta");
}

#[test]
fn same_key_is_last_write_wins() {
    let mut p = Processor::new();
    let prev = p.on_login_success(session(100, 1, "first"));
    assert!(prev.is_none());
    let prev = p.on_login_success(session(100, 1, "second"));
    assert_eq!(prev.unwrap().nickname, "first");
    let rows = p.list_client();
    assert_eq!(rows.len(), 1);
    assert_eq!(rows[0].nick, "second");
}

#[test]
fn same_account_other_protocol_is_another_key() {
    let mut p = Processor::new();
    p.on_login_success(session(100, 1, "one"));
    p.on_login_success(session(100, 2, "two"));
    assert_eq!(p.list_client().len(), 2);
}

#[test]
fn delete_returns_the_session_to_stop() {
    let mut p = Processor::new();
    p.on_login_success(session(100, 1, "alpha"));
    let stopped = p.delete_client(100, 1);
    assert_eq!(stopped.unwrap().nickname, "alpha");
    assert!(p.list_client().is_empty());
}

#[test]
fn delete_of_an_absent_key_is_a_no_op() {
    let mut p = Processor::new();
    p.on_login_success(session(100, 1, "alpha"));
    assert!(p.delete_client(999, 1).is_none());
    assert!(p.delete_client(100, 2).is_none());
    assert_eq!(p.list_client().len(), 1);
}

#[test]
fn permanent_failure_surfaces_in_the_listing() {
    let mut p = Processor::new();
    p.on_login_success(session(100, 1, "alpha"));
    assert!(p.mark_permanently_failed(100, 1));
    let rows = p.list_client();
    assert_eq!(rows.len(), 1);
    assert_eq!(rows[0].status, ConnStatus::PermanentlyFailed);
    assert_eq!(rows[0].nick, "alpha");
    assert!(!p.mark_permanently_failed(999, 9));
}
