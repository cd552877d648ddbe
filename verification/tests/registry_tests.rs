use coderlm_server::index::file_entry::Timestamp;
use coderlm_server::server::errors::AppError;
use coderlm_server::server::registry::{Admission, ProjectRegistry, Session};

fn at(secs: i64) -> Timestamp {
    Timestamp { secs, nanos: 0 }
}

fn session(path: &str) -> Session {
    Session { project_path: path.to_string() }
}

#[test]
fn evict_lru_picks_the_oldest_and_drops_its_sessions() {
    let mut reg = ProjectRegistry::new(2);
    reg.register_project("/a".to_string(), at(10));
    reg.register_project("/b".to_string(), at(5));
    reg.sessions.insert("s1".to_string(), session("/b"));
    reg.sessions.insert("s2".to_string(), session("/a"));
    let victim = reg.evict_lru().unwrap();
    assert_eq!(victim, "/b");
    assert!(reg.projects.get("/b").is_none());
    assert!(reg.sessions.get("s1").is_none());
    assert!(reg.sessions.get("s2").is_some());
}

#[test]
fn evict_lru_on_empty_is_internal_error() {
    let mut reg = ProjectRegistry::new(3);
    match reg.evict_lru() {
        Err(AppError::Internal(m)) => assert_eq!(m, "No projects to evict"),
        other => panic!("unexpected {:?}", other),
    }
}

#[test]
fn touching_changes_which_project_is_evicted() {
    let mut reg = ProjectRegistry::new(2);
    reg.register_project("/a".to_string(), at(1));
    reg.register_project("/b".to_string(), at(2));
    assert!(reg.find_project("/a", at(3)));
    assert!(!reg.find_project("/c", at(3)));
    reg.touch_project("/zzz", at(9));
    assert_eq!(reg.make_room().unwrap(), Some("/b".to_string()));
    assert_eq!(reg.projects.len(), 1);
    assert_eq!(reg.make_room().unwrap(), None);
}

#[test]
fn equal_seconds_are_ordered_by_nanoseconds() {
    let mut reg = ProjectRegistry::new(2);
    reg.register_project("/a".to_string(), Timestamp { secs: 4, nanos: 9 });
    reg.register_project("/b".to_string(), Timestamp { secs: 4, nanos: 2 });
    assert_eq!(reg.evict_lru().unwrap(), "/b");
}

#[test]
fn zero_capacity_cannot_make_room() {
    let mut reg = ProjectRegistry::new(0);
    assert!(matches!(reg.make_room(), Err(AppError::Internal(_))));
}

#[test]
fn session_lookup_answers() {
    let mut reg = ProjectRegistry::new(4);
    reg.register_project("/p".to_string(), at(1));
    reg.sessions.insert("live".to_string(), session("/p"));
    reg.sessions.insert("stale".to_string(), session("/gone"));
    assert_eq!(reg.get_project_for_session("live").unwrap(), "/p");
    match reg.get_project_for_session("missing") {
        Err(AppError::NotFound(m)) => assert_eq!(m, "Session 'missing' not found"),
        other => panic!("unexpected {:?}", other),
    }
    match reg.get_project_for_session("stale") {
        Err(AppError::Gone(m)) => assert_eq!(
            m,
            "Project at '/gone' was evicted due to capacity limits. Start a new session to re-index, or increase --max-projects."
        ),
        other => panic!("unexpected {:?}", other),
    }
}

#[test]
fn make_room_at_capacity_evicts_the_oldest() {
    let mut reg = ProjectRegistry::new(2);
    reg.register_project("/a".to_string(), at(3));
    reg.register_project("/b".to_string(), at(1));
    assert_eq!(reg.make_room().unwrap(), Some("/b".to_string()));
    assert_eq!(reg.projects.len(), 1);
    let mut roomy = ProjectRegistry::new(3);
    roomy.register_project("/a".to_string(), at(3));
    assert_eq!(roomy.make_room().unwrap(), None);
}

#[test]
fn admitting_a_known_project_touches_it() {
    let mut reg = ProjectRegistry::new(2);
    reg.register_project("/a".to_string(), at(1));
    reg.register_project("/b".to_string(), at(2));
    assert!(matches!(reg.admit_project("/a", at(9)).unwrap(), Admission::Known));
    match reg.admit_project("/c", at(10)).unwrap() {
        Admission::Admitted(Some(v)) => assert_eq!(v, "/b"),
        _ => panic!("expected an eviction"),
    }
    reg.register_project("/c".to_string(), at(10));
    assert_eq!(reg.projects.len(), 2);
    let mut none = ProjectRegistry::new(0);
    assert!(none.admit_project("/x", at(1)).is_err());
}
