use terminal_core::registry::{
    attach_terminal, close_terminal, complete_command, create_terminal, register_command,
    stop_command, CreateStep, SessionRegistry,
};

#[test]
fn new_registry_is_empty() {
    let r: SessionRegistry<u32> = SessionRegistry::new();
    assert_eq!(r.len(), 0);
    assert!(!r.contains("a"));
}

#[test]
fn insert_puts_and_displaces() {
    let mut r: SessionRegistry<u32> = SessionRegistry::new();
    assert_eq!(r.insert("a".to_string(), 1), None);
    assert_eq!(r.insert("b".to_string(), 2), None);
    assert_eq!(r.len(), 2);
    assert_eq!(r.insert("a".to_string(), 3), Some(1));
    assert_eq!(r.len(), 2);
    assert_eq!(r.remove("a"), Some(3));
    assert_eq!(r.remove("b"), Some(2));
    assert_eq!(r.len(), 0);
}

#[test]
fn remove_of_absent_changes_nothing() {
    let mut r: SessionRegistry<u32> = SessionRegistry::new();
    r.insert("a".to_string(), 1);
    assert_eq!(r.remove("zz"), None);
    assert_eq!(r.len(), 1);
    assert!(r.contains("a"));
}

#[test]
fn remove_in_the_middle_keeps_the_rest() {
    let mut r: SessionRegistry<u32> = SessionRegistry::new();
    r.insert("a".to_string(), 1);
    r.insert("b".to_string(), 2);
    r.insert("c".to_string(), 3);
    assert_eq!(r.remove("b"), Some(2));
    assert!(r.contains("a"));
    assert!(!r.contains("b"));
    assert!(r.contains("c"));
    assert_eq!(r.remove("c"), Some(3));
    assert_eq!(r.remove("a"), Some(1));
}

#[test]
fn create_asks_for_a_shell_only_once() {
    let mut sessions: SessionRegistry<u32> = SessionRegistry::new();
    assert_eq!(create_terminal(&sessions, "t1"), CreateStep::Spawn);
    assert_eq!(attach_terminal(&mut sessions, "t1".to_string(), 10), None);
    assert_eq!(create_terminal(&sessions, "t1"), CreateStep::Reuse);
    assert_eq!(sessions.len(), 1);
}

#[test]
fn create_twice_keeps_the_first_process() {
    let mut sessions: SessionRegistry<u32> = SessionRegistry::new();
    assert_eq!(attach_terminal(&mut sessions, "t1".to_string(), 10), None);
    assert_eq!(attach_terminal(&mut sessions, "t1".to_string(), 11), Some(11));
    assert_eq!(sessions.len(), 1);
    assert_eq!(close_terminal(&mut sessions, "t1"), Some(10));
    assert_eq!(sessions.len(), 0);
}

#[test]
fn sessions_do_not_touch_each_other() {
    let mut sessions: SessionRegistry<u32> = SessionRegistry::new();
    attach_terminal(&mut sessions, "t1".to_string(), 10);
    attach_terminal(&mut sessions, "t2".to_string(), 20);
    assert_eq!(close_terminal(&mut sessions, "t1"), Some(10));
    assert_eq!(create_terminal(&sessions, "t1"), CreateStep::Spawn);
    assert_eq!(create_terminal(&sessions, "t2"), CreateStep::Reuse);
}

#[test]
fn close_of_absent_session_is_a_no_op() {
    let mut sessions: SessionRegistry<u32> = SessionRegistry::new();
    assert_eq!(close_terminal(&mut sessions, "nobody"), None);
    assert_eq!(sessions.len(), 0);
}

#[test]
fn stop_of_idle_session_is_a_no_op() {
    let mut running: SessionRegistry<u32> = SessionRegistry::new();
    assert_eq!(stop_command(&mut running, "t1"), None);
}

#[test]
fn registered_command_completes_with_its_process() {
    let mut running: SessionRegistry<u32> = SessionRegistry::new();
    assert_eq!(register_command(&mut running, "t1".to_string(), 7), None);
    assert_eq!(complete_command(&mut running, "t1"), Ok(7));
    assert!(!running.contains("t1"));
}

#[test]
fn stopped_command_is_not_found_at_completion() {
    let mut running: SessionRegistry<u32> = SessionRegistry::new();
    register_command(&mut running, "t1".to_string(), 7);
    assert_eq!(stop_command(&mut running, "t1"), Some(7));
    assert_eq!(complete_command(&mut running, "t1"), Err("Process not found".to_string()));
}

#[test]
fn completion_without_registration_is_not_found() {
    let mut running: SessionRegistry<u32> = SessionRegistry::new();
    register_command(&mut running, "t2".to_string(), 1);
    assert_eq!(complete_command(&mut running, "t1"), Err("Process not found".to_string()));
    assert_eq!(running.len(), 1);
}

#[test]
fn registering_again_displaces_the_running_command() {
    let mut running: SessionRegistry<u32> = SessionRegistry::new();
    register_command(&mut running, "t1".to_string(), 1);
    assert_eq!(register_command(&mut running, "t1".to_string(), 2), Some(1));
    assert_eq!(complete_command(&mut running, "t1"), Ok(2));
}
