use nac::terminal::manager::{
    alternate_screen_from_reply, command_running_from_reply, command_state_from_reply,
    content_from_reply, last_exit_code_from_reply, listing_entry, size_from_reply,
    ManagerError, TerminalHandle, TerminalManager, DEFAULT_AUTO_UNOWN_TIMEOUT,
};
use nac::terminal::runner::{command_state_name, CommandState, TerminalResponse};

const SEC: u64 = 1_000_000_000;

fn handle(name: &str, sender: u32, now: u64) -> TerminalHandle<u32> {
    TerminalHandle::new(name.to_string(), sender, now)
}

#[test]
fn test_manager_basic_operations() {
    let mut manager: TerminalManager<u32> = TerminalManager::new();

    assert!(manager.is_empty());
    assert_eq!(manager.len(), 0);

    let replaced = manager.insert(handle("test", 7, 0));
    assert!(!replaced);

    assert!(!manager.is_empty());
    assert_eq!(manager.len(), 1);
    assert!(manager.contains("test"));
    assert_eq!(manager.list_names(), vec!["test".to_string()]);

    assert!(manager.checkout_terminal("test", "owner1".to_string(), 1).unwrap());
    assert_eq!(*manager.owned_sender("test", "owner1").unwrap().unwrap(), 7);
    assert!(manager.owned_sender("test", "owner2").is_err());

    assert!(manager.checkin_terminal("test", "owner1").unwrap());
    assert!(manager.checkout_terminal("test", "owner2".to_string(), 2).unwrap());
    assert!(manager.checkin_terminal("test", "owner2").unwrap());

    assert!(manager.take("test").is_some());
    assert!(!manager.contains("test"));
    assert!(manager.is_empty());
}

#[test]
fn test_session_ownership() {
    let mut manager: TerminalManager<u32> = TerminalManager::new();
    assert!(!manager.insert(handle("ownership-test", 1, 0)));
    assert!(manager.contains("ownership-test"));

    assert!(manager.checkout_terminal("ownership-test", "owner1".to_string(), 10).unwrap());
    let refused = manager.checkout_terminal("ownership-test", "owner2".to_string(), 11);
    match refused {
        Err(e) => assert_eq!(
            e.message(),
            "Terminal 'ownership-test' is already owned by Some(\"owner1\")"
        ),
        Ok(v) => panic!("owner2 checked out: {}", v),
    }
    assert!(manager.owned_sender("ownership-test", "owner1").unwrap().is_some());
    match manager.owned_sender("ownership-test", "owner2") {
        Err(e) => assert_eq!(
            e.message(),
            "Terminal 'ownership-test' is not owned by 'owner2' (current owner: Some(\"owner1\"))"
        ),
        Ok(_) => panic!("owner2 reached the session"),
    }

    assert!(manager.checkin_terminal("ownership-test", "owner1").unwrap());
    assert!(manager.checkout_terminal("ownership-test", "owner2".to_string(), 12).unwrap());
    assert!(manager.owned_sender("ownership-test", "owner2").unwrap().is_some());
    assert!(manager.checkin_terminal("ownership-test", "owner2").unwrap());

    assert!(manager.remove("ownership-test").is_some());
    assert!(!manager.contains("ownership-test"));
}

#[test]
fn missing_sessions_are_reported_as_absent() {
    let mut manager: TerminalManager<u32> = TerminalManager::new();
    assert!(!manager.checkout_terminal("none", "o".to_string(), 0).unwrap());
    assert!(!manager.checkin_terminal("none", "o").unwrap());
    assert!(manager.owned_sender("none", "o").unwrap().is_none());
    assert!(!manager.set_terminal_timeout("none", 5));
    assert_eq!(manager.force_unown_terminal("none"), None);
    assert!(manager.take("none").is_none());
}

#[test]
fn checkin_by_a_stranger_is_refused_and_changes_nothing() {
    let mut manager: TerminalManager<u32> = TerminalManager::new();
    manager.insert(handle("t", 1, 0));
    match manager.checkin_terminal("t", "o") {
        Err(ManagerError::NotOwned { name, owner, current_owner }) => {
            assert_eq!(name, "t");
            assert_eq!(owner, "o");
            assert_eq!(current_owner, None);
        }
        other => panic!("unexpected {:?}", other),
    }
    match manager.checkin_terminal("t", "o") {
        Err(e) => assert_eq!(e.message(), "Terminal 't' is not owned by 'o' (current owner: None)"),
        Ok(_) => panic!("a stranger checked in"),
    }
    assert!(manager.checkout_terminal("t", "a".to_string(), 1).unwrap());
    assert!(manager.checkin_terminal("t", "b").is_err());
    assert!(manager.checkout_terminal("t", "b".to_string(), 2).is_err());
    assert!(manager.checkout_terminal("t", "a".to_string(), 3).unwrap());
}

#[test]
fn insert_replaces_a_session_of_the_same_name() {
    let mut manager: TerminalManager<u32> = TerminalManager::new();
    assert!(!manager.insert(handle("a", 1, 0)));
    assert!(!manager.insert(handle("b", 2, 0)));
    assert!(manager.insert(handle("a", 3, 0)));
    assert_eq!(manager.len(), 2);
    assert_eq!(manager.list_names(), vec!["a".to_string(), "b".to_string()]);
    manager.checkout_terminal("a", "o".to_string(), 0).unwrap();
    assert_eq!(*manager.owned_sender("a", "o").unwrap().unwrap(), 3);
}

#[test]
fn checkin_all_releases_exactly_the_owners_sessions() {
    let mut manager: TerminalManager<u32> = TerminalManager::new();
    for (i, name) in ["x", "y", "z"].iter().enumerate() {
        manager.insert(handle(name, i as u32, 0));
    }
    manager.checkout_terminal("x", "me".to_string(), 1).unwrap();
    manager.checkout_terminal("y", "you".to_string(), 1).unwrap();
    manager.checkout_terminal("z", "me".to_string(), 1).unwrap();
    assert_eq!(
        manager.find_terminals_by_owner("me"),
        vec!["x".to_string(), "z".to_string()]
    );
    assert_eq!(
        manager.checkin_all_by_owner("me"),
        vec!["x".to_string(), "z".to_string()]
    );
    assert!(manager.find_terminals_by_owner("me").is_empty());
    assert_eq!(manager.find_terminals_by_owner("you"), vec!["y".to_string()]);
    assert!(manager.checkout_terminal("x", "you".to_string(), 2).unwrap());
}

#[test]
fn idle_owners_lose_their_sessions() {
    let mut manager: TerminalManager<u32> = TerminalManager::new();
    manager.insert(handle("slow", 1, 0));
    manager.insert(handle("busy", 2, 0));
    manager.insert(handle("free", 3, 0));
    manager.checkout_terminal("slow", "a".to_string(), 0).unwrap();
    manager.checkout_terminal("busy", "b".to_string(), 250 * SEC).unwrap();
    assert!(manager.set_terminal_timeout("busy", 100 * SEC));

    let released = manager.check_auto_unown(301 * SEC);
    assert_eq!(released, vec![("slow".to_string(), "a".to_string())]);
    assert!(manager.checkout_terminal("slow", "c".to_string(), 302 * SEC).unwrap());
    assert!(manager.owned_sender("busy", "b").unwrap().is_some());

    let released = manager.check_auto_unown(351 * SEC);
    assert_eq!(released, vec![("busy".to_string(), "b".to_string())]);
    assert_eq!(manager.force_unown_terminal("slow"), Some("c".to_string()));
}

#[test]
fn handle_timeouts_and_activity() {
    let mut h = handle("t", 0, 5);
    assert_eq!(h.get_auto_unown_timeout(), DEFAULT_AUTO_UNOWN_TIMEOUT);
    assert_eq!(DEFAULT_AUTO_UNOWN_TIMEOUT, 300 * SEC);
    assert_eq!(h.get_last_activity(), 5);
    assert!(!h.should_auto_unown(u64::MAX));
    assert!(h.try_checkout("o", 10));
    assert_eq!(h.get_owner(), Some("o".to_string()));
    h.set_auto_unown_timeout(3);
    assert!(!h.should_auto_unown(13));
    assert!(h.should_auto_unown(14));
    assert!(!h.should_auto_unown(0));
    h.update_activity(20);
    assert_eq!(h.get_last_activity(), 20);
    assert!(!h.try_checkout("p", 21));
    assert!(!h.checkin("p"));
    assert_eq!(h.force_unown(), Some("o".to_string()));
    assert_eq!(h.get_owner(), None);
}

#[test]
fn listing_entries_from_runner_answers() {
    let full = listing_entry(
        "t".to_string(),
        Some("o".to_string()),
        Some(Some(TerminalResponse::TerminalInfo {
            command_state: CommandState::Running,
            current_command: Some("make".to_string()),
            last_exit_code: Some(2),
            size: (80, 24),
            is_alternate_screen: true,
            age_seconds: 9,
        })),
    );
    assert_eq!(full.name, "t");
    assert_eq!(full.owner, Some("o".to_string()));
    assert_eq!(full.command_state, CommandState::Running);
    assert_eq!(full.current_command, Some("make".to_string()));
    assert_eq!(full.last_exit_code, Some(2));
    assert_eq!(full.size, (80, 24));
    assert!(full.is_alternate_screen);
    assert_eq!(full.age_seconds, 9);

    let error = listing_entry(
        "t".to_string(),
        None,
        Some(Some(TerminalResponse::Error("boom".to_string()))),
    );
    assert_eq!(error.current_command, Some("[Error: boom]".to_string()));
    assert_eq!(error.command_state, CommandState::Idle);
    assert_eq!(error.size, (0, 0));

    let unknown = listing_entry("t".to_string(), None, Some(None));
    assert_eq!(unknown.current_command, Some("[Unknown state]".to_string()));
    let odd = listing_entry("t".to_string(), None, Some(Some(TerminalResponse::Ack)));
    assert_eq!(odd.current_command, Some("[Unknown state]".to_string()));
    let gone = listing_entry("t".to_string(), None, None);
    assert_eq!(gone.current_command, Some("[Disconnected]".to_string()));
}

#[test]
fn runner_answers_are_decoded() {
    assert_eq!(
        content_from_reply(Some(TerminalResponse::Content("abc".to_string()))).unwrap(),
        "abc"
    );
    assert_eq!(
        content_from_reply(Some(TerminalResponse::Error("bad".to_string()))).unwrap_err(),
        "bad"
    );
    assert_eq!(content_from_reply(None).unwrap_err(), "Unexpected response");
    assert_eq!(size_from_reply(Some(TerminalResponse::Size(100, 30))).unwrap(), (100, 30));
    assert_eq!(
        size_from_reply(Some(TerminalResponse::Ack)).unwrap_err(),
        "Unexpected response"
    );
    assert!(alternate_screen_from_reply(Some(TerminalResponse::AlternateScreen(true))).unwrap());
    assert_eq!(
        command_state_from_reply(Some(TerminalResponse::CommandState {
            state: CommandState::Completed,
            exit_code: Some(0),
        }))
        .unwrap(),
        CommandState::Completed
    );
    assert!(!command_running_from_reply(Some(TerminalResponse::IsCommandRunning(false))).unwrap());
    assert_eq!(
        last_exit_code_from_reply(Some(TerminalResponse::LastExitCode(Some(-1)))).unwrap(),
        Some(-1)
    );
    assert_eq!(command_state_name(CommandState::Idle), "idle");
    assert_eq!(command_state_name(CommandState::Running), "running");
    assert_eq!(command_state_name(CommandState::Completed), "completed");
}

#[test]
fn senders_follow_their_sessions() {
    let mut manager: TerminalManager<u32> = TerminalManager::new();
    manager.insert(handle("a", 1, 0));
    manager.insert(handle("b", 2, 0));
    // Replacing a session replaces its sender too.
    assert!(manager.insert(handle("a", 9, 0)));
    manager.checkout_terminal("a", "me".to_string(), 1).unwrap();
    assert!(matches!(manager.owned_sender("a", "me"), Ok(Some(&9))));
    let taken = manager.take("b").unwrap();
    assert_eq!(taken.sender, 2);
    let removed = manager.remove("a").unwrap();
    assert_eq!(removed.sender, 9);
    assert!(manager.is_empty());
}
