use revolver::session::{cmd_stop, cmd_update, stop_active, CommandError, Registry, FAILURE, SUCCESS};

#[test]
fn stop_active_empties_the_slot() {
    let mut slot: Registry<u32> = Registry::new();
    assert!(!slot.is_active());
    assert_eq!(stop_active(&mut slot), None);
    assert_eq!(slot.install(7), None);
    assert!(slot.is_active());
    assert_eq!(stop_active(&mut slot), Some(7));
    assert!(!slot.is_active());
    assert_eq!(stop_active(&mut slot), None);
}

#[test]
fn a_new_start_replaces_the_running_spinner() {
    let mut slot: Registry<&str> = Registry::new();
    assert_eq!(slot.install("first"), None);
    assert_eq!(slot.install("second"), Some("first"));
    assert_eq!(slot.current(), Some(&"second"));
}

#[test]
fn update_and_stop_need_a_running_spinner() {
    let mut slot: Registry<u8> = Registry::new();
    let e = cmd_update(&slot).unwrap_err();
    assert_eq!(e, CommandError::NotRunning);
    assert_eq!(e.exit_code(), FAILURE);
    assert_eq!(e.exit_code(), 1);
    assert_eq!(e.message(), "\x1b[0;31mRevolver process could not be found\x1b[0;m");
    assert_eq!(cmd_stop(&mut slot), Err(CommandError::NotRunning));

    slot.install(3);
    assert_eq!(cmd_update(&slot), Ok(&3));
    assert_eq!(cmd_stop(&mut slot), Ok(3));
    assert!(!slot.is_active());
    assert_eq!(cmd_stop(&mut slot), Err(CommandError::NotRunning));
    assert_eq!(SUCCESS, 0);
}
