use orbitx_storage::terminal::channel_manager::PendingQueue;
use orbitx_storage::terminal::context_registry::{
    ActiveTerminalContextRegistry, WindowId,
};
use orbitx_storage::terminal::context_service::{create_default_context, CachedContext};
use orbitx_storage::terminal::replay::{build_replay, ProcessReplayEvent, PtySize};
use orbitx_storage::terminal::types::{
    CommandInfo, ContextQueryOptions, PaneId, ShellType, TerminalContext, TerminalContextEvent,
    TerminalValidationError,
};

#[test]
fn test_terminal_context_creation() {
    let pane_id = PaneId::new(1);
    let context = TerminalContext::new(pane_id);

    assert_eq!(context.pane_id, pane_id);
    assert_eq!(context.current_working_directory, None);
    assert_eq!(context.shell_type, None);
    assert!(!context.shell_integration_enabled);
    assert!(!context.is_active);
}

#[test]
fn test_terminal_context_with_defaults() {
    let pane_id = PaneId::new(1);
    let context = TerminalContext::with_defaults(pane_id);

    assert_eq!(context.pane_id, pane_id);
    assert_eq!(context.current_working_directory, Some("~".to_string()));
    assert_eq!(context.shell_type, Some(ShellType::Bash));
    assert!(!context.shell_integration_enabled);
    assert!(!context.is_active);
}

#[test]
fn test_terminal_context_validation() {
    let pane_id = PaneId::new(1);
    let context = TerminalContext::new(pane_id);
    assert!(context.validate().is_ok());

    let invalid_context = TerminalContext::new(PaneId::new(0));
    assert!(invalid_context.validate().is_err());
}

#[test]
fn test_command_info_validation() {
    let mut command = CommandInfo::new(
        "ls".to_string(),
        vec!["-la".to_string()],
        Some("/home/user".to_string()),
    );
    assert!(command.validate().is_ok());

    let empty_command = CommandInfo::new("".to_string(), vec![], None);
    assert!(empty_command.validate().is_err());

    command.complete(0);
    assert!(command.is_completed());
    assert!(command.is_successful());
}

#[test]
fn test_shell_type_parsing() {
    assert_eq!(ShellType::from_str("bash"), ShellType::Bash);
    assert_eq!(ShellType::from_str("zsh"), ShellType::Zsh);
    assert_eq!(ShellType::from_str("fish"), ShellType::Fish);
    assert_eq!(
        ShellType::from_str("powershell"),
        ShellType::Other("powershell".to_string())
    );
    assert_eq!(ShellType::from_str("cmd"), ShellType::Other("cmd".to_string()));
    assert_eq!(
        ShellType::from_str("unknown"),
        ShellType::Other("unknown".to_string())
    );
}

#[test]
fn test_context_query_options() {
    let fast_options = ContextQueryOptions::fast();
    assert!(fast_options.use_cache);
    assert!(fast_options.allow_fallback);
    assert!(!fast_options.include_history);

    let complete_options = ContextQueryOptions::complete();
    assert!(!complete_options.use_cache);
    assert!(complete_options.allow_fallback);
    assert!(complete_options.include_history);
}

#[test]
fn shell_names_any_case_and_display() {
    assert_eq!(ShellType::from_str("BaSh"), ShellType::Bash);
    assert_eq!(ShellType::from_str("ZSH"), ShellType::Zsh);
    assert_eq!(ShellType::from_str("Nu"), ShellType::Other("Nu".to_string()));
    assert_eq!(ShellType::Fish.display_name(), "Fish");
    assert_eq!(ShellType::Other("xonsh".to_string()).display_name(), "xonsh");
    assert!(ShellType::Zsh.supports_integration());
    assert!(!ShellType::Other("cmd".to_string()).supports_integration());
    assert_eq!(ShellType::Fish.default_prompt(), "❯ ");
    assert_eq!(ShellType::Bash.default_prompt(), "$ ");
    assert_eq!(ShellType::default(), ShellType::Bash);
}

#[test]
fn command_validation_reports_each_problem() {
    let blank = CommandInfo {
        command: "   ".to_string(),
        args: vec![],
        start_time: 10,
        end_time: None,
        exit_code: None,
        working_directory: None,
    };
    assert_eq!(blank.validate(), Err("Command cannot be empty".to_string()));

    let backwards = CommandInfo {
        command: "ls".to_string(),
        args: vec![],
        start_time: 10,
        end_time: Some(5),
        exit_code: Some(0),
        working_directory: None,
    };
    assert_eq!(
        backwards.validate(),
        Err("End time cannot be earlier than start time".to_string())
    );
    assert_eq!(backwards.duration(), None);

    let unfinished = CommandInfo {
        command: "ls".to_string(),
        args: vec![],
        start_time: 10,
        end_time: None,
        exit_code: Some(1),
        working_directory: None,
    };
    assert_eq!(
        unfinished.validate(),
        Err("Unfinished command should not have exit code".to_string())
    );
    assert!(!unfinished.is_successful());

    let done = CommandInfo {
        command: "make".to_string(),
        args: vec![],
        start_time: 1000,
        end_time: Some(1750),
        exit_code: Some(2),
        working_directory: None,
    };
    assert_eq!(done.duration(), Some(750));
    assert!(!done.is_successful());
}

#[test]
fn context_validation_reports_first_bad_entry() {
    let mut context = TerminalContext::new(PaneId::new(3));
    let good = CommandInfo {
        command: "ls".to_string(),
        args: vec![],
        start_time: 1,
        end_time: Some(2),
        exit_code: Some(0),
        working_directory: None,
    };
    let bad = CommandInfo { command: " ".to_string(), ..good.clone() };
    context.add_command(good.clone());
    context.add_command(bad.clone());
    assert_eq!(
        context.validate(),
        Err(TerminalValidationError::InvalidHistoryEntry {
            index: 1,
            reason: "Command cannot be empty".to_string()
        })
    );

    let mut context = TerminalContext::new(PaneId::new(3));
    context.set_current_command(Some(bad));
    assert_eq!(
        context.validate(),
        Err(TerminalValidationError::InvalidCurrentCommand {
            reason: "Command cannot be empty".to_string()
        })
    );
    assert_eq!(
        TerminalContext::new(PaneId::new(0)).validate(),
        Err(TerminalValidationError::InvalidPaneId)
    );
}

#[test]
fn history_keeps_the_latest_hundred() {
    let mut context = TerminalContext::new(PaneId::new(1));
    for i in 0..105u64 {
        context.add_command(CommandInfo {
            command: format!("cmd{}", i),
            args: vec![],
            start_time: i,
            end_time: None,
            exit_code: None,
            working_directory: None,
        });
    }
    assert_eq!(context.command_history.len(), 100);
    assert_eq!(context.command_history[0].command, "cmd5");
    assert_eq!(context.command_history[99].command, "cmd104");
}

#[test]
fn context_updates_and_defaults() {
    let mut context = TerminalContext::new(PaneId::new(2));
    assert!(!context.is_complete());
    assert_eq!(context.get_cwd_or_default(), "~");
    assert_eq!(context.get_shell_type_or_default(), ShellType::Bash);
    context.update_cwd("/tmp".to_string());
    context.update_shell_type(ShellType::Zsh);
    context.set_shell_integration(true);
    context.update_window_title("build".to_string());
    context.set_active(true);
    assert!(context.is_complete());
    assert_eq!(context.get_cwd_or_default(), "/tmp");
    assert_eq!(context.get_shell_type_or_default(), ShellType::Zsh);
    assert!(context.shell_integration_enabled);
    assert_eq!(context.window_title, Some("build".to_string()));
    assert!(context.is_active);
}

#[test]
fn test_registry_stats() {
    let mut registry = ActiveTerminalContextRegistry::new();
    let pane_id = PaneId::new(1);
    let window_id = WindowId::new(1);

    let stats = registry.get_stats(0);
    assert_eq!(stats.global_active_pane, None);
    assert_eq!(stats.window_active_pane_count, 0);

    registry.set_active_pane(pane_id);
    registry.set_window_active_pane(window_id, pane_id);

    let stats = registry.get_stats(0);
    assert_eq!(stats.global_active_pane, Some(pane_id));
    assert_eq!(stats.window_active_pane_count, 1);
}

#[test]
fn test_active_pane_management() {
    let mut registry = ActiveTerminalContextRegistry::new();
    let pane_id = PaneId::new(1);

    assert_eq!(registry.get_active_pane(), None);
    assert!(!registry.is_pane_active(pane_id));

    registry.set_active_pane(pane_id);
    assert_eq!(registry.get_active_pane(), Some(pane_id));
    assert!(registry.is_pane_active(pane_id));

    registry.clear_active_pane();
    assert_eq!(registry.get_active_pane(), None);
    assert!(!registry.is_pane_active(pane_id));
}

#[test]
fn test_window_active_pane_management() {
    let mut registry = ActiveTerminalContextRegistry::new();
    let window_id = WindowId::new(1);
    let pane_id = PaneId::new(1);

    assert_eq!(registry.get_window_active_pane(window_id), None);

    registry.set_window_active_pane(window_id, pane_id);
    assert_eq!(registry.get_window_active_pane(window_id), Some(pane_id));

    let (removed, _) = registry.remove_window_active_pane(window_id);
    assert_eq!(removed, Some(pane_id));
    assert_eq!(registry.get_window_active_pane(window_id), None);
}

#[test]
fn test_event_broadcasting() {
    let mut registry = ActiveTerminalContextRegistry::new();
    let pane_id = PaneId::new(1);

    let event = registry.set_active_pane(pane_id).expect("a change is announced");
    match event {
        TerminalContextEvent::ActivePaneChanged { old_pane_id, new_pane_id } => {
            assert_eq!(old_pane_id, None);
            assert_eq!(new_pane_id, Some(pane_id));
        }
        _ => panic!("收到了错误的事件类型"),
    }
}

#[test]
fn registry_sends_events_only_on_change() {
    let mut registry = ActiveTerminalContextRegistry::default();
    assert!(registry.clear_active_pane().is_none());
    assert!(registry.set_active_pane(PaneId::new(4)).is_some());
    assert!(registry.set_active_pane(PaneId::new(4)).is_none());
    match registry.set_active_pane(PaneId::new(5)) {
        Some(TerminalContextEvent::ActivePaneChanged { old_pane_id, new_pane_id }) => {
            assert_eq!(old_pane_id, Some(PaneId::new(4)));
            assert_eq!(new_pane_id, Some(PaneId::new(5)));
        }
        _ => panic!("expected a change of active pane"),
    }
    match registry.clear_active_pane() {
        Some(TerminalContextEvent::ActivePaneChanged { old_pane_id, new_pane_id }) => {
            assert_eq!(old_pane_id, Some(PaneId::new(5)));
            assert_eq!(new_pane_id, None);
        }
        _ => panic!("expected the active pane to be cleared"),
    }
}

#[test]
fn window_panes_follow_the_main_window() {
    let mut registry = ActiveTerminalContextRegistry::new();
    registry.set_active_pane(PaneId::new(1));
    // a secondary window does not move the active pane while one is active
    assert!(registry.set_window_active_pane(WindowId::new(2), PaneId::new(7)).is_none());
    assert_eq!(registry.get_active_pane(), Some(PaneId::new(1)));
    // the main window does
    assert!(registry.set_window_active_pane(WindowId::from(0u32), PaneId::new(8)).is_some());
    assert_eq!(registry.get_active_pane(), Some(PaneId::new(8)));
    // removing the window whose pane is active clears it
    let (removed, event) = registry.remove_window_active_pane(WindowId::new(0));
    assert_eq!(removed, Some(PaneId::new(8)));
    assert!(event.is_some());
    assert_eq!(registry.get_active_pane(), None);
    // other windows keep their panes
    assert_eq!(registry.get_window_active_pane(WindowId::new(2)), Some(PaneId::new(7)));
    assert_eq!(registry.get_stats(3).event_subscriber_count, 3);
}

#[test]
fn test_empty_buffer() {
    let replay = ProcessReplayEvent::from_buffer(String::new(), PtySize::default());
    assert!(replay.events.is_empty());
}

#[test]
fn test_non_empty_buffer() {
    let replay = ProcessReplayEvent::from_buffer(
        "test".to_string(),
        PtySize { cols: 80, rows: 24, pixel_width: 0, pixel_height: 0 },
    );
    assert_eq!(replay.events.len(), 1);
    assert_eq!(replay.events[0].data, "test");
}

#[test]
fn replay_built_from_buffer_and_size() {
    let ok = build_replay(Ok("abc".to_string()), None).unwrap();
    assert_eq!(ok.events[0].cols, 80);
    assert_eq!(ok.events[0].rows, 24);
    let sized = build_replay(
        Ok("x".to_string()),
        Some(PtySize { rows: 40, cols: 120, pixel_width: 0, pixel_height: 0 }),
    )
    .unwrap();
    assert_eq!(sized.events[0].cols, 120);
    let err = build_replay(Err("gone".to_string()), None).unwrap_err();
    assert_eq!(err.to_string(), "Failed to read terminal buffer: gone");
}

#[test]
fn cached_context_expiry_and_default() {
    let cached = CachedContext { context: create_default_context(), cached_at: 1000, ttl: 500 };
    assert!(!cached.is_expired(1500));
    assert!(cached.is_expired(1501));
    assert!(!cached.is_expired(10));
    let d = create_default_context();
    assert_eq!(d.pane_id, PaneId::new(0));
    assert_eq!(d.current_working_directory, Some("~".to_string()));
    assert_eq!(d.shell_type, Some(ShellType::Bash));
}

#[test]
fn pane_test_set_and_get_active_pane() {
    let mut registry = ActiveTerminalContextRegistry::new();
    let pane_id = 123u32;
    assert_eq!(registry.get_active_pane(), None);
    registry.set_active_pane(PaneId::new(pane_id));
    assert_eq!(registry.get_active_pane(), Some(PaneId::new(pane_id)));
}

#[test]
fn pane_test_invalid_pane_id_validation() {
    assert!(PaneId::new(0).as_u32() == 0);
    let mut registry = ActiveTerminalContextRegistry::new();
    let valid_pane_id = PaneId::new(123);
    registry.set_active_pane(valid_pane_id);
    assert!(registry.is_pane_active(valid_pane_id));
}

#[test]
fn pane_test_is_pane_active() {
    let mut registry = ActiveTerminalContextRegistry::new();
    let pane_id = PaneId::new(123);
    assert!(!registry.is_pane_active(pane_id));
    registry.set_active_pane(pane_id);
    assert!(registry.is_pane_active(pane_id));
    assert!(!registry.is_pane_active(PaneId::new(456)));
}

#[test]
fn pane_test_clear_active_pane() {
    let mut registry = ActiveTerminalContextRegistry::new();
    let pane_id = PaneId::new(123);
    registry.set_active_pane(pane_id);
    assert_eq!(registry.get_active_pane(), Some(pane_id));
    registry.clear_active_pane();
    assert_eq!(registry.get_active_pane(), None);
}

#[test]
fn stats_test_get_registry_stats() {
    let registry = ActiveTerminalContextRegistry::new();
    let stats = registry.get_stats(0);
    assert_eq!(stats.global_active_pane, None);
    assert_eq!(stats.window_active_pane_count, 0);
}

#[test]
fn queued_chunk_is_kept_when_it_fits() {
    let mut q = PendingQueue::new();
    q.push(b"one");
    q.push(&vec![7u8; 65536]);
    let chunks = q.clone().drain();
    assert_eq!(chunks.last().unwrap().len(), 65536);
    assert_eq!(chunks.len(), 1);
    q.push(&vec![1u8; 65537]);
    assert_eq!(q.total_bytes(), 0);
    assert!(q.drain().is_empty());
}
