use orbitx_storage::terminal::context_service::{
    context_from_report, convert_command_info, no_active_terminal_message, pane_not_found_message,
    CacheStats, ShellReport, TerminalContextService,
};
use orbitx_storage::terminal::commands::{
    active_context_outcome, validate_optional_pane_id, validate_pane_id, ActiveContextOutcome,
};
use orbitx_storage::terminal::types::{
    CommandInfo, PaneId, ShellType, TerminalContext, TerminalContextEvent,
};

fn context_at(pane: u32, cwd: &str) -> TerminalContext {
    let mut c = TerminalContext::new(PaneId::new(pane));
    c.update_cwd(cwd.to_string());
    c
}

#[test]
fn test_context_service_creation() {
    let service = TerminalContextService::new();
    let stats = service.get_cache_stats();
    assert_eq!(stats.total_entries, 0);
    assert_eq!(stats.hit_count, 0);
    assert_eq!(stats.miss_count, 0);
    assert_eq!(service.default_cache_ttl, 30000);
    assert_eq!(service.query_timeout, 5000);
    assert_eq!(CacheStats::new(), stats);
}

#[test]
fn test_cache_functionality() {
    let mut service = TerminalContextService::new();
    let pane_id = PaneId::new(1);
    service.cache_context(pane_id, context_at(1, "/test/path"), 1_000);
    let cached = service.get_cached_context(pane_id, 1_500);
    assert!(cached.is_some());
    assert_eq!(
        cached.unwrap().context.current_working_directory,
        Some("/test/path".to_string())
    );
    assert_eq!(service.get_cache_stats().total_entries, 1);
}

#[test]
fn test_cache_expiration() {
    let mut service = TerminalContextService::new();
    service.default_cache_ttl = 10;
    let pane_id = PaneId::new(1);
    service.cache_context(pane_id, TerminalContext::new(pane_id), 100);
    assert!(service.get_cached_context(pane_id, 105).is_some());
    assert!(service.get_cached_context(pane_id, 110).is_some());
    assert!(service.get_cached_context(pane_id, 120).is_none());
    let stats = service.get_cache_stats();
    assert_eq!(stats.total_entries, 0);
    assert_eq!(stats.eviction_count, 1);
}

#[test]
fn test_cache_invalidation() {
    let mut service = TerminalContextService::new();
    let pane_id = PaneId::new(1);
    service.cache_context(pane_id, TerminalContext::new(pane_id), 0);
    assert!(service.get_cached_context(pane_id, 0).is_some());
    service.invalidate_cache(pane_id);
    assert!(service.get_cached_context(pane_id, 0).is_none());
    service.invalidate_cache(pane_id);
    assert_eq!(service.get_cache_stats().eviction_count, 1);
}

#[test]
fn test_clear_all_cache() {
    let mut service = TerminalContextService::new();
    for i in 1..=3 {
        let pane_id = PaneId::new(i);
        service.cache_context(pane_id, TerminalContext::new(pane_id), 0);
    }
    assert_eq!(service.get_cache_stats().total_entries, 3);
    service.clear_all_cache();
    let stats = service.get_cache_stats();
    assert_eq!(stats.total_entries, 0);
    assert_eq!(stats.eviction_count, 3);
}

#[test]
fn recaching_replaces_the_entry() {
    let mut service = TerminalContextService::new();
    let pane = PaneId::new(4);
    service.cache_context(pane, context_at(4, "/a"), 0);
    service.cache_context(pane, context_at(4, "/b"), 0);
    assert_eq!(service.get_cache_stats().total_entries, 1);
    let c = service.get_cached_context(pane, 0).unwrap();
    assert_eq!(c.context.current_working_directory.as_deref(), Some("/b"));
}

#[test]
fn lookups_count_hits_and_misses() {
    let mut service = TerminalContextService::new();
    let pane = PaneId::new(2);
    assert!(service.lookup_context(pane, 0).is_none());
    let event = service.store_queried_context(pane, context_at(2, "/x"), 0);
    match event {
        TerminalContextEvent::PaneContextUpdated { pane_id, context } => {
            assert_eq!(pane_id, pane);
            assert_eq!(context.current_working_directory.as_deref(), Some("/x"));
        }
        _ => panic!("unexpected event"),
    }
    let hit = service.lookup_context(pane, 10).unwrap();
    assert_eq!(hit.current_working_directory.as_deref(), Some("/x"));
    let stats = service.get_cache_stats();
    assert_eq!((stats.hit_count, stats.miss_count), (1, 1));
}

#[test]
fn test_fallback_to_default_context() {
    let service = TerminalContextService::new();
    let context = service.fallback_context(0);
    assert_eq!(context.pane_id, PaneId::new(0));
    assert_eq!(context.current_working_directory, Some("~".to_string()));
    assert!(matches!(context.shell_type, Some(ShellType::Bash)));
    assert!(!context.shell_integration_enabled);
}

#[test]
fn fallback_uses_a_fresh_cached_context() {
    let mut service = TerminalContextService::new();
    service.default_cache_ttl = 100;
    service.cache_context(PaneId::new(3), context_at(3, "/old"), 0);
    service.cache_context(PaneId::new(5), context_at(5, "/new"), 500);
    let context = service.fallback_context(550);
    assert_eq!(context.pane_id, PaneId::new(5));
    assert!(service.any_cached_context(10_000).is_none());
}

#[test]
fn command_lines_split_on_whitespace() {
    let c = convert_command_info(Some("  git   commit -m\tmsg  "), 5, Some(9), Some(0), None);
    assert_eq!(c.command, "git");
    assert_eq!(c.args, vec!["commit", "-m", "msg"]);
    assert_eq!((c.start_time, c.end_time, c.exit_code), (5, Some(9), Some(0)));
    let empty = convert_command_info(Some("   "), 1, None, None, Some("/w".to_string()));
    assert_eq!(empty.command, "");
    assert!(empty.args.is_empty());
    assert_eq!(empty.working_directory.as_deref(), Some("/w"));
    let none = convert_command_info(None, 1, None, None, None);
    assert_eq!(none.command, "");
}

#[test]
fn contexts_from_shell_reports() {
    let report = ShellReport {
        shell_type: Some(ShellType::Zsh),
        integration_enabled: true,
        current_command: Some(CommandInfo::new("ls".to_string(), vec![], None)),
        command_history: vec![CommandInfo::new("pwd".to_string(), vec![], None)],
        window_title: Some("term".to_string()),
    };
    let c = context_from_report(PaneId::new(8), true, Some("/h".to_string()), Some(report));
    assert!(c.is_active);
    assert_eq!(c.current_working_directory.as_deref(), Some("/h"));
    assert_eq!(c.shell_type, Some(ShellType::Zsh));
    assert!(c.shell_integration_enabled);
    assert_eq!(c.current_command.unwrap().command, "ls");
    assert_eq!(c.command_history.len(), 1);
    assert_eq!(c.window_title.as_deref(), Some("term"));
    let bare = context_from_report(PaneId::new(8), false, None, None);
    assert!(bare.shell_type.is_none() && !bare.is_active);
}

#[test]
fn service_error_messages() {
    assert_eq!(no_active_terminal_message(), "没有活跃的终端");
    assert_eq!(pane_not_found_message(PaneId::new(999)), "面板不存在: 999");
}

#[test]
fn active_context_command_decides() {
    match active_context_outcome(Ok(context_at(4, "/w"))) {
        ActiveContextOutcome::Answer(c) => {
            assert_eq!(c.pane_id, PaneId::new(4));
            assert_eq!(c.current_working_directory.as_deref(), Some("/w"));
        }
        _ => panic!("expected the context"),
    }
    assert!(matches!(
        active_context_outcome(Err("No active terminal pane found".to_string())),
        ActiveContextOutcome::Fallback
    ));
    // the service's own message for that case does not hold the marker
    assert!(matches!(active_context_outcome(Err(no_active_terminal_message())), ActiveContextOutcome::Fail));
    assert!(matches!(active_context_outcome(Err("timeout".to_string())), ActiveContextOutcome::Fail));
}

#[test]
fn command_pane_ids() {
    assert_eq!(validate_pane_id(0).unwrap_err(), "面板ID不能为0");
    assert_eq!(validate_pane_id(7), Ok(PaneId::new(7)));
    assert_eq!(validate_optional_pane_id(None), Ok(None));
    assert_eq!(validate_optional_pane_id(Some(3)), Ok(Some(PaneId::new(3))));
    assert!(validate_optional_pane_id(Some(0)).is_err());
}

#[test]
fn test_context_service_integration_trait() {
    let mut service = TerminalContextService::new();
    let pane_id = PaneId::new(1);
    service.cache_context(pane_id, TerminalContext::new(pane_id), 0);
    assert!(service.get_cached_context(pane_id, 0).is_some());
    service.invalidate_cache(pane_id);
    assert!(service.get_cached_context(pane_id, 0).is_none());
}

#[test]
fn fallback_without_cache_is_the_default_context() {
    let service = TerminalContextService::new();
    let ctx = service.fallback_context(1_000);
    assert_eq!(ctx.pane_id, PaneId::new(0));
    assert_eq!(ctx.current_working_directory, Some("~".to_string()));
    assert_eq!(ctx.shell_type, Some(ShellType::Bash));
    assert!(!ctx.shell_integration_enabled);
}
