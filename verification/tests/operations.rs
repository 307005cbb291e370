use mcp_manager::CommandError;
use mcp_manager::MCPServer;
use mcp_manager::McpError;
use mcp_manager::SessionStep;
use mcp_manager::SessionTable;
use mcp_manager::TransportPlan;
use mcp_manager::acquire_step;
use mcp_manager::transport::plan_transport;

fn remote_descriptor(id: &str, url: &str) -> MCPServer {
    MCPServer {
        id: id.to_string(),
        name: "remote server".to_string(),
        baseUrl: Some(url.to_string()),
        command: None,
        registryUrl: None,
        args: None,
        env: None,
    }
}

fn local_descriptor(id: &str, command: Option<&str>, args: Option<Vec<&str>>) -> MCPServer {
    MCPServer {
        id: id.to_string(),
        name: "local server".to_string(),
        baseUrl: None,
        command: command.map(|c| c.to_string()),
        registryUrl: None,
        args: args.map(|a| a.into_iter().map(|s| s.to_string()).collect()),
        env: None,
    }
}

#[test]
fn stop_on_absent_id_is_a_noop() {
    let mut table = SessionTable::new();
    let id = "nobody".to_string();
    assert_eq!(table.remove(&id), None);
    assert_eq!(table.get(&id), None);
}

#[test]
fn stop_retires_the_current_session() {
    let mut table = SessionTable::new();
    let id = "s1".to_string();
    assert_eq!(table.put(&id, 11), None);
    assert_eq!(table.remove(&id), Some(11));
    assert_eq!(table.get(&id), None);
    assert_eq!(table.remove(&id), None);
}

#[test]
fn second_start_replaces_and_hands_back_the_first() {
    let mut table = SessionTable::new();
    let id = "s1".to_string();
    assert_eq!(table.put(&id, 1), None);
    assert_eq!(table.put(&id, 2), Some(1));
    assert_eq!(table.get(&id), Some(2));
}

#[test]
fn replacement_leaves_other_ids_alone() {
    let mut table = SessionTable::new();
    let a = "a".to_string();
    let b = "b".to_string();
    table.put(&a, 1);
    table.put(&b, 2);
    assert_eq!(table.put(&a, 3), Some(1));
    assert_eq!(table.get(&b), Some(2));
    assert_eq!(table.remove(&a), Some(3));
    assert_eq!(table.get(&b), Some(2));
}

#[test]
fn absent_id_establishes_then_reuses() {
    let mut table = SessionTable::new();
    let d = local_descriptor("s1", Some("npx"), Some(vec!["some-tool"]));
    match acquire_step(&table, &d) {
        Ok(SessionStep::Establish { plan: TransportPlan::Local { launch } }) => {
            assert_eq!(launch.program, "bun");
        },
        other => panic!("expected a local establish step, got {:?}", kind_of(&other)),
    }
    table.put(&d.id, 5);
    match acquire_step(&table, &d) {
        Ok(SessionStep::Reuse { session }) => assert_eq!(session, 5),
        other => panic!("expected a reuse step, got {:?}", kind_of(&other)),
    }
}

#[test]
fn remote_descriptor_plans_remote_and_reuses() {
    let mut table = SessionTable::new();
    let d = remote_descriptor("s2", "https://host/events");
    match plan_transport(&d) {
        Ok(TransportPlan::Remote { url }) => assert_eq!(url, "https://host/events"),
        _ => panic!("a base url must select the remote transport"),
    }
    table.put(&d.id, 9);
    match acquire_step(&table, &d) {
        Ok(SessionStep::Reuse { session }) => assert_eq!(session, 9),
        _ => panic!("the remote session must be reused"),
    }
}

#[test]
fn unknown_command_fails_start_and_leaves_registry_unchanged() {
    let table = SessionTable::new();
    let d = local_descriptor("s1", Some("node"), None);
    match plan_transport(&d) {
        Err(McpError::BadParameter(e)) => assert_eq!(e, CommandError::InvalidCommand),
        _ => panic!("an unknown command must be rejected"),
    }
    assert_eq!(table.get(&d.id), None);
}

#[test]
fn argument_limit_fails_every_operation_before_any_spawn() {
    let table = SessionTable::new();
    let d = local_descriptor("s1", Some("npx"), Some(vec!["a", "b", "c", "d", "e", "f"]));
    match plan_transport(&d) {
        Err(McpError::BadParameter(e)) => assert_eq!(e, CommandError::ArgumentLimitExceeded),
        _ => panic!("too many arguments must be rejected"),
    }
    match acquire_step(&table, &d) {
        Err(McpError::BadParameter(e)) => assert_eq!(e, CommandError::ArgumentLimitExceeded),
        _ => panic!("too many arguments must be rejected before establishing"),
    }
}

#[test]
fn remote_descriptor_skips_local_validation() {
    // The argument limit guards local spawns; a base url selects the
    // remote transport outright and the arguments are never examined.
    let mut d = remote_descriptor("s3", "https://host/events");
    d.args = Some(vec!["a", "b", "c", "d", "e", "f"].into_iter().map(String::from).collect());
    match plan_transport(&d) {
        Ok(TransportPlan::Remote { url }) => assert_eq!(url, "https://host/events"),
        _ => panic!("a base url must select the remote transport"),
    }
}

#[test]
fn missing_command_fails_establish() {
    let table = SessionTable::new();
    let d = local_descriptor("s1", None, None);
    match acquire_step(&table, &d) {
        Err(McpError::BadParameter(e)) => assert_eq!(e, CommandError::MissingCommand),
        _ => panic!("a descriptor with neither base url nor command must be rejected"),
    }
}

#[test]
fn active_session_skips_validation() {
    // The reuse fast path serves whatever session is current without
    // validating the descriptor again.
    let mut table = SessionTable::new();
    let d = local_descriptor("s1", Some("node"), Some(vec!["a", "b", "c", "d", "e", "f"]));
    table.put(&d.id, 4);
    match acquire_step(&table, &d) {
        Ok(SessionStep::Reuse { session }) => assert_eq!(session, 4),
        _ => panic!("an active session must be reused without validation"),
    }
}

fn kind_of(step: &Result<SessionStep, McpError>) -> &'static str {
    match step {
        Ok(SessionStep::Reuse { .. }) => "reuse",
        Ok(SessionStep::Establish { .. }) => "establish",
        Err(_) => "error",
    }
}
