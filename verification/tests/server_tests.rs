use web_server::hostable_servers::{
    arma, minecraft, parse_command_outcome, restart_step, session_active, CmdOutcome,
    CommandFailure, GeneralBashServer, HostableServer, Players, RestartStep, State, StopStep,
};

#[test]
fn fresh_bash_server_is_off() {
    let s = GeneralBashServer::new("minecraft");
    assert_eq!(s.get_path(), "minecraft");
    assert_eq!(s.state, State::Off);
    assert_eq!(s.players.count, 0);
    assert!(s.players.name_tags.is_empty());
}

#[test]
fn bash_server_commands() {
    let s = GeneralBashServer::new("valheim");
    assert_eq!(s.start_command(), "sh ./valheim/start.sh");
    assert_eq!(s.stop_command(), "sh ./valheim/stop.sh");
}

#[test]
fn bash_start_success_defers_to_unknown() {
    let mut s = GeneralBashServer::new("valheim");
    let r = s.finish_start(CmdOutcome::Ran);
    assert!(r.is_ok());
    assert_eq!(s.state, State::Unknown);
}

#[test]
fn bash_start_failure_keeps_state_and_propagates() {
    let mut s = GeneralBashServer::new("valheim");
    let r = s.finish_start(CmdOutcome::SpawnFailed(String::from("no such file")));
    match r {
        Err(e) => assert_eq!(
            e.to_text(),
            "An Error With Requested Command Occurred: no such file"
        ),
        Ok(()) => panic!("start must fail when the command could not run"),
    }
    assert_eq!(s.state, State::Off);
}

#[test]
fn bash_update_status_reads_sessions() {
    let mut s = GeneralBashServer::new("valheim");
    let r = s.update_status("There is a screen on:\n\t1234.valheim_server\t(Detached)\n");
    assert!(r.is_ok());
    assert_eq!(s.state, State::On);
    let r = s.update_status("No Sockets found.\n");
    assert!(r.is_ok());
    assert_eq!(s.state, State::Off);
}

#[test]
fn session_marker_must_match_exactly() {
    assert!(session_active(
        "\t9.arma_server\t(Detached)",
        "arma"
    ));
    // the trailing tab of the marker is required
    assert!(!session_active("\t9.arma_server (Detached)", "arma"));
    // a different path does not match
    assert!(!session_active("\t9.minecraft_server\t(Detached)", "arma"));
}

#[test]
fn restart_aborts_on_stop_failure() {
    let failure = CommandFailure(String::from("permission denied"));
    match restart_step(Err(failure)) {
        RestartStep::Abort(e) => assert_eq!(e.0, "permission denied"),
        RestartStep::Go => panic!("a failed stop must abort the restart"),
    }
}

#[test]
fn restart_goes_on_after_stop_success() {
    assert!(matches!(restart_step(Ok(())), RestartStep::Go));
}

#[test]
fn parse_command_outcome_maps_errors() {
    assert!(parse_command_outcome(CmdOutcome::Ran).is_ok());
    match parse_command_outcome(CmdOutcome::SpawnFailed(String::from("boom"))) {
        Err(e) => assert_eq!(e.0, "boom"),
        Ok(()) => panic!("a spawn failure must map to a command failure"),
    }
}

#[test]
fn minecraft_counts_players_from_log_line() {
    let mut s = minecraft::Server::new();
    s.update_with_log("[12:34:56] [Server thread/INFO]: There are 3 of a max of 20 players online: alice, bob, eve\n");
    assert_eq!(s.state, State::On);
    assert_eq!(s.players.count, 3);
}

#[test]
fn minecraft_missing_marker_leaves_count_and_goes_unknown() {
    let mut s = minecraft::Server::new();
    s.update_with_log("[12:34] [Server]: There are 7 of a max of 20 players online\n");
    assert_eq!(s.players.count, 7);
    s.update_with_log("[12:35] [Server]: Done (3.14s)! For help, type \"help\"\n");
    assert_eq!(s.state, State::Unknown);
    assert_eq!(s.players.count, 7);
}

#[test]
fn minecraft_two_digit_count() {
    let mut s = minecraft::Server::new();
    s.update_with_log(": There are 12 of a max of 20 players online");
    assert_eq!(s.state, State::On);
    assert_eq!(s.players.count, 12);
}

#[test]
fn minecraft_non_numeric_slice_keeps_count() {
    let mut s = minecraft::Server::new();
    s.update_with_log(": There are 5 of a max of 20 players online");
    assert_eq!(s.players.count, 5);
    // the two characters before the marker are not a number
    s.update_with_log("something odd of a max of 20");
    assert_eq!(s.state, State::On);
    assert_eq!(s.players.count, 5);
}

#[test]
fn minecraft_empty_log_goes_unknown() {
    let mut s = minecraft::Server::new();
    s.update_with_log("");
    assert_eq!(s.state, State::Unknown);
    assert_eq!(s.players.count, 0);
}

#[test]
fn minecraft_only_last_line_counts() {
    let mut s = minecraft::Server::new();
    s.update_with_log(": There are 9 of a max of 20 players online\nServer stopped\n");
    assert_eq!(s.state, State::Unknown);
    assert_eq!(s.players.count, 0);
}

#[test]
fn minecraft_session_absent_resets() {
    let mut s = minecraft::Server::new();
    s.update_with_log(": There are 3 of a max of 20 players online");
    assert_eq!(s.players.count, 3);
    let need_probe = s.update_with_sessions("No Sockets found.");
    assert!(!need_probe);
    assert_eq!(s.state, State::Off);
    assert_eq!(s.players.count, 0);
    assert!(s.players.name_tags.is_empty());
}

#[test]
fn minecraft_session_present_asks_for_probe() {
    let mut s = minecraft::Server::new();
    let need_probe = s.update_with_sessions("\t7.minecraft_server\t(Detached)");
    assert!(need_probe);
    assert_eq!(s.probe_command(), "sh ./minecraft/status.sh");
    assert_eq!(s.log_path(), "Minecraft/screenlog.0");
}

#[test]
fn minecraft_set_default_resets_everything() {
    let mut s = minecraft::Server::new();
    s.update_with_log(": There are 3 of a max of 20 players online");
    s.set_default();
    assert_eq!(s.state, State::Off);
    assert_eq!(s.players.count, 0);
    assert!(s.players.name_tags.is_empty());
}

#[test]
fn arma_records_start_and_stop_immediately() {
    let mut s = arma::Server::new();
    assert!(s.finish_start(CmdOutcome::Ran).is_ok());
    assert_eq!(s.state, State::On);
    assert!(s.finish_stop(CmdOutcome::Ran).is_ok());
    assert_eq!(s.state, State::Off);
}

#[test]
fn arma_idk_builds_a_bash_server() {
    let s = arma::Server::idk();
    assert_eq!(s.get_path(), "arma");
    assert_eq!(s.state, State::Off);
}

#[test]
fn server_json_matches_serde_layout() {
    let s = GeneralBashServer::new("arma");
    assert_eq!(
        s.to_json(),
        "{\"path\":\"arma\",\"state\":\"Off\",\"players\":{\"count\":0,\"name_tags\":[]}}"
    );
}

#[test]
fn minecraft_json_reports_state_and_count() {
    let mut s = minecraft::Server::new();
    s.update_with_log(": There are 3 of a max of 20 players online");
    assert_eq!(
        s.to_json(),
        "{\"state\":\"On\",\"players\":{\"count\":3,\"name_tags\":[]}}"
    );
}

#[test]
fn server_json_escapes_through_serde() {
    // a path that needs escaping must come back unchanged when parsed
    let s = GeneralBashServer::new("he\"llo\\w");
    let parsed: serde_json::Value = serde_json::from_str(&s.to_json()).unwrap();
    assert_eq!(parsed["path"].as_str().unwrap(), "he\"llo\\w");
}

#[test]
fn enum_dispatches_to_variants() {
    let mut s = HostableServer::Minecraft(minecraft::Server::new());
    assert_eq!(s.get_path(), "minecraft");
    assert_eq!(s.start_command(), "sh ./minecraft/start.sh");
    match s.finish_stop(CmdOutcome::Ran) {
        StopStep::Done(r) => assert!(r.is_ok()),
        StopStep::NeedSessions => panic!("a minecraft stop needs no session listing"),
    }
    let mut b = HostableServer::GeneralBash(GeneralBashServer::new("arma"));
    assert!(matches!(b.finish_stop(CmdOutcome::Ran), StopStep::NeedSessions));
    assert!(b.stop_with_sessions("nothing here").is_ok());
}

#[test]
fn players_new_is_empty() {
    let p = Players::new();
    assert_eq!(p.count, 0);
    assert!(p.name_tags.is_empty());
    assert_eq!(p.to_json(), "{\"count\":0,\"name_tags\":[]}");
}

#[test]
fn state_new_is_off() {
    assert_eq!(State::new(), State::Off);
}

#[test]
fn minecraft_marker_at_line_start_keeps_count() {
    let mut s = minecraft::Server::new();
    s.update_with_log(": There are 4 of a max of 20 players online");
    assert_eq!(s.players.count, 4);
    // nothing stands before the marker, so there is no number to parse
    s.update_with_log(" of a max of 20 players online");
    assert_eq!(s.state, State::On);
    assert_eq!(s.players.count, 4);
}

#[test]
fn minecraft_log_with_crlf_line_endings() {
    let mut s = minecraft::Server::new();
    s.update_with_log("Done\r\n: There are 8 of a max of 20 players online\r\n");
    assert_eq!(s.state, State::On);
    assert_eq!(s.players.count, 8);
}

#[test]
fn players_json_renders_large_counts() {
    let p = Players { count: usize::MAX, name_tags: Vec::new() };
    assert_eq!(
        p.to_json(),
        format!("{{\"count\":{},\"name_tags\":[]}}", usize::MAX)
    );
}

#[test]
fn players_json_lists_name_tags() {
    let p = Players {
        count: 2,
        name_tags: vec![String::from("alice"), String::from("bob")],
    };
    assert_eq!(
        p.to_json(),
        "{\"count\":2,\"name_tags\":[\"alice\",\"bob\"]}"
    );
    let parsed: serde_json::Value = serde_json::from_str(&p.to_json()).unwrap();
    assert_eq!(parsed["name_tags"][1].as_str().unwrap(), "bob");
}
