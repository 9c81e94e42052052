use web_server::hostable_servers::{
    minecraft, CmdOutcome, GeneralBashServer, HostableServer,
};
use web_server::http::{Content, Variant};
use web_server::{
    file_reply, parse_request_line, shutdown_reply, watchdog_should_shutdown, Dispatch, ProbeStep,
    ShutdownOutcome, StatusStep, StopReply, WebServer,
};

fn registry_of_two() -> WebServer {
    let mut ws = WebServer::new();
    ws.add_hostable_server(HostableServer::GeneralBash(GeneralBashServer::new("minecraft")));
    ws.add_hostable_server(HostableServer::GeneralBash(GeneralBashServer::new("arma")));
    ws
}

#[test]
fn request_line_takes_first_two_fields() {
    let (method, link) = parse_request_line("GET /minecraft/get_status HTTP/1.1\r\nHost: x");
    assert_eq!(method, "GET");
    assert_eq!(link, "/minecraft/get_status");
    let (method, link) = parse_request_line("GARBAGE");
    assert_eq!(method, "GARBAGE");
    assert_eq!(link, "");
}

#[test]
fn unknown_method_is_named() {
    let ws = registry_of_two();
    match ws.parse_http_request("PUT", "/") {
        Dispatch::Reply(m) => {
            assert_eq!(m.variant, Variant::NotFound);
            match m.content {
                Content::Text(t) => assert_eq!(t, "Unkown method: PUT"),
                _ => panic!("expected a text body"),
            }
        }
        _ => panic!("expected a ready reply"),
    }
}

#[test]
fn landing_page_is_a_file() {
    let ws = registry_of_two();
    match ws.parse_http_request("GET", "/") {
        Dispatch::Reply(m) => {
            assert_eq!(m.variant, Variant::Okay);
            match m.content {
                Content::File(f) => assert_eq!(f, "hello.html"),
                _ => panic!("expected file content"),
            }
        }
        _ => panic!("expected a ready reply"),
    }
}

#[test]
fn favicon_returns_the_embedded_bytes() {
    let mut ws = registry_of_two();
    ws.set_favicon(vec![1, 2, 3]);
    match ws.parse_http_request("GET", "/favicon.ico") {
        Dispatch::Reply(m) => match m.content {
            Content::RawBytes(b) => assert_eq!(b, vec![1, 2, 3]),
            _ => panic!("expected raw bytes"),
        },
        _ => panic!("expected a ready reply"),
    }
}

#[test]
fn available_servers_lists_the_registry() {
    let ws = registry_of_two();
    match ws.parse_http_request("GET", "/available-servers") {
        Dispatch::Reply(m) => {
            assert_eq!(m.variant, Variant::Okay);
            match m.content {
                Content::Struct(t) => {
                    let mut names: Vec<String> = serde_json::from_str(&t).unwrap();
                    names.sort();
                    assert_eq!(names, vec!["arma".to_string(), "minecraft".to_string()]);
                }
                _ => panic!("expected a structured body"),
            }
        }
        _ => panic!("expected a ready reply"),
    }
}

#[test]
fn file_route_reads_the_third_segment() {
    let ws = registry_of_two();
    match ws.parse_http_request("GET", "/file/notes.txt") {
        Dispatch::ReadFile(p) => assert_eq!(p, "notes.txt"),
        _ => panic!("expected a file read"),
    }
    match ws.parse_http_request("GET", "/file") {
        Dispatch::Reply(m) => {
            assert_eq!(m.variant, Variant::NotFound);
            match m.content {
                Content::Text(t) => assert_eq!(t, "File Not Found: /file"),
                _ => panic!("expected a text body"),
            }
        }
        _ => panic!("expected a ready reply"),
    }
}

#[test]
fn file_read_outcomes_map_to_replies() {
    let ok = file_reply(Ok(String::from("contents")));
    assert_eq!(ok.variant, Variant::Okay);
    assert!(matches!(ok.content, Content::File(f) if f == "contents"));
    let err = file_reply(Err(String::from("No such file")));
    assert_eq!(err.variant, Variant::InternalServerError);
    assert!(matches!(err.content, Content::Text(t) if t == "No such file"));
}

#[test]
fn update_js_is_served_per_server() {
    let ws = registry_of_two();
    match ws.parse_http_request("GET", "/arma/update.js") {
        Dispatch::Reply(m) => {
            assert_eq!(m.variant, Variant::Okay);
            assert!(matches!(m.content, Content::File(f) if f == "arma/update.js"));
        }
        _ => panic!("expected a ready reply"),
    }
}

#[test]
fn unknown_get_link_is_named() {
    let ws = registry_of_two();
    match ws.parse_http_request("GET", "/nonsense") {
        Dispatch::Reply(m) => {
            assert_eq!(m.variant, Variant::NotFound);
            assert!(matches!(m.content, Content::Text(t) if t == "Unkown GET link: /nonsense"));
        }
        _ => panic!("expected a ready reply"),
    }
}

#[test]
fn ping_is_acknowledged() {
    let ws = registry_of_two();
    match ws.parse_http_request("POST", "/Ping") {
        Dispatch::Reply(m) => {
            assert_eq!(m.variant, Variant::Okay);
            assert!(matches!(m.content, Content::Text(t) if t == "Ping succesfull"));
        }
        _ => panic!("expected a ready reply"),
    }
}

#[test]
fn shutdown_route_dispatches_to_the_host() {
    let ws = registry_of_two();
    assert!(matches!(ws.parse_http_request("POST", "/Shutdown"), Dispatch::Shutdown));
}

#[test]
fn shutdown_outcomes_map_to_replies() {
    let ok = shutdown_reply(ShutdownOutcome::Succeeded);
    assert_eq!(ok.variant, Variant::Okay);
    assert!(matches!(ok.content, Content::Text(t) if t == "Shutting the server down"));
    let spawn = shutdown_reply(ShutdownOutcome::SpawnFailed(String::from("no shutdown")));
    assert_eq!(spawn.variant, Variant::ServiceUnavailable);
    let failed = shutdown_reply(ShutdownOutcome::Failed(String::from("not permitted")));
    assert_eq!(failed.variant, Variant::ServiceUnavailable);
    assert!(matches!(failed.content, Content::Text(t) if t == "not permitted"));
}

#[test]
fn start_against_unregistered_path_is_not_found() {
    // "minecraft" is absent from this registry
    let mut ws = WebServer::new();
    ws.add_hostable_server(HostableServer::GeneralBash(GeneralBashServer::new("arma")));
    match ws.parse_http_request("POST", "/minecraft/start") {
        Dispatch::Reply(m) => {
            assert_eq!(m.variant, Variant::NotFound);
            assert!(
                matches!(m.content, Content::Text(t) if t == "Unkown POST link: /minecraft/start")
            );
        }
        _ => panic!("expected a ready reply"),
    }
}

#[test]
fn start_against_registered_path_runs_its_command() {
    let ws = registry_of_two();
    match ws.parse_http_request("POST", "/minecraft/start") {
        Dispatch::Start(i, command) => {
            assert_eq!(i, 0);
            assert_eq!(command, "sh ./minecraft/start.sh");
        }
        _ => panic!("expected a start dispatch"),
    }
}

#[test]
fn failed_start_reports_the_failure_text() {
    let mut ws = registry_of_two();
    match ws.parse_http_request("POST", "/minecraft/start") {
        Dispatch::Start(i, _command) => {
            let m = ws.finish_start_reply(i, CmdOutcome::SpawnFailed(String::from("scripts gone")));
            assert_eq!(m.variant, Variant::InternalServerError);
            match m.content {
                Content::Text(t) => {
                    assert!(t.contains("scripts gone"));
                    assert_eq!(t, "An Error With Requested Command Occurred: scripts gone");
                }
                _ => panic!("expected a text body"),
            }
        }
        _ => panic!("expected a start dispatch"),
    }
}

#[test]
fn successful_start_is_an_empty_ok() {
    let mut ws = registry_of_two();
    let m = ws.finish_start_reply(0, CmdOutcome::Ran);
    assert_eq!(m.variant, Variant::Okay);
    assert!(matches!(m.content, Content::Empty));
}

#[test]
fn bash_stop_polls_the_sessions() {
    let mut ws = registry_of_two();
    match ws.parse_http_request("POST", "/arma/stop") {
        Dispatch::Stop(i, command) => {
            assert_eq!(i, 1);
            assert_eq!(command, "sh ./arma/stop.sh");
            match ws.finish_stop_reply(i, CmdOutcome::Ran) {
                StopReply::NeedSessions => {}
                StopReply::Reply(_) => panic!("a bash stop must re-derive its state"),
            }
            let m = ws.stop_sessions_reply(i, "No Sockets found.");
            assert_eq!(m.variant, Variant::Okay);
            assert!(matches!(m.content, Content::Empty));
        }
        _ => panic!("expected a stop dispatch"),
    }
}

#[test]
fn failed_stop_reports_the_failure_text() {
    let mut ws = registry_of_two();
    match ws.finish_stop_reply(0, CmdOutcome::SpawnFailed(String::from("nope"))) {
        StopReply::Reply(m) => {
            assert_eq!(m.variant, Variant::InternalServerError);
            assert!(
                matches!(m.content, Content::Text(t) if t == "An Error With Requested Command Occurred: nope")
            );
        }
        StopReply::NeedSessions => panic!("a failed stop is already answered"),
    }
}

#[test]
fn unknown_post_second_segment_is_named() {
    let ws = registry_of_two();
    match ws.parse_http_request("POST", "/arma/reboot") {
        Dispatch::Reply(m) => {
            assert_eq!(m.variant, Variant::NotFound);
            assert!(matches!(m.content, Content::Text(t) if t == "Unkown POST link: /arma/reboot"));
        }
        _ => panic!("expected a ready reply"),
    }
}

#[test]
fn get_status_of_a_bash_server_serializes_it() {
    let mut ws = registry_of_two();
    match ws.parse_http_request("GET", "/arma/get_status") {
        Dispatch::GetStatus(i) => {
            assert_eq!(i, 1);
            match ws.status_sessions_reply(i, "\t3.arma_server\t(Detached)") {
                StatusStep::Reply(m) => {
                    assert_eq!(m.variant, Variant::Okay);
                    match m.content {
                        Content::Struct(t) => assert_eq!(
                            t,
                            "{\"path\":\"arma\",\"state\":\"On\",\"players\":{\"count\":0,\"name_tags\":[]}}"
                        ),
                        _ => panic!("expected a structured body"),
                    }
                }
                StatusStep::NeedProbe(_) => panic!("a bash server needs no probe"),
            }
        }
        _ => panic!("expected a status dispatch"),
    }
}

#[test]
fn get_status_of_minecraft_probes_and_reads_the_log() {
    let mut ws = WebServer::new();
    ws.add_hostable_server(HostableServer::Minecraft(minecraft::Server::new()));
    match ws.parse_http_request("GET", "/minecraft/get_status") {
        Dispatch::GetStatus(i) => {
            let step = ws.status_sessions_reply(i, "\t3.minecraft_server\t(Detached)");
            match step {
                StatusStep::NeedProbe(command) => assert_eq!(command, "sh ./minecraft/status.sh"),
                StatusStep::Reply(_) => panic!("an active minecraft session needs the probe"),
            }
            match ws.status_probe_reply(i, CmdOutcome::Ran) {
                ProbeStep::ReadLog(p) => assert_eq!(p, "Minecraft/screenlog.0"),
                ProbeStep::Reply(_) => panic!("a successful probe reads the log"),
            }
            let m = ws.status_log_reply(i, ": There are 3 of a max of 20 players online");
            assert_eq!(m.variant, Variant::Okay);
            match m.content {
                Content::Struct(t) => assert_eq!(
                    t,
                    "{\"state\":\"On\",\"players\":{\"count\":3,\"name_tags\":[]}}"
                ),
                _ => panic!("expected a structured body"),
            }
        }
        _ => panic!("expected a status dispatch"),
    }
}

#[test]
fn failed_probe_fails_the_poll() {
    let mut ws = WebServer::new();
    ws.add_hostable_server(HostableServer::Minecraft(minecraft::Server::new()));
    match ws.status_probe_reply(0, CmdOutcome::SpawnFailed(String::from("gone"))) {
        ProbeStep::Reply(m) => {
            assert_eq!(m.variant, Variant::InternalServerError);
            assert!(
                matches!(m.content, Content::Text(t) if t == "An Error With Requested Command Occurred: gone")
            );
        }
        ProbeStep::ReadLog(_) => panic!("a failed probe must not read the log"),
    }
}

#[test]
fn get_status_with_no_session_reports_off() {
    let mut ws = registry_of_two();
    match ws.status_sessions_reply(0, "No Sockets found.") {
        StatusStep::Reply(m) => match m.content {
            Content::Struct(t) => assert_eq!(
                t,
                "{\"path\":\"minecraft\",\"state\":\"Off\",\"players\":{\"count\":0,\"name_tags\":[]}}"
            ),
            _ => panic!("expected a structured body"),
        },
        StatusStep::NeedProbe(_) => panic!("an absent session needs no probe"),
    }
}

#[test]
fn find_server_returns_the_registered_instance() {
    let ws = registry_of_two();
    assert_eq!(ws.find_server("minecraft"), Some(0));
    assert_eq!(ws.find_server("arma"), Some(1));
    assert_eq!(ws.find_server("valheim"), None);
    let s = &ws.hostable_servers[ws.find_server("arma").unwrap()];
    assert_eq!(s.get_path(), "arma");
}

#[test]
fn watchdog_fires_only_without_a_signal() {
    assert!(!watchdog_should_shutdown(true));
    assert!(watchdog_should_shutdown(false));
}

#[test]
fn duplicate_path_resolves_to_the_first_registration() {
    let mut ws = WebServer::new();
    ws.add_hostable_server(HostableServer::GeneralBash(GeneralBashServer::new("arma")));
    ws.add_hostable_server(HostableServer::GeneralBash(GeneralBashServer::new("arma")));
    assert_eq!(ws.find_server("arma"), Some(0));
}

#[test]
fn empty_registry_answers_not_found() {
    let ws = WebServer::new();
    match ws.parse_http_request("GET", "/minecraft/get_status") {
        Dispatch::Reply(m) => {
            assert_eq!(m.variant, Variant::NotFound);
            assert!(
                matches!(m.content, Content::Text(t) if t == "Unkown GET link: /minecraft/get_status")
            );
        }
        _ => panic!("expected a ready reply"),
    }
}

#[test]
fn unknown_get_second_segment_is_named() {
    let ws = registry_of_two();
    match ws.parse_http_request("GET", "/arma/players") {
        Dispatch::Reply(m) => {
            assert_eq!(m.variant, Variant::NotFound);
            assert!(matches!(m.content, Content::Text(t) if t == "Unkown GET link: /arma/players"));
        }
        _ => panic!("expected a ready reply"),
    }
}

#[test]
fn empty_request_line_is_not_a_known_method() {
    let ws = registry_of_two();
    let (method, link) = parse_request_line("");
    assert_eq!(method, "");
    assert_eq!(link, "");
    match ws.parse_http_request(&method, &link) {
        Dispatch::Reply(m) => {
            assert_eq!(m.variant, Variant::NotFound);
            assert!(matches!(m.content, Content::Text(t) if t == "Unkown method: "));
        }
        _ => panic!("expected a ready reply"),
    }
}
