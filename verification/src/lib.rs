//! A small verified core for a game-server hosting controller.
//!
//! The library models controllable background servers (start / stop /
//! status polling), a minimal HTTP response format, and the router that
//! maps request paths onto lifecycle operations against a registry of
//! servers.  All external effects (running commands, listing sessions,
//! reading files, sockets) are performed by the host program, which
//! feeds their outcomes into the decision functions defined here.

pub mod hostable_servers;
pub mod http;
pub mod json;
pub mod text;

use vstd::prelude::*;
use vstd::string::*;
use hostable_servers::{
    spec_failure_text, spec_script_command, spec_session_marker, CmdOutcome, HostableServer,
    State, StopStep,
};
use http::{Content, Message, Variant};
use json::{json_string_array, json_string_array_exec};
use text::{spec_split, split_str, str_eq};

verus! {

/// Simple web interface around a registry of hostable servers: each
/// request is parsed, resolved against the registry, and answered with
/// a [`Message`].
pub struct WebServer {
    /// The registered servers, resolved by their path tokens
    pub hostable_servers: Vec<HostableServer>,
    /// The embedded icon served for the favicon route
    pub favicon: Vec<u8>,
}

impl WebServer {
    /// The registered path tokens, in registration order.
    pub open spec fn spec_paths(&self) -> Seq<Seq<char>> {
        self.hostable_servers@.map_values(|s: HostableServer| s.spec_path())
    }

    /// Every registered server is well formed.
    pub open spec fn wf(&self) -> bool {
        forall|i: int|
            0 <= i < self.hostable_servers@.len() ==> (#[trigger] self.hostable_servers@[i]).wf()
    }

    /// No two servers are registered under the same path token.
    pub open spec fn paths_unique(&self) -> bool {
        forall|i: int, j: int|
            0 <= i < j < self.spec_paths().len() ==> self.spec_paths()[i] != self.spec_paths()[j]
    }

    /// Returns a new instance with an empty registry.
    pub fn new() -> (ws: Self)
        ensures
            ws.hostable_servers@.len() == 0,
            ws.favicon@.len() == 0,
    {
        WebServer { hostable_servers: Vec::new(), favicon: Vec::new() }
    }

    /// Adds a hostable server to the registry.
    pub fn add_hostable_server(&mut self, server: HostableServer)
        ensures
            final(self).hostable_servers@ == old(self).hostable_servers@.push(server),
            final(self).favicon == old(self).favicon,
    {
        self.hostable_servers.push(server);
    }

    /// Sets the embedded icon served for the favicon route.
    pub fn set_favicon(&mut self, bytes: Vec<u8>)
        ensures
            final(self).hostable_servers == old(self).hostable_servers,
            final(self).favicon == bytes,
    {
        self.favicon = bytes;
    }

    /// The index of the first server registered under `token`, if any.
    pub fn find_server(&self, token: &str) -> (r: Option<usize>)
        ensures
            match r {
                Some(i) => {
                    &&& i < self.hostable_servers@.len()
                    &&& self.spec_paths()[i as int] == token@
                    &&& spec_find_path(self.spec_paths(), token@) == Some(i as int)
                },
                None => spec_find_path(self.spec_paths(), token@) is None,
            },
    {
        let ghost paths = self.spec_paths();
        let mut i: usize = 0;
        while i < self.hostable_servers.len()
            invariant
                paths == self.spec_paths(),
                paths.len() == self.hostable_servers@.len(),
                i <= paths.len(),
                forall|j: int| 0 <= j < i ==> paths[j] != token@,
            decreases paths.len() - i,
        {
            if str_eq(self.hostable_servers[i].get_path(), token) {
                proof {
                    lemma_find_path_first(paths, token@, i as int);
                }
                return Some(i);
            }
            i += 1;
        }
        proof {
            lemma_find_path_none(paths, token@);
        }
        None
    }
}

/// How a parsed request is to be answered: either with a ready message,
/// or after the host performs the named external step and hands its
/// outcome to the matching continuation.
pub enum Dispatch {
    /// The response is complete.
    Reply(Message),
    /// Read this file and hand the outcome to [`file_reply`].
    ReadFile(String),
    /// Run the host shutdown command and hand the outcome to
    /// [`shutdown_reply`].
    Shutdown,
    /// Run this command line and hand the outcome to
    /// [`WebServer::finish_start_reply`] for this registry index.
    Start(usize, String),
    /// Run this command line and hand the outcome to
    /// [`WebServer::finish_stop_reply`] for this registry index.
    Stop(usize, String),
    /// Poll the session listing and hand it to
    /// [`WebServer::status_sessions_reply`] for this registry index.
    GetStatus(usize),
}

/// What remains after the stop command's outcome was applied.
pub enum StopReply {
    /// The response is complete.
    Reply(Message),
    /// The session listing must be polled and handed to
    /// [`WebServer::stop_sessions_reply`].
    NeedSessions,
}

/// What remains after a status poll saw the session listing.
pub enum StatusStep {
    /// The response is complete.
    Reply(Message),
    /// This probe command must be run and its outcome handed to
    /// [`WebServer::status_probe_reply`].
    NeedProbe(String),
}

/// What remains after the status probe ran.
pub enum ProbeStep {
    /// The response is complete.
    Reply(Message),
    /// This log file must be read and its text handed to
    /// [`WebServer::status_log_reply`].
    ReadLog(String),
}

/// The outcome of the host shutdown command.
pub enum ShutdownOutcome {
    /// The command could not be run; the OS error text.
    SpawnFailed(String),
    /// The command ran and reported success.
    Succeeded,
    /// The command ran and reported failure; its error output.
    Failed(String),
}

/// The message is a text response with this variant and body.
pub open spec fn spec_text_message(m: Message, v: Variant, body: Seq<char>) -> bool {
    &&& m.variant == v
    &&& m.content matches Content::Text(t) && t@ == body
}

/// The dispatch is a ready text response with this variant and body.
pub open spec fn spec_text_reply(d: Dispatch, v: Variant, body: Seq<char>) -> bool {
    d matches Dispatch::Reply(m) && spec_text_message(m, v, body)
}

/// Builds a text message whose body is `prefix` followed by `rest`.
fn text_message(v: Variant, prefix: &str, rest: &str) -> (m: Message)
    ensures
        spec_text_message(m, v, prefix@ + rest@),
{
    let mut t = String::from_str(prefix);
    t.append(rest);
    Message::new(v, Content::Text(t))
}

/// The response for a file route, from the outcome of reading the file:
/// the file's text on success, an internal server error wrapping the
/// read error otherwise.
pub fn file_reply(outcome: Result<String, String>) -> (m: Message)
    ensures
        match outcome {
            Ok(text) => m.variant == Variant::Okay && (m.content matches Content::File(f) && f
                == text),
            Err(e) => spec_text_message(m, Variant::InternalServerError, e@),
        },
{
    match outcome {
        Ok(text) => Message::new(Variant::Okay, Content::File(text)),
        Err(e) => Message::internal_server_error(e),
    }
}

/// The response for the shutdown route, from the outcome of the host
/// shutdown command: service-unavailable with the error text when the
/// command could not run or reported failure, a fixed acknowledgement
/// otherwise.
pub fn shutdown_reply(outcome: ShutdownOutcome) -> (m: Message)
    ensures
        match outcome {
            ShutdownOutcome::SpawnFailed(e) => spec_text_message(
                m,
                Variant::ServiceUnavailable,
                e@,
            ),
            ShutdownOutcome::Succeeded => spec_text_message(
                m,
                Variant::Okay,
                "Shutting the server down"@,
            ),
            ShutdownOutcome::Failed(e) => spec_text_message(m, Variant::ServiceUnavailable, e@),
        },
{
    match outcome {
        ShutdownOutcome::SpawnFailed(e) => Message::new(
            Variant::ServiceUnavailable,
            Content::Text(e),
        ),
        ShutdownOutcome::Succeeded => Message::new(
            Variant::Okay,
            Content::Text(String::from_str("Shutting the server down")),
        ),
        ShutdownOutcome::Failed(e) => Message::new(Variant::ServiceUnavailable, Content::Text(e)),
    }
}

/// The idle watchdog's rule: a liveness signal within the window keeps
/// the host up; an elapsed window without one triggers the shutdown.
pub fn watchdog_should_shutdown(signal_received: bool) -> (r: bool)
    ensures
        r == !signal_received,
{
    !signal_received
}

/// Splits the first line of a raw request into its method and path
/// tokens: the first two space-separated fields, the second empty when
/// missing.
pub fn parse_request_line(buffer: &str) -> (r: (String, String))
    ensures
        spec_split(buffer@, ' ').len() >= 1,
        r.0@ == spec_split(buffer@, ' ')[0],
        r.1@ == (if spec_split(buffer@, ' ').len() >= 2 {
            spec_split(buffer@, ' ')[1]
        } else {
            Seq::<char>::empty()
        }),
{
    proof {
        text::lemma_spec_split_len(buffer@, ' ');
    }
    let fields = split_str(buffer, ' ');
    let method = fields[0].clone();
    let link = if fields.len() >= 2 {
        fields[1].clone()
    } else {
        String::new()
    };
    (method, link)
}

impl WebServer {
    /// The structured listing of all registered path tokens.
    pub fn available_servers_message(&self) -> (m: Message)
        ensures
            m.variant == Variant::Okay,
            m.content matches Content::Struct(t) && t@ == json_string_array(self.spec_paths()),
    {
        let mut names: Vec<String> = Vec::new();
        let mut i: usize = 0;
        while i < self.hostable_servers.len()
            invariant
                i <= self.hostable_servers@.len(),
                names@.len() == i,
                names.deep_view() == self.spec_paths().take(i as int),
            decreases self.hostable_servers@.len() - i,
        {
            let ghost prev = names.deep_view();
            names.push(self.hostable_servers[i].get_path().to_owned());
            proof {
                assert forall|k: int| 0 <= k < i + 1 implies names.deep_view()[k]
                    == self.spec_paths().take(i + 1)[k] by {
                    if k < i {
                        assert(names.deep_view()[k] == prev[k]);
                    } else {
                        assert(names.deep_view()[k] == names@[k]@);
                    }
                }
                assert(names.deep_view() =~= self.spec_paths().take(i + 1));
            }
            i += 1;
        }
        proof {
            assert(self.spec_paths().take(self.spec_paths().len() as int) =~= self.spec_paths());
        }
        let listing = json_string_array_exec(&names);
        Message::new(Variant::Okay, Content::Struct(listing))
    }

    /// The response for a start route, from the outcome of the start
    /// command: an empty OK on success, an internal server error with
    /// the failure text otherwise.
    pub fn finish_start_reply(&mut self, i: usize, outcome: CmdOutcome) -> (m: Message)
        requires
            i < old(self).hostable_servers@.len(),
        ensures
            final(self).favicon == old(self).favicon,
            final(self).hostable_servers@.len() == old(self).hostable_servers@.len(),
            forall|j: int|
                0 <= j < old(self).hostable_servers@.len() && j != i
                    ==> final(self).hostable_servers@[j] == old(self).hostable_servers@[j],
            old(self).hostable_servers@[i as int].same_variant(
                &final(self).hostable_servers@[i as int],
            ),
            final(self).hostable_servers@[i as int].spec_path() == old(self).hostable_servers@[i as int].spec_path(),
            old(self).hostable_servers@[i as int].wf() ==> final(self).hostable_servers@[i as int].wf(),
            final(self).hostable_servers@[i as int].spec_players() == old(self).hostable_servers@[i as int].spec_players(),
            match outcome {
                CmdOutcome::Ran => {
                    &&& m.variant == Variant::Okay
                    &&& m.content is Empty
                    &&& final(self).hostable_servers@[i as int].spec_state() == old(self).hostable_servers@[i as int].start_target()
                },
                CmdOutcome::SpawnFailed(msg) => {
                    &&& spec_text_message(m, Variant::InternalServerError, spec_failure_text(msg@))
                    &&& final(self).hostable_servers@[i as int] == old(self).hostable_servers@[i as int]
                },
            },
    {
        let ghost old_servers = self.hostable_servers@;
        let mut server = self.hostable_servers.remove(i);
        let r = server.finish_start(outcome);
        self.hostable_servers.insert(i, server);
        proof {
            assert(forall|j: int|
                0 <= j < old_servers.len() && j != i ==> final(self).hostable_servers@[j]
                    == old_servers[j]);
        }
        match r {
            Ok(()) => Message::default(),
            Err(e) => {
                let text = e.to_text();
                Message::internal_server_error(text)
            },
        }
    }

    /// The response for a stop route, from the outcome of the stop
    /// command: an internal server error with the failure text when the
    /// command could not run; an empty OK once the stop is complete.  A
    /// bash-script server first needs the session listing to re-derive
    /// its state.
    pub fn finish_stop_reply(&mut self, i: usize, outcome: CmdOutcome) -> (r: StopReply)
        requires
            i < old(self).hostable_servers@.len(),
        ensures
            final(self).favicon == old(self).favicon,
            final(self).hostable_servers@.len() == old(self).hostable_servers@.len(),
            forall|j: int|
                0 <= j < old(self).hostable_servers@.len() && j != i
                    ==> final(self).hostable_servers@[j] == old(self).hostable_servers@[j],
            old(self).hostable_servers@[i as int].same_variant(
                &final(self).hostable_servers@[i as int],
            ),
            final(self).hostable_servers@[i as int].spec_path() == old(self).hostable_servers@[i as int].spec_path(),
            old(self).hostable_servers@[i as int].wf() ==> final(self).hostable_servers@[i as int].wf(),
            final(self).hostable_servers@[i as int].spec_players() == old(self).hostable_servers@[i as int].spec_players(),
            match outcome {
                CmdOutcome::Ran => match old(self).hostable_servers@[i as int] {
                    HostableServer::GeneralBash(_) => r is NeedSessions && final(self).hostable_servers@[i as int] == old(self).hostable_servers@[i as int],
                    HostableServer::Minecraft(_) => {
                        &&& r matches StopReply::Reply(m) && m.variant == Variant::Okay
                            && m.content is Empty
                        &&& final(self).hostable_servers@[i as int].spec_state()
                            == State::Unknown
                    },
                    HostableServer::Arma(_) => {
                        &&& r matches StopReply::Reply(m) && m.variant == Variant::Okay
                            && m.content is Empty
                        &&& final(self).hostable_servers@[i as int].spec_state() == State::Off
                    },
                },
                CmdOutcome::SpawnFailed(msg) => {
                    &&& r matches StopReply::Reply(m) && spec_text_message(
                        m,
                        Variant::InternalServerError,
                        spec_failure_text(msg@),
                    )
                    &&& final(self).hostable_servers@[i as int] == old(self).hostable_servers@[i as int]
                },
            },
    {
        let ghost old_servers = self.hostable_servers@;
        let mut server = self.hostable_servers.remove(i);
        let step = server.finish_stop(outcome);
        self.hostable_servers.insert(i, server);
        proof {
            assert(forall|j: int|
                0 <= j < old_servers.len() && j != i ==> final(self).hostable_servers@[j]
                    == old_servers[j]);
        }
        match step {
            StopStep::Done(Ok(())) => StopReply::Reply(Message::default()),
            StopStep::Done(Err(e)) => {
                let text = e.to_text();
                StopReply::Reply(Message::internal_server_error(text))
            },
            StopStep::NeedSessions => StopReply::NeedSessions,
        }
    }

    /// Completes a stop of a bash-script server once the session listing
    /// is available: the state is re-derived and the response is an
    /// empty OK.
    pub fn stop_sessions_reply(&mut self, i: usize, sessions: &str) -> (m: Message)
        requires
            i < old(self).hostable_servers@.len(),
            old(self).hostable_servers@[i as int] is GeneralBash,
        ensures
            final(self).favicon == old(self).favicon,
            final(self).hostable_servers@.len() == old(self).hostable_servers@.len(),
            forall|j: int|
                0 <= j < old(self).hostable_servers@.len() && j != i
                    ==> final(self).hostable_servers@[j] == old(self).hostable_servers@[j],
            old(self).hostable_servers@[i as int].same_variant(
                &final(self).hostable_servers@[i as int],
            ),
            final(self).hostable_servers@[i as int].spec_path() == old(self).hostable_servers@[i as int].spec_path(),
            old(self).hostable_servers@[i as int].wf() ==> final(self).hostable_servers@[i as int].wf(),
            final(self).hostable_servers@[i as int].spec_players() == old(self).hostable_servers@[i as int].spec_players(),
            m.variant == Variant::Okay && m.content is Empty,
            final(self).hostable_servers@[i as int].spec_state() == (if text::contains_seq(
                sessions@,
                spec_session_marker(old(self).hostable_servers@[i as int].spec_path()),
            ) {
                State::On
            } else {
                State::Off
            }),
    {
        let ghost old_servers = self.hostable_servers@;
        let mut server = self.hostable_servers.remove(i);
        let r = server.stop_with_sessions(sessions);
        self.hostable_servers.insert(i, server);
        proof {
            assert(forall|j: int|
                0 <= j < old_servers.len() && j != i ==> final(self).hostable_servers@[j]
                    == old_servers[j]);
        }
        Message::default()
    }

    /// First half of a status poll: the state is re-derived from the
    /// session listing.  A server whose session is absent is off with an
    /// empty player report; an active Minecraft session asks for the
    /// status probe before the response can be built.
    pub fn status_sessions_reply(&mut self, i: usize, sessions: &str) -> (r: StatusStep)
        requires
            i < old(self).hostable_servers@.len(),
        ensures
            final(self).favicon == old(self).favicon,
            final(self).hostable_servers@.len() == old(self).hostable_servers@.len(),
            forall|j: int|
                0 <= j < old(self).hostable_servers@.len() && j != i
                    ==> final(self).hostable_servers@[j] == old(self).hostable_servers@[j],
            old(self).hostable_servers@[i as int].same_variant(
                &final(self).hostable_servers@[i as int],
            ),
            final(self).hostable_servers@[i as int].spec_path() == old(self).hostable_servers@[i as int].spec_path(),
            old(self).hostable_servers@[i as int].wf() ==> final(self).hostable_servers@[i as int].wf(),
            ({
                let was = old(self).hostable_servers@[i as int];
                let now = final(self).hostable_servers@[i as int];
                let active = text::contains_seq(sessions@, spec_session_marker(was.spec_path()));
                match r {
                    StatusStep::NeedProbe(c) => {
                        &&& was is Minecraft && active
                        &&& now == was
                        &&& c@ == spec_script_command("minecraft"@, "status.sh"@)
                    },
                    StatusStep::Reply(m) => {
                        &&& !(was is Minecraft && active)
                        &&& m.variant == Variant::Okay
                        &&& m.content matches Content::Struct(t) && t@ == now.spec_json()
                        &&& (!active ==> now.spec_state() == State::Off && (was.wf()
                            ==> now.spec_players().is_empty()))
                        &&& ((active && !(was is Minecraft)) ==> now.spec_state() == State::On
                            && now.spec_players() == was.spec_players())
                    },
                }
            }),
    {
        let ghost old_servers = self.hostable_servers@;
        let mut server = self.hostable_servers.remove(i);
        let need_probe = server.status_with_sessions(sessions);
        let r = if need_probe {
            StatusStep::NeedProbe(server.status_probe_command())
        } else {
            let json = server.to_json();
            StatusStep::Reply(Message::new(Variant::Okay, Content::Struct(json)))
        };
        self.hostable_servers.insert(i, server);
        proof {
            assert(forall|j: int|
                0 <= j < old_servers.len() && j != i ==> final(self).hostable_servers@[j]
                    == old_servers[j]);
        }
        r
    }

    /// Applies the outcome of the Minecraft status probe: when the probe
    /// could not run, the poll fails with an internal server error and
    /// the state is untouched; otherwise the log must be read next.
    pub fn status_probe_reply(&self, i: usize, outcome: CmdOutcome) -> (r: ProbeStep)
        requires
            i < self.hostable_servers@.len(),
            self.hostable_servers@[i as int] is Minecraft,
        ensures
            match outcome {
                CmdOutcome::Ran => r matches ProbeStep::ReadLog(p) && p@
                    == "Minecraft/screenlog.0"@,
                CmdOutcome::SpawnFailed(msg) => r matches ProbeStep::Reply(m)
                    && spec_text_message(
                    m,
                    Variant::InternalServerError,
                    spec_failure_text(msg@),
                ),
            },
    {
        match hostable_servers::parse_command_outcome(outcome) {
            Ok(()) => ProbeStep::ReadLog(self.hostable_servers[i].status_log_path().to_owned()),
            Err(e) => {
                let text = e.to_text();
                ProbeStep::Reply(Message::internal_server_error(text))
            },
        }
    }

    /// Second half of a Minecraft status poll: the player count is
    /// parsed out of the log text and the structured state is returned.
    pub fn status_log_reply(&mut self, i: usize, log_text: &str) -> (m: Message)
        requires
            i < old(self).hostable_servers@.len(),
            old(self).hostable_servers@[i as int] is Minecraft,
        ensures
            final(self).favicon == old(self).favicon,
            final(self).hostable_servers@.len() == old(self).hostable_servers@.len(),
            forall|j: int|
                0 <= j < old(self).hostable_servers@.len() && j != i
                    ==> final(self).hostable_servers@[j] == old(self).hostable_servers@[j],
            old(self).hostable_servers@[i as int].same_variant(
                &final(self).hostable_servers@[i as int],
            ),
            old(self).hostable_servers@[i as int].wf() ==> final(self).hostable_servers@[i as int].wf(),
            m.variant == Variant::Okay,
            m.content matches Content::Struct(t) && t@ == final(self).hostable_servers@[i as int].spec_json(),
            ({
                let was = old(self).hostable_servers@[i as int];
                let now = final(self).hostable_servers@[i as int];
                let line = hostable_servers::minecraft::spec_log_line(log_text@);
                match text::spec_find(line, hostable_servers::minecraft::spec_player_marker(), 0) {
                    Option::None => {
                        &&& now.spec_state() == State::Unknown
                        &&& now.spec_players().count == was.spec_players().count
                    },
                    Option::Some(k) => {
                        &&& now.spec_state() == State::On
                        &&& ({
                            let slice = text::spec_trim(
                                hostable_servers::minecraft::spec_count_slice(line, k),
                            );
                            if slice.len() >= 1 && text::all_digits(slice) {
                                now.spec_players().count == text::digits_value(slice)
                            } else {
                                now.spec_players().count == was.spec_players().count
                            }
                        })
                    },
                }
            }),
    {
        let ghost old_servers = self.hostable_servers@;
        let mut server = self.hostable_servers.remove(i);
        server.status_with_log(log_text);
        let json = server.to_json();
        self.hostable_servers.insert(i, server);
        proof {
            assert(forall|j: int|
                0 <= j < old_servers.len() && j != i ==> final(self).hostable_servers@[j]
                    == old_servers[j]);
        }
        Message::new(Variant::Okay, Content::Struct(json))
    }
}

/// The `n`-th segment of the link between slashes, or the given default
/// when the link has too few segments.
pub open spec fn spec_segment_or(link: Seq<char>, n: int, alt: Seq<char>) -> Seq<char> {
    if spec_split(link, '/').len() > n {
        spec_split(link, '/')[n]
    } else {
        alt
    }
}

/// How a GET request is routed, given the link: the fixed routes first,
/// then the file route, then the registry.
pub open spec fn spec_get_dispatch(ws: WebServer, link: Seq<char>, d: Dispatch) -> bool {
    if link == "/"@ {
        d matches Dispatch::Reply(m) && m.variant == Variant::Okay && (m.content
            matches Content::File(f) && f@ == "hello.html"@)
    } else if link == "/favicon.ico"@ {
        d matches Dispatch::Reply(m) && m.variant == Variant::Okay && (m.content
            matches Content::RawBytes(b) && b@ == ws.favicon@)
    } else if link == "/available-servers"@ {
        d matches Dispatch::Reply(m) && m.variant == Variant::Okay && (m.content
            matches Content::Struct(t) && t@ == json_string_array(ws.spec_paths()))
    } else {
        let first = spec_segment_or(link, 1, "Unavailable"@);
        if first == "file"@ {
            if spec_split(link, '/').len() > 2 {
                d matches Dispatch::ReadFile(p) && p@ == spec_split(link, '/')[2]
            } else {
                spec_text_reply(d, Variant::NotFound, "File Not Found: "@ + link)
            }
        } else {
            match spec_find_path(ws.spec_paths(), first) {
                Option::Some(i) => {
                    let second = spec_segment_or(link, 2, "Unavailable"@);
                    if second == "get_status"@ {
                        d matches Dispatch::GetStatus(j) && j as int == i
                    } else if second == "update.js"@ {
                        d matches Dispatch::Reply(m) && m.variant == Variant::Okay && (m.content
                            matches Content::File(f) && f@ == first + "/update.js"@)
                    } else {
                        spec_text_reply(d, Variant::NotFound, "Unkown GET link: "@ + link)
                    }
                },
                Option::None => spec_text_reply(d, Variant::NotFound, "Unkown GET link: "@ + link),
            }
        }
    }
}

/// How a POST request is routed, given the link: the fixed routes first,
/// then the registry.
pub open spec fn spec_post_dispatch(ws: WebServer, link: Seq<char>, d: Dispatch) -> bool {
    if link == "/Shutdown"@ {
        d is Shutdown
    } else if link == "/Ping"@ {
        spec_text_reply(d, Variant::Okay, "Ping succesfull"@)
    } else {
        let first = spec_segment_or(link, 1, "Unavailabe"@);
        match spec_find_path(ws.spec_paths(), first) {
            Option::Some(i) => {
                let second = spec_segment_or(link, 2, "Unavaiable"@);
                if second == "start"@ {
                    d matches Dispatch::Start(j, c) && j as int == i && c@ == spec_script_command(
                        ws.spec_paths()[i],
                        "start.sh"@,
                    )
                } else if second == "stop"@ {
                    d matches Dispatch::Stop(j, c) && j as int == i && c@ == spec_script_command(
                        ws.spec_paths()[i],
                        "stop.sh"@,
                    )
                } else {
                    spec_text_reply(d, Variant::NotFound, "Unkown POST link: "@ + link)
                }
            },
            Option::None => spec_text_reply(d, Variant::NotFound, "Unkown POST link: "@ + link),
        }
    }
}

/// How a request is routed: by its method token, then by its link.
pub open spec fn spec_request_dispatch(
    ws: WebServer,
    method: Seq<char>,
    link: Seq<char>,
    d: Dispatch,
) -> bool {
    if method == "GET"@ {
        spec_get_dispatch(ws, link, d)
    } else if method == "POST"@ {
        spec_post_dispatch(ws, link, d)
    } else {
        spec_text_reply(d, Variant::NotFound, "Unkown method: "@ + method)
    }
}

impl WebServer {
    /// Routes a GET request.
    pub fn parse_get(&self, link: &str) -> (d: Dispatch)
        ensures
            spec_get_dispatch(*self, link@, d),
    {
        if str_eq(link, "/") {
            Dispatch::Reply(
                Message::new(Variant::Okay, Content::File(String::from_str("hello.html"))),
            )
        } else if str_eq(link, "/favicon.ico") {
            Dispatch::Reply(Message::new(Variant::Okay, Content::RawBytes(self.favicon.clone())))
        } else if str_eq(link, "/available-servers") {
            Dispatch::Reply(self.available_servers_message())
        } else {
            let segs = split_str(link, '/');
            let first: &str = if segs.len() >= 2 {
                segs[1].as_str()
            } else {
                "Unavailable"
            };
            if str_eq(first, "file") {
                if segs.len() >= 3 {
                    Dispatch::ReadFile(segs[2].clone())
                } else {
                    Dispatch::Reply(text_message(Variant::NotFound, "File Not Found: ", link))
                }
            } else {
                match self.find_server(first) {
                    Some(i) => {
                        let second: &str = if segs.len() >= 3 {
                            segs[2].as_str()
                        } else {
                            "Unavailable"
                        };
                        if str_eq(second, "get_status") {
                            Dispatch::GetStatus(i)
                        } else if str_eq(second, "update.js") {
                            let mut f = String::from_str(first);
                            f.append("/update.js");
                            Dispatch::Reply(Message::new(Variant::Okay, Content::File(f)))
                        } else {
                            Dispatch::Reply(
                                text_message(Variant::NotFound, "Unkown GET link: ", link),
                            )
                        }
                    },
                    None => Dispatch::Reply(
                        text_message(Variant::NotFound, "Unkown GET link: ", link),
                    ),
                }
            }
        }
    }

    /// Routes a POST request.
    pub fn parse_post(&self, link: &str) -> (d: Dispatch)
        ensures
            spec_post_dispatch(*self, link@, d),
    {
        if str_eq(link, "/Shutdown") {
            Dispatch::Shutdown
        } else if str_eq(link, "/Ping") {
            let ack = String::from_str("Ping succesfull");
            Dispatch::Reply(Message::new(Variant::Okay, Content::Text(ack)))
        } else {
            let segs = split_str(link, '/');
            let first: &str = if segs.len() >= 2 {
                segs[1].as_str()
            } else {
                "Unavailabe"
            };
            match self.find_server(first) {
                Some(i) => {
                    let second: &str = if segs.len() >= 3 {
                        segs[2].as_str()
                    } else {
                        "Unavaiable"
                    };
                    if str_eq(second, "start") {
                        let command = self.hostable_servers[i].start_command();
                        Dispatch::Start(i, command)
                    } else if str_eq(second, "stop") {
                        let command = self.hostable_servers[i].stop_command();
                        Dispatch::Stop(i, command)
                    } else {
                        Dispatch::Reply(text_message(Variant::NotFound, "Unkown POST link: ", link))
                    }
                },
                None => Dispatch::Reply(text_message(Variant::NotFound, "Unkown POST link: ", link)),
            }
        }
    }

    /// Routes a request by its method and link tokens.  Only GET and
    /// POST are understood; anything else is answered with a not-found
    /// message naming the method.
    pub fn parse_http_request(&self, method: &str, link: &str) -> (d: Dispatch)
        ensures
            spec_request_dispatch(*self, method@, link@, d),
    {
        if str_eq(method, "GET") {
            self.parse_get(link)
        } else if str_eq(method, "POST") {
            self.parse_post(link)
        } else {
            Dispatch::Reply(text_message(Variant::NotFound, "Unkown method: ", method))
        }
    }
}

/// The index of the first element of `paths` equal to `token`, if any.
pub open spec fn spec_find_path(paths: Seq<Seq<char>>, token: Seq<char>) -> Option<int>
    decreases paths.len(),
{
    if paths.len() == 0 {
        None
    } else if paths[0] == token {
        Some(0)
    } else {
        match spec_find_path(paths.skip(1), token) {
            Option::None => None,
            Option::Some(i) => Some(i + 1),
        }
    }
}

proof fn lemma_find_path_first(paths: Seq<Seq<char>>, token: Seq<char>, i: int)
    requires
        0 <= i < paths.len(),
        paths[i] == token,
        forall|j: int| 0 <= j < i ==> paths[j] != token,
    ensures
        spec_find_path(paths, token) == Some(i),
    decreases paths.len(),
{
    if i > 0 {
        lemma_find_path_first(paths.skip(1), token, i - 1);
    }
}

proof fn lemma_find_path_none(paths: Seq<Seq<char>>, token: Seq<char>)
    requires
        forall|j: int| 0 <= j < paths.len() ==> paths[j] != token,
    ensures
        spec_find_path(paths, token) is None,
    decreases paths.len(),
{
    if paths.len() > 0 {
        lemma_find_path_none(paths.skip(1), token);
    }
}

/// Resolving a registered path token finds it, and in a registry with
/// unique tokens it finds exactly the server that was registered under
/// it: every index whose path equals the token is that one index.
pub proof fn lemma_registry_unique_lookup(ws: WebServer, i: int)
    requires
        ws.paths_unique(),
        0 <= i < ws.spec_paths().len(),
    ensures
        spec_find_path(ws.spec_paths(), ws.spec_paths()[i]) == Some(i),
        forall|j: int|
            0 <= j < ws.spec_paths().len() ==> ((ws.spec_paths()[j] == ws.spec_paths()[i]) <==> j
                == i),
{
    lemma_find_path_first(ws.spec_paths(), ws.spec_paths()[i], i);
}

} // verus!
