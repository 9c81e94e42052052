//! Controllable background servers and their status state machine.
//!
//! A server is driven by external shell commands and observed through a
//! terminal-multiplexer session listing.  The host program runs those
//! commands and hands their outcomes to the decision functions here,
//! which update the server's state and produce the results.

pub mod arma;
pub mod minecraft;

use vstd::prelude::*;
use vstd::string::*;
use crate::json::{json_of_string, json_players, json_string, json_string_array_exec};
use crate::text::{contains_seq, contains_str, usize_to_string};

verus! {

/// Last observed liveness of a server.
#[derive(Clone, Copy, PartialEq, Eq, Structural, Debug)]
pub enum State {
    /// Turned on
    On,
    /// Turned off
    Off,
    /// Not yet observed, or could not be inferred
    Unknown,
}

impl State {
    /// A freshly constructed server starts out off.
    pub fn new() -> (s: Self)
        ensures
            s == State::Off,
    {
        State::Off
    }
}

/// The name under which a state appears in serialized payloads.
pub open spec fn spec_state_name(s: State) -> Seq<char> {
    match s {
        State::On => "On"@,
        State::Off => "Off"@,
        State::Unknown => "Unknown"@,
    }
}

/// The serialized name of a state.
pub fn state_name(s: State) -> (r: &'static str)
    ensures
        r@ == spec_state_name(s),
{
    match s {
        State::On => "On",
        State::Off => "Off",
        State::Unknown => "Unknown",
    }
}

/// Number of players logged into a server and their name tags.
pub struct Players {
    /// Number of players
    pub count: usize,
    /// The players' name tags
    pub name_tags: Vec<String>,
}

impl Players {
    /// No players at all: the state of a fresh or stopped server.
    pub open spec fn is_empty(&self) -> bool {
        self.count == 0 && self.name_tags@.len() == 0
    }

    /// Returns an empty player report.
    pub fn new() -> (p: Self)
        ensures
            p.is_empty(),
    {
        Players { count: 0, name_tags: Vec::new() }
    }

    /// The JSON object for this report.
    pub fn to_json(&self) -> (r: String)
        ensures
            r@ == json_players(self.count as nat, self.name_tags.deep_view()),
    {
        let mut r = String::from_str("{\"count\":");
        let count_text = usize_to_string(self.count);
        r.append(count_text.as_str());
        r.append(",\"name_tags\":");
        let tags = json_string_array_exec(&self.name_tags);
        r.append(tags.as_str());
        r.append("}");
        proof {
            assert(r@ =~= json_players(self.count as nat, self.name_tags.deep_view()));
        }
        r
    }
}

/// Failure of an external server command: the command could not be run.
/// Carries the raw OS error text for diagnostics.
pub struct CommandFailure(pub String);

/// The user-facing text of a command failure.
pub open spec fn spec_failure_text(msg: Seq<char>) -> Seq<char> {
    "An Error With Requested Command Occurred: "@ + msg
}

impl CommandFailure {
    /// Renders the fixed user-facing message around the OS error text.
    pub fn to_text(&self) -> (r: String)
        ensures
            r@ == spec_failure_text(self.0@),
    {
        let mut r = String::from_str("An Error With Requested Command Occurred: ");
        r.append(self.0.as_str());
        r
    }
}

/// What happened when the host tried to run an external command line.
pub enum CmdOutcome {
    /// The command was spawned and ran to completion.
    Ran,
    /// The command could not be run; the OS error text.
    SpawnFailed(String),
}

/// Turns a raw command outcome into the library's error type.
pub fn parse_command_outcome(outcome: CmdOutcome) -> (r: Result<(), CommandFailure>)
    ensures
        match outcome {
            CmdOutcome::Ran => r is Ok,
            CmdOutcome::SpawnFailed(m) => r matches Err(f) && f.0 == m,
        },
{
    match outcome {
        CmdOutcome::Ran => Ok(()),
        CmdOutcome::SpawnFailed(m) => Err(CommandFailure(m)),
    }
}

/// The session name marker that an active server leaves in the
/// multiplexer's session listing.
pub open spec fn spec_session_marker(path: Seq<char>) -> Seq<char> {
    "."@ + path + "_server\t"@
}

/// Builds the session name marker for a server path.
pub fn session_marker(path: &str) -> (r: String)
    ensures
        r@ == spec_session_marker(path@),
{
    let mut r = String::from_str(".");
    r.append(path);
    r.append("_server\t");
    r
}

/// Whether the session listing shows an active session for this path.
pub fn session_active(sessions: &str, path: &str) -> (r: bool)
    ensures
        r == contains_seq(sessions@, spec_session_marker(path@)),
{
    let marker = session_marker(path);
    contains_str(sessions, marker.as_str())
}

/// The shell command line that runs one of a server's control scripts.
pub open spec fn spec_script_command(path: Seq<char>, script: Seq<char>) -> Seq<char> {
    "sh ./"@ + path + "/"@ + script
}

/// Builds the command line for one of a server's control scripts.
pub fn script_command(path: &str, script: &str) -> (r: String)
    ensures
        r@ == spec_script_command(path@, script@),
{
    let mut r = String::from_str("sh ./");
    r.append(path);
    r.append("/");
    r.append(script);
    r
}

/// A server controlled by `start.sh` and `stop.sh` scripts located in
/// its path, which keep it alive inside a multiplexer session named
/// after that path.
pub struct GeneralBashServer {
    /// Path to the home directory of the server; its registry key
    pub path: &'static str,
    /// Last observed liveness
    pub state: State,
    /// Player report; this variant never fills it
    pub players: Players,
}

impl GeneralBashServer {
    /// A freshly constructed server: off, with no players.
    pub open spec fn is_fresh(&self) -> bool {
        self.state == State::Off && self.players.is_empty()
    }

    /// Returns a new server stored at `path`.
    pub fn new(path: &'static str) -> (s: Self)
        ensures
            s.path == path,
            s.is_fresh(),
    {
        GeneralBashServer { path, state: State::new(), players: Players::new() }
    }

    /// The registry key of this server.
    pub fn get_path(&self) -> (r: &'static str)
        ensures
            r == self.path,
    {
        self.path
    }

    /// The command line that starts this server.
    pub fn start_command(&self) -> (r: String)
        ensures
            r@ == spec_script_command(self.path@, "start.sh"@),
    {
        script_command(self.path, "start.sh")
    }

    /// The command line that stops this server.
    pub fn stop_command(&self) -> (r: String)
        ensures
            r@ == spec_script_command(self.path@, "stop.sh"@),
    {
        script_command(self.path, "stop.sh")
    }

    /// Applies the outcome of the start command: on success the state is
    /// no longer known until the next status poll; on failure nothing
    /// changes and the failure is propagated.
    pub fn finish_start(&mut self, outcome: CmdOutcome) -> (r: Result<(), CommandFailure>)
        ensures
            final(self).path == old(self).path,
            final(self).players == old(self).players,
            match outcome {
                CmdOutcome::Ran => r is Ok && final(self).state == State::Unknown,
                CmdOutcome::SpawnFailed(m) => {
                    &&& r matches Err(f) && f.0 == m
                    &&& final(self).state == old(self).state
                },
            },
    {
        let state = parse_command_outcome(outcome);
        if state.is_ok() {
            self.state = State::Unknown;
        }
        state
    }

    /// Applies the outcome of the stop command.  On failure nothing
    /// changes and the failure is propagated; on success the caller must
    /// poll the session listing and call [`Self::update_status`].
    pub fn finish_stop(&mut self, outcome: CmdOutcome) -> (r: Result<(), CommandFailure>)
        ensures
            *final(self) == *old(self),
            match outcome {
                CmdOutcome::Ran => r is Ok,
                CmdOutcome::SpawnFailed(m) => r matches Err(f) && f.0 == m,
            },
    {
        parse_command_outcome(outcome)
    }

    /// Re-derives the state from the session listing: on when the
    /// listing names this server's session, off otherwise.  Observation
    /// itself cannot fail.
    pub fn update_status(&mut self, sessions: &str) -> (r: Result<(), CommandFailure>)
        ensures
            r is Ok,
            final(self).path == old(self).path,
            final(self).players == old(self).players,
            final(self).state == (if contains_seq(sessions@, spec_session_marker(
                old(self).path@)) {
                State::On
            } else {
                State::Off
            }),
    {
        if session_active(sessions, self.path) {
            self.state = State::On;
        } else {
            self.state = State::Off;
        }
        Ok(())
    }

    /// The flat JSON payload of the observable state.
    pub fn to_json(&self) -> (r: String)
        ensures
            r@ == spec_bash_server_json(*self),
    {
        let mut r = String::from_str("{\"path\":");
        let path_text = json_string(self.path);
        r.append(path_text.as_str());
        r.append(",\"state\":");
        let state_text = json_string(state_name(self.state));
        r.append(state_text.as_str());
        r.append(",\"players\":");
        let players_text = self.players.to_json();
        r.append(players_text.as_str());
        r.append("}");
        proof {
            assert(r@ =~= spec_bash_server_json(*self));
        }
        r
    }
}

/// A controllable server: one of the closed set of variants, each with
/// the same capability set {start, stop, restart, status poll,
/// serialize, path}.
pub enum HostableServer {
    /// A server controlled by general start and stop scripts
    GeneralBash(GeneralBashServer),
    /// The Minecraft server, with player-count parsing
    Minecraft(minecraft::Server),
    /// The Arma server
    Arma(arma::Server),
}

/// What remains to complete a stop operation after the stop command ran.
pub enum StopStep {
    /// The stop operation is complete, with this result.
    Done(Result<(), CommandFailure>),
    /// The command succeeded; the state must now be re-derived from the
    /// session listing, through [`HostableServer::stop_with_sessions`].
    NeedSessions,
}

/// What follows the stop phase of a restart.
pub enum RestartStep {
    /// The stop succeeded: run the start phase.
    Go,
    /// The stop failed: the restart fails with the stop error.
    Abort(CommandFailure),
}

/// The composition rule of a restart: stop first, and only when the stop
/// succeeded may the start phase run.  A failed stop aborts the restart
/// and its error is propagated unchanged; the start command is then
/// never run.
pub fn restart_step(stop_result: Result<(), CommandFailure>) -> (r: RestartStep)
    ensures
        match stop_result {
            Ok(u) => r is Go,
            Err(e) => r matches RestartStep::Abort(f) && f == e,
        },
{
    match stop_result {
        Ok(()) => RestartStep::Go,
        Err(e) => RestartStep::Abort(e),
    }
}

impl HostableServer {
    /// The registry key of the server.
    pub open spec fn spec_path(&self) -> Seq<char> {
        match self {
            HostableServer::GeneralBash(s) => s.path@,
            HostableServer::Minecraft(_) => minecraft::spec_minecraft_path(),
            HostableServer::Arma(_) => arma::spec_arma_path(),
        }
    }

    /// The last observed liveness of the server.
    pub open spec fn spec_state(&self) -> State {
        match self {
            HostableServer::GeneralBash(s) => s.state,
            HostableServer::Minecraft(s) => s.state,
            HostableServer::Arma(s) => s.state,
        }
    }

    /// The server's player report.
    pub open spec fn spec_players(&self) -> Players {
        match self {
            HostableServer::GeneralBash(s) => s.players,
            HostableServer::Minecraft(s) => s.players,
            HostableServer::Arma(s) => s.players,
        }
    }

    /// The state a successful start command leaves behind: the Arma
    /// variant records it at once, the others defer to the next poll.
    pub open spec fn start_target(&self) -> State {
        match self {
            HostableServer::Arma(_) => State::On,
            _ => State::Unknown,
        }
    }

    /// Well-formedness: variants that never fill their player report
    /// hold an empty one.
    pub open spec fn wf(&self) -> bool {
        match self {
            HostableServer::GeneralBash(s) => s.players.is_empty(),
            HostableServer::Minecraft(_) => true,
            HostableServer::Arma(s) => s.players.is_empty(),
        }
    }

    /// Both servers are the same variant.
    pub open spec fn same_variant(&self, other: &HostableServer) -> bool {
        &&& (self is GeneralBash <==> other is GeneralBash)
        &&& (self is Minecraft <==> other is Minecraft)
        &&& (self is Arma <==> other is Arma)
    }

    /// The JSON payload serialized for the server.
    pub open spec fn spec_json(&self) -> Seq<char> {
        match self {
            HostableServer::GeneralBash(s) => spec_bash_server_json(*s),
            HostableServer::Minecraft(s) => minecraft::spec_minecraft_json(*s),
            HostableServer::Arma(s) => arma::spec_arma_json(*s),
        }
    }

    /// The registry key of this server.
    pub fn get_path(&self) -> (r: &'static str)
        ensures
            r@ == self.spec_path(),
    {
        match self {
            HostableServer::GeneralBash(s) => s.get_path(),
            HostableServer::Minecraft(s) => s.get_path(),
            HostableServer::Arma(s) => s.get_path(),
        }
    }

    /// The command line that starts this server.
    pub fn start_command(&self) -> (r: String)
        ensures
            r@ == spec_script_command(self.spec_path(), "start.sh"@),
    {
        match self {
            HostableServer::GeneralBash(s) => s.start_command(),
            HostableServer::Minecraft(s) => s.start_command(),
            HostableServer::Arma(s) => s.start_command(),
        }
    }

    /// The command line that stops this server.
    pub fn stop_command(&self) -> (r: String)
        ensures
            r@ == spec_script_command(self.spec_path(), "stop.sh"@),
    {
        match self {
            HostableServer::GeneralBash(s) => s.stop_command(),
            HostableServer::Minecraft(s) => s.stop_command(),
            HostableServer::Arma(s) => s.stop_command(),
        }
    }

    /// Applies the outcome of the start command.  On failure nothing
    /// changes and the failure is propagated; on success the state moves
    /// to the variant's start target.
    pub fn finish_start(&mut self, outcome: CmdOutcome) -> (r: Result<(), CommandFailure>)
        ensures
            old(self).same_variant(final(self)),
            final(self).spec_path() == old(self).spec_path(),
            final(self).spec_players() == old(self).spec_players(),
            old(self).wf() ==> final(self).wf(),
            match outcome {
                CmdOutcome::Ran => r is Ok && final(self).spec_state() == old(self).start_target(),
                CmdOutcome::SpawnFailed(m) => {
                    &&& r matches Err(f) && f.0 == m
                    &&& *final(self) == *old(self)
                },
            },
    {
        match self {
            HostableServer::GeneralBash(s) => s.finish_start(outcome),
            HostableServer::Minecraft(s) => s.finish_start(outcome),
            HostableServer::Arma(s) => s.finish_start(outcome),
        }
    }

    /// Applies the outcome of the stop command.  On failure nothing
    /// changes and the failure is propagated.  On success the Minecraft
    /// variant defers to the next poll, the Arma variant records the
    /// stop at once, and the bash-script variant asks for the session
    /// listing to re-derive its state.
    pub fn finish_stop(&mut self, outcome: CmdOutcome) -> (r: StopStep)
        ensures
            old(self).same_variant(final(self)),
            final(self).spec_path() == old(self).spec_path(),
            final(self).spec_players() == old(self).spec_players(),
            old(self).wf() ==> final(self).wf(),
            match outcome {
                CmdOutcome::Ran => match old(self) {
                    HostableServer::GeneralBash(_) => r is NeedSessions && *final(self) == *old(
                        self,
                    ),
                    HostableServer::Minecraft(_) => {
                        &&& r matches StopStep::Done(d) && d is Ok
                        &&& final(self).spec_state() == State::Unknown
                    },
                    HostableServer::Arma(_) => {
                        &&& r matches StopStep::Done(d) && d is Ok
                        &&& final(self).spec_state() == State::Off
                    },
                },
                CmdOutcome::SpawnFailed(m) => {
                    &&& r matches StopStep::Done(d) && d matches Err(f) && f.0 == m
                    &&& *final(self) == *old(self)
                },
            },
    {
        match self {
            HostableServer::GeneralBash(s) => match s.finish_stop(outcome) {
                Ok(()) => StopStep::NeedSessions,
                Err(e) => StopStep::Done(Err(e)),
            },
            HostableServer::Minecraft(s) => StopStep::Done(s.finish_stop(outcome)),
            HostableServer::Arma(s) => StopStep::Done(s.finish_stop(outcome)),
        }
    }

    /// Completes a stop of a bash-script server once the session listing
    /// is available.
    pub fn stop_with_sessions(&mut self, sessions: &str) -> (r: Result<(), CommandFailure>)
        requires
            *old(self) is GeneralBash,
        ensures
            r is Ok,
            old(self).same_variant(final(self)),
            final(self).spec_path() == old(self).spec_path(),
            final(self).spec_players() == old(self).spec_players(),
            old(self).wf() ==> final(self).wf(),
            final(self).spec_state() == (if contains_seq(
                sessions@,
                spec_session_marker(old(self).spec_path()),
            ) {
                State::On
            } else {
                State::Off
            }),
    {
        match self {
            HostableServer::GeneralBash(s) => s.update_status(sessions),
            _ => Ok(()),
        }
    }

    /// First half of a status poll, from the session listing.  A server
    /// whose session is absent is off, with an empty player report; an
    /// active Minecraft session additionally needs the status probe to
    /// be run and the log handed to [`Self::status_with_log`].
    pub fn status_with_sessions(&mut self, sessions: &str) -> (need_probe: bool)
        ensures
            old(self).same_variant(final(self)),
            final(self).spec_path() == old(self).spec_path(),
            old(self).wf() ==> final(self).wf(),
            need_probe == (*old(self) is Minecraft && contains_seq(
                sessions@,
                spec_session_marker(old(self).spec_path()),
            )),
            need_probe ==> *final(self) == *old(self),
            !contains_seq(sessions@, spec_session_marker(old(self).spec_path())) ==> {
                &&& final(self).spec_state() == State::Off
                &&& (old(self).wf() ==> final(self).spec_players().is_empty())
            },
            (!(*old(self) is Minecraft) && contains_seq(
                sessions@,
                spec_session_marker(old(self).spec_path()),
            )) ==> {
                &&& final(self).spec_state() == State::On
                &&& final(self).spec_players() == old(self).spec_players()
            },
    {
        match self {
            HostableServer::GeneralBash(s) => {
                let _ = s.update_status(sessions);
                false
            },
            HostableServer::Minecraft(s) => s.update_with_sessions(sessions),
            HostableServer::Arma(s) => {
                let _ = s.update_status(sessions);
                false
            },
        }
    }

    /// The command line of the Minecraft status probe.
    pub fn status_probe_command(&self) -> (r: String)
        requires
            self is Minecraft,
        ensures
            r@ == spec_script_command(minecraft::spec_minecraft_path(), "status.sh"@),
    {
        match self {
            HostableServer::Minecraft(s) => s.probe_command(),
            _ => String::new(),
        }
    }

    /// The log file read after the Minecraft status probe.
    pub fn status_log_path(&self) -> (r: &'static str)
        requires
            self is Minecraft,
        ensures
            r@ == "Minecraft/screenlog.0"@,
    {
        match self {
            HostableServer::Minecraft(s) => s.log_path(),
            _ => "Minecraft/screenlog.0",
        }
    }

    /// Second half of a Minecraft status poll, after the probe ran.
    pub fn status_with_log(&mut self, log_text: &str)
        requires
            *old(self) is Minecraft,
        ensures
            old(self).same_variant(final(self)),
            final(self).spec_path() == old(self).spec_path(),
            old(self).wf() ==> final(self).wf(),
            final(self).spec_players().name_tags == old(self).spec_players().name_tags,
            ({
                let line = minecraft::spec_log_line(log_text@);
                match crate::text::spec_find(line, minecraft::spec_player_marker(), 0) {
                    Option::None => {
                        &&& final(self).spec_state() == State::Unknown
                        &&& final(self).spec_players().count == old(self).spec_players().count
                    },
                    Option::Some(i) => {
                        &&& final(self).spec_state() == State::On
                        &&& ({
                            let slice = crate::text::spec_trim(
                                minecraft::spec_count_slice(line, i),
                            );
                            if slice.len() >= 1 && crate::text::all_digits(slice) {
                                final(self).spec_players().count == crate::text::digits_value(
                                    slice,
                                )
                            } else {
                                final(self).spec_players().count == old(
                                    self,
                                ).spec_players().count
                            }
                        })
                    },
                }
            }),
    {
        match self {
            HostableServer::Minecraft(s) => s.update_with_log(log_text),
            _ => {},
        }
    }

    /// The flat JSON payload of the server's observable state.
    pub fn to_json(&self) -> (r: String)
        ensures
            r@ == self.spec_json(),
    {
        match self {
            HostableServer::GeneralBash(s) => s.to_json(),
            HostableServer::Minecraft(s) => s.to_json(),
            HostableServer::Arma(s) => s.to_json(),
        }
    }
}

/// The JSON payload serialized for a bash-script server.
pub open spec fn spec_bash_server_json(s: GeneralBashServer) -> Seq<char> {
    "{\"path\":"@ + json_of_string(s.path@) + ",\"state\":"@ + json_of_string(
        spec_state_name(s.state)) + ",\"players\":"@ + json_players(
        s.players.count as nat,
        s.players.name_tags.deep_view(),
    ) + "}"@
}

} // verus!
