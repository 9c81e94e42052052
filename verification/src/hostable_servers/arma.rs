//! The Arma server variant.  Unlike the other variants it records the
//! outcome of a successful start or stop immediately, instead of waiting
//! for the next status poll.

use vstd::prelude::*;
use vstd::string::*;
use super::{
    parse_command_outcome, spec_script_command, spec_session_marker, spec_state_name,
    state_name, session_active, script_command, CmdOutcome, CommandFailure, GeneralBashServer,
    Players, State,
};
use crate::json::{json_of_string, json_players, json_string};
use crate::text::contains_seq;

verus! {

/// The registry key and script directory of the Arma server.
pub open spec fn spec_arma_path() -> Seq<char> {
    "arma"@
}

/// An Arma server with its state and player report.
pub struct Server {
    /// Last observed liveness
    pub state: State,
    /// Player report; this variant never fills it
    pub players: Players,
}

impl Server {
    /// A freshly constructed server: off, with no players.
    pub open spec fn is_fresh(&self) -> bool {
        self.state == State::Off && self.players.is_empty()
    }

    /// A bash-script server for the Arma path, for deployments that
    /// prefer the general variant over this one.
    pub fn idk() -> (s: GeneralBashServer)
        ensures
            s.path@ == spec_arma_path(),
            s.is_fresh(),
    {
        GeneralBashServer::new("arma")
    }

    /// Returns a new turned-off Arma server.
    pub fn new() -> (s: Self)
        ensures
            s.is_fresh(),
    {
        Server { state: State::new(), players: Players::new() }
    }

    /// The registry key of this server.
    pub fn get_path(&self) -> (r: &'static str)
        ensures
            r@ == spec_arma_path(),
    {
        "arma"
    }

    /// The command line that starts this server.
    pub fn start_command(&self) -> (r: String)
        ensures
            r@ == spec_script_command(spec_arma_path(), "start.sh"@),
    {
        script_command("arma", "start.sh")
    }

    /// The command line that stops this server.
    pub fn stop_command(&self) -> (r: String)
        ensures
            r@ == spec_script_command(spec_arma_path(), "stop.sh"@),
    {
        script_command("arma", "stop.sh")
    }

    /// Applies the outcome of the start command: on success the server
    /// is recorded as on; on failure nothing changes and the failure is
    /// propagated.
    pub fn finish_start(&mut self, outcome: CmdOutcome) -> (r: Result<(), CommandFailure>)
        ensures
            final(self).players == old(self).players,
            match outcome {
                CmdOutcome::Ran => r is Ok && final(self).state == State::On,
                CmdOutcome::SpawnFailed(m) => {
                    &&& r matches Err(f) && f.0 == m
                    &&& final(self).state == old(self).state
                },
            },
    {
        let state = parse_command_outcome(outcome);
        if state.is_ok() {
            self.state = State::On;
        }
        state
    }

    /// Applies the outcome of the stop command: on success the server is
    /// recorded as off; on failure nothing changes and the failure is
    /// propagated.
    pub fn finish_stop(&mut self, outcome: CmdOutcome) -> (r: Result<(), CommandFailure>)
        ensures
            final(self).players == old(self).players,
            match outcome {
                CmdOutcome::Ran => r is Ok && final(self).state == State::Off,
                CmdOutcome::SpawnFailed(m) => {
                    &&& r matches Err(f) && f.0 == m
                    &&& final(self).state == old(self).state
                },
            },
    {
        let state = parse_command_outcome(outcome);
        if state.is_ok() {
            self.state = State::Off;
        }
        state
    }

    /// Re-derives the state from the session listing: on when the
    /// listing names this server's session, off otherwise.  Observation
    /// itself cannot fail.
    pub fn update_status(&mut self, sessions: &str) -> (r: Result<(), CommandFailure>)
        ensures
            r is Ok,
            final(self).players == old(self).players,
            final(self).state == (if contains_seq(sessions@, spec_session_marker(spec_arma_path())) {
                State::On
            } else {
                State::Off
            }),
    {
        if session_active(sessions, "arma") {
            self.state = State::On;
        } else {
            self.state = State::Off;
        }
        Ok(())
    }

    /// The flat JSON payload of the observable state.
    pub fn to_json(&self) -> (r: String)
        ensures
            r@ == spec_arma_json(*self),
    {
        let mut r = String::from_str("{\"state\":");
        let state_text = json_string(state_name(self.state));
        r.append(state_text.as_str());
        r.append(",\"players\":");
        let players_text = self.players.to_json();
        r.append(players_text.as_str());
        r.append("}");
        proof {
            assert(r@ =~= spec_arma_json(*self));
        }
        r
    }
}

/// The JSON payload serialized for an Arma server.
pub open spec fn spec_arma_json(s: Server) -> Seq<char> {
    "{\"state\":"@ + json_of_string(spec_state_name(s.state)) + ",\"players\":"@ + json_players(
        s.players.count as nat,
        s.players.name_tags.deep_view(),
    ) + "}"@
}

} // verus!
