//! The Minecraft server variant: controlled by the usual start and stop
//! scripts, with a player count parsed out of the server's log file.

use vstd::prelude::*;
use vstd::string::*;
use super::{
    parse_command_outcome, spec_script_command, spec_session_marker, spec_state_name,
    state_name, session_active, script_command, CmdOutcome, CommandFailure, Players, State,
};
use crate::json::{json_of_string, json_players, json_string};
use crate::text::{
    all_digits, contains_seq, digits_value, find_str, last_line, lemma_find_some,
    lemma_trim_len, parse_small_usize, spec_find, spec_last_line, spec_trim, trim_str,
};

verus! {

/// The registry key and script directory of the Minecraft server.
pub open spec fn spec_minecraft_path() -> Seq<char> {
    "minecraft"@
}

/// The marker text that precedes the maximum player count in the status
/// line the server writes to its log.
pub open spec fn spec_player_marker() -> Seq<char> {
    " of a max of "@
}

/// The log line that the player count is parsed from: the last line of
/// the log text, or a fixed placeholder when the log could not be read.
pub open spec fn spec_log_line(text: Seq<char>) -> Seq<char> {
    if text.len() == 0 {
        "Couldn't parse the log"@
    } else {
        spec_last_line(text)
    }
}

/// The characters just before the player marker, at most two of them.
pub open spec fn spec_count_slice(line: Seq<char>, i: int) -> Seq<char>
    recommends
        0 <= i <= line.len(),
{
    line.subrange(if i >= 2 { i - 2 } else { 0 }, i)
}

/// A Minecraft server with its state and player report.
pub struct Server {
    /// Last observed liveness
    pub state: State,
    /// Number of players and their name tags
    pub players: Players,
}

impl Server {
    /// A freshly constructed server: off, with no players.
    pub open spec fn is_fresh(&self) -> bool {
        self.state == State::Off && self.players.is_empty()
    }

    /// Creates a new turned-off Minecraft server.
    pub fn new() -> (s: Self)
        ensures
            s.is_fresh(),
    {
        Server { state: State::new(), players: Players::new() }
    }

    /// Resets the server to its fresh observation: off, no players.
    pub fn set_default(&mut self)
        ensures
            final(self).is_fresh(),
    {
        self.state = State::Off;
        self.players = Players { count: 0, name_tags: Vec::new() };
    }

    /// The registry key of this server.
    pub fn get_path(&self) -> (r: &'static str)
        ensures
            r@ == spec_minecraft_path(),
    {
        "minecraft"
    }

    /// The command line that starts this server.
    pub fn start_command(&self) -> (r: String)
        ensures
            r@ == spec_script_command(spec_minecraft_path(), "start.sh"@),
    {
        script_command("minecraft", "start.sh")
    }

    /// The command line that stops this server.
    pub fn stop_command(&self) -> (r: String)
        ensures
            r@ == spec_script_command(spec_minecraft_path(), "stop.sh"@),
    {
        script_command("minecraft", "stop.sh")
    }

    /// The command line of the status probe run before reading the log.
    pub fn probe_command(&self) -> (r: String)
        ensures
            r@ == spec_script_command(spec_minecraft_path(), "status.sh"@),
    {
        script_command("minecraft", "status.sh")
    }

    /// The log file that the status line is read from.
    pub fn log_path(&self) -> (r: &'static str)
        ensures
            r@ == "Minecraft/screenlog.0"@,
    {
        "Minecraft/screenlog.0"
    }

    /// Applies the outcome of the start command: on success the state is
    /// no longer known until the next status poll; on failure nothing
    /// changes and the failure is propagated.
    pub fn finish_start(&mut self, outcome: CmdOutcome) -> (r: Result<(), CommandFailure>)
        ensures
            final(self).players == old(self).players,
            match outcome {
                CmdOutcome::Ran => r is Ok && final(self).state == State::Unknown,
                CmdOutcome::SpawnFailed(m) => {
                    &&& r matches Err(f) && f.0 == m
                    &&& final(self).state == old(self).state
                },
            },
    {
        let state = parse_command_outcome(outcome);
        if state.is_ok() {
            self.state = State::Unknown;
        }
        state
    }

    /// Applies the outcome of the stop command, in the same way as for
    /// the start command.
    pub fn finish_stop(&mut self, outcome: CmdOutcome) -> (r: Result<(), CommandFailure>)
        ensures
            final(self).players == old(self).players,
            match outcome {
                CmdOutcome::Ran => r is Ok && final(self).state == State::Unknown,
                CmdOutcome::SpawnFailed(m) => {
                    &&& r matches Err(f) && f.0 == m
                    &&& final(self).state == old(self).state
                },
            },
    {
        let state = parse_command_outcome(outcome);
        if state.is_ok() {
            self.state = State::Unknown;
        }
        state
    }

    /// First half of a status poll.  When the session listing does not
    /// name this server's session, the server is off and the player
    /// report resets; otherwise nothing changes yet and the caller must
    /// run the status probe and feed the log to [`Self::update_with_log`].
    pub fn update_with_sessions(&mut self, sessions: &str) -> (need_probe: bool)
        ensures
            need_probe == contains_seq(sessions@, spec_session_marker(spec_minecraft_path())),
            need_probe ==> *final(self) == *old(self),
            !need_probe ==> final(self).is_fresh(),
    {
        if session_active(sessions, "minecraft") {
            true
        } else {
            self.set_default();
            false
        }
    }

    /// Second half of a status poll, after the probe ran: parses the
    /// player count out of the last log line.  When the marker text is
    /// missing the state falls back to unknown; when the characters
    /// before the marker are not a number the count is left unchanged.
    /// Neither anomaly is a failure.
    pub fn update_with_log(&mut self, log_text: &str)
        ensures
            final(self).players.name_tags == old(self).players.name_tags,
            ({
                let line = spec_log_line(log_text@);
                match spec_find(line, spec_player_marker(), 0) {
                    Option::None => {
                        &&& final(self).state == State::Unknown
                        &&& final(self).players.count == old(self).players.count
                    },
                    Option::Some(i) => {
                        &&& final(self).state == State::On
                        &&& ({
                            let slice = spec_trim(spec_count_slice(line, i));
                            if slice.len() >= 1 && all_digits(slice) {
                                final(self).players.count == digits_value(slice)
                            } else {
                                final(self).players.count == old(self).players.count
                            }
                        })
                    },
                }
            }),
    {
        let line: &str = if log_text.unicode_len() == 0 {
            "Couldn't parse the log"
        } else {
            last_line(log_text)
        };
        match find_str(line, " of a max of ") {
            Option::None => {
                self.state = State::Unknown;
            },
            Option::Some(i) => {
                proof {
                    lemma_find_some(line@, spec_player_marker(), 0, i as int);
                }
                let lo = if i >= 2 {
                    i - 2
                } else {
                    0
                };
                let slice = line.substring_char(lo, i);
                let trimmed = trim_str(slice);
                proof {
                    lemma_trim_len(slice@);
                }
                match parse_small_usize(trimmed) {
                    Option::Some(v) => {
                        self.players.count = v;
                    },
                    Option::None => {},
                }
                self.state = State::On;
            },
        }
    }

    /// The flat JSON payload of the observable state.
    pub fn to_json(&self) -> (r: String)
        ensures
            r@ == spec_minecraft_json(*self),
    {
        let mut r = String::from_str("{\"state\":");
        let state_text = json_string(state_name(self.state));
        r.append(state_text.as_str());
        r.append(",\"players\":");
        let players_text = self.players.to_json();
        r.append(players_text.as_str());
        r.append("}");
        proof {
            assert(r@ =~= spec_minecraft_json(*self));
        }
        r
    }
}

impl Default for Server {
    /// Same as [`Server::new`].
    fn default() -> (s: Self)
        ensures
            s.is_fresh(),
    {
        Server::new()
    }
}

/// The JSON payload serialized for a Minecraft server.
pub open spec fn spec_minecraft_json(s: Server) -> Seq<char> {
    "{\"state\":"@ + json_of_string(spec_state_name(s.state)) + ",\"players\":"@ + json_players(
        s.players.count as nat,
        s.players.name_tags.deep_view(),
    ) + "}"@
}

} // verus!
