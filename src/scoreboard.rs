use vstd::prelude::*;
use crate::commands::{Color, Command, DisplayCommand};
use crate::config::RugbyConfig;
use crate::error::ScoreboardError;
use crate::team::{lower_of, parse_team, team_of_lowered, team_result, Team};
use crate::text::{clock_chars, clock_text, decimal_chars, decimal_text};
use crate::windows;

verus! {

/// Points of a penalty try, whatever the configured values.
pub const PENALTY_TRY_POINTS: u16 = 7;

/// The clock stops counting at `MAX_MINUTES:MAX_SECONDS`.
pub const MAX_MINUTES: u8 = 99;

pub const MAX_SECONDS: u8 = 59;

/// `MAX_MINUTES:MAX_SECONDS` in seconds.
pub open spec fn clock_cap() -> int {
    MAX_MINUTES as int * 60 + MAX_SECONDS as int
}

/// `score + points`, held at the largest score.
pub open spec fn raised(score: u16, points: u16) -> u16 {
    if score + points > u16::MAX {
        u16::MAX
    } else {
        (score + points) as u16
    }
}

/// `score - points`, held at zero.
pub open spec fn lowered(score: u16, points: u16) -> u16 {
    if score >= points {
        (score - points) as u16
    } else {
        0
    }
}

/// The score after adding (or removing) `points`.
pub open spec fn changed(score: u16, add: bool, points: u16) -> u16 {
    if add {
        raised(score, points)
    } else {
        lowered(score, points)
    }
}

/// The clock one second later: seconds carry into minutes and the clock
/// holds at `99:59`.
pub open spec fn tick_clock(minutes: u8, seconds: u8) -> (u8, u8) {
    if seconds >= MAX_SECONDS {
        if minutes >= MAX_MINUTES {
            (MAX_MINUTES, MAX_SECONDS)
        } else {
            ((minutes + 1) as u8, 0)
        }
    } else {
        (minutes, (seconds + 1) as u8)
    }
}

/// Whether `c` sends `text` to the window `window_id` in `color`.
pub open spec fn is_text_command(c: Command, window_id: u8, text: Seq<char>, color: Color) -> bool {
    match c {
        Command::DisplayMessage(DisplayCommand::SendPureText { window_id: w, text: t, color: k }) => {
            w == window_id && t@ == text && k == color
        },
        _ => false,
    }
}

pub open spec fn white() -> Color {
    Color { red: 255, green: 255, blue: 255 }
}

pub open spec fn green() -> Color {
    Color { red: 0, green: 255, blue: 0 }
}

pub open spec fn red() -> Color {
    Color { red: 255, green: 0, blue: 0 }
}

fn text_command(window_id: u8, text: String, color: Color) -> (c: Command)
    ensures
        is_text_command(c, window_id, text@, color),
{
    Command::DisplayMessage(DisplayCommand::SendPureText { window_id, text, color })
}

/// The state of a match as the scoreboard shows it.
#[derive(Debug, Clone)]
pub struct ScoreboardState {
    pub home_team: String,
    pub away_team: String,
    pub home_score: u16,
    pub away_score: u16,
    pub timer_minutes: u8,
    pub timer_seconds: u8,
    pub timer_running: bool,
    pub connected: bool,
    pub simulation_mode: bool,
    /// 1 and 2 are the halves; 0 is before the match, half time or full time.
    pub current_period: u8,
    /// Seconds left in the current half.
    pub period_time_remaining: u16,
}

impl ScoreboardState {
    /// The clock shows at most `99:59` and the period is 0, 1 or 2.
    pub open spec fn wf(&self) -> bool {
        &&& self.timer_minutes <= MAX_MINUTES
        &&& self.timer_seconds <= MAX_SECONDS
        &&& self.current_period <= 2
    }

    /// The time on the clock, in seconds.
    pub open spec fn clock_seconds(&self) -> int {
        self.timer_minutes as int * 60 + self.timer_seconds as int
    }

    pub open spec fn score_of(&self, team: Team) -> u16 {
        match team {
            Team::Home => self.home_score,
            Team::Away => self.away_score,
        }
    }

    /// This state with `team`'s score replaced by `score`.
    pub open spec fn with_score(self, team: Team, score: u16) -> Self {
        match team {
            Team::Home => ScoreboardState { home_score: score, ..self },
            Team::Away => ScoreboardState { away_score: score, ..self },
        }
    }

    /// The outcome of a scoring action on the team that `token` names (already
    /// lowercased): the result, and the state after it.
    pub open spec fn scored(self, token: Seq<char>, add: bool, points: u16) -> (
        Result<(), ScoreboardError>,
        Self,
    ) {
        match team_result(token) {
            Ok(team) => (Ok(()), self.with_score(team, changed(self.score_of(team), add, points))),
            Err(e) => (Err(e), self),
        }
    }

    /// This state with the clock stopped.
    pub open spec fn stopped(self) -> Self {
        ScoreboardState { timer_running: false, ..self }
    }

    /// This state one simulated second later: nothing moves while the clock
    /// is stopped; otherwise the clock advances and an active period counts
    /// down to zero.
    pub open spec fn ticked(self) -> Self {
        if !self.timer_running {
            self
        } else {
            ScoreboardState {
                timer_minutes: tick_clock(self.timer_minutes, self.timer_seconds).0,
                timer_seconds: tick_clock(self.timer_minutes, self.timer_seconds).1,
                period_time_remaining: if self.current_period > 0 && self.period_time_remaining
                    > 0 {
                    (self.period_time_remaining - 1) as u16
                } else {
                    self.period_time_remaining
                },
                ..self
            }
        }
    }

    /// This state after `k` simulated seconds.
    pub open spec fn ticked_by(self, k: nat) -> Self
        decreases k,
    {
        if k == 0 {
            self
        } else {
            self.ticked_by((k - 1) as nat).ticked()
        }
    }

    /// The state before a match: teams `HOME` and `AWAY`, no score, the clock
    /// at `00:00` and stopped, no period.
    pub open spec fn is_initial(&self) -> bool {
        &&& self.home_team@ == "HOME"@
        &&& self.away_team@ == "AWAY"@
        &&& self.home_score == 0
        &&& self.away_score == 0
        &&& self.timer_minutes == 0
        &&& self.timer_seconds == 0
        &&& !self.timer_running
        &&& self.current_period == 0
        &&& self.period_time_remaining == 0
    }

    /// The state a controller starts from; a simulated scoreboard counts as
    /// connected from the start.
    pub fn new(simulation_mode: bool) -> (r: Self)
        ensures
            r.is_initial(),
            r.wf(),
            r.simulation_mode == simulation_mode,
            r.connected == simulation_mode,
    {
        ScoreboardState {
            home_team: String::from_str("HOME"),
            away_team: String::from_str("AWAY"),
            home_score: 0,
            away_score: 0,
            timer_minutes: 0,
            timer_seconds: 0,
            timer_running: false,
            connected: simulation_mode,
            simulation_mode,
            current_period: 0,
            period_time_remaining: 0,
        }
    }

    pub fn set_teams(&mut self, home_team: String, away_team: String)
        ensures
            *final(self) == (ScoreboardState { home_team, away_team, ..*old(self) }),
    {
        self.home_team = home_team;
        self.away_team = away_team;
    }

    pub fn set_scores(&mut self, home_score: u16, away_score: u16)
        ensures
            *final(self) == (ScoreboardState { home_score, away_score, ..*old(self) }),
    {
        self.home_score = home_score;
        self.away_score = away_score;
    }

    /// One more point for the home side, held at the largest score.
    pub fn increment_home_score(&mut self)
        ensures
            *final(self) == old(self).with_score(Team::Home, raised(old(self).home_score, 1)),
    {
        let s = if self.home_score < u16::MAX {
            self.home_score + 1
        } else {
            u16::MAX
        };
        self.home_score = s;
    }

    /// One more point for the away side, held at the largest score.
    pub fn increment_away_score(&mut self)
        ensures
            *final(self) == old(self).with_score(Team::Away, raised(old(self).away_score, 1)),
    {
        let s = if self.away_score < u16::MAX {
            self.away_score + 1
        } else {
            u16::MAX
        };
        self.away_score = s;
    }

    pub fn reset_scores(&mut self)
        ensures
            *final(self) == (ScoreboardState { home_score: 0, away_score: 0, ..*old(self) }),
    {
        self.set_scores(0, 0);
    }

    /// Sets the clock; values past `99:59` are held there.
    pub fn set_timer(&mut self, minutes: u8, seconds: u8)
        ensures
            *final(self) == (ScoreboardState {
                timer_minutes: if minutes > MAX_MINUTES {
                    MAX_MINUTES
                } else {
                    minutes
                },
                timer_seconds: if seconds > MAX_SECONDS {
                    MAX_SECONDS
                } else {
                    seconds
                },
                ..*old(self)
            }),
            old(self).wf() ==> final(self).wf(),
    {
        self.timer_minutes = if minutes > MAX_MINUTES {
            MAX_MINUTES
        } else {
            minutes
        };
        self.timer_seconds = if seconds > MAX_SECONDS {
            MAX_SECONDS
        } else {
            seconds
        };
    }

    pub fn start_timer(&mut self)
        ensures
            *final(self) == (ScoreboardState { timer_running: true, ..*old(self) }),
    {
        self.timer_running = true;
    }

    pub fn stop_timer(&mut self)
        ensures
            *final(self) == old(self).stopped(),
    {
        self.timer_running = false;
    }

    /// The clock back to `00:00`, stopped.
    pub fn reset_timer(&mut self)
        ensures
            *final(self) == (ScoreboardState {
                timer_minutes: 0,
                timer_seconds: 0,
                timer_running: false,
                ..*old(self)
            }),
    {
        self.set_timer(0, 0);
        self.stop_timer();
    }

    /// Period 1 with the configured length to run, the clock from `00:00`, running.
    pub fn start_first_half(&mut self, rugby: &RugbyConfig)
        ensures
            *final(self) == (ScoreboardState {
                current_period: 1,
                period_time_remaining: (rugby.first_half_minutes as int * 60) as u16,
                timer_minutes: 0,
                timer_seconds: 0,
                timer_running: true,
                ..*old(self)
            }),
    {
        self.current_period = 1;
        self.period_time_remaining = rugby.first_half_minutes as u16 * 60;
        self.timer_minutes = 0;
        self.timer_seconds = 0;
        self.start_timer();
    }

    /// Period 2 with the configured length to run; the clock carries on from
    /// where it stands, running.
    pub fn start_second_half(&mut self, rugby: &RugbyConfig)
        ensures
            *final(self) == (ScoreboardState {
                current_period: 2,
                period_time_remaining: (rugby.second_half_minutes as int * 60) as u16,
                timer_running: true,
                ..*old(self)
            }),
    {
        self.current_period = 2;
        self.period_time_remaining = rugby.second_half_minutes as u16 * 60;
        self.start_timer();
    }

    /// No period, nothing left to run, the clock stopped.
    pub fn end_period(&mut self)
        ensures
            *final(self) == (ScoreboardState {
                current_period: 0,
                period_time_remaining: 0,
                timer_running: false,
                ..*old(self)
            }),
    {
        self.current_period = 0;
        self.period_time_remaining = 0;
        self.stop_timer();
    }

    /// Adds `points` to `team`'s score, held at the largest score.
    pub fn award(&mut self, team: Team, points: u16)
        ensures
            *final(self) == old(self).with_score(team, raised(old(self).score_of(team), points)),
    {
        match team {
            Team::Home => {
                self.home_score = if self.home_score <= u16::MAX - points {
                    self.home_score + points
                } else {
                    u16::MAX
                };
            },
            Team::Away => {
                self.away_score = if self.away_score <= u16::MAX - points {
                    self.away_score + points
                } else {
                    u16::MAX
                };
            },
        }
    }

    /// Takes `points` from `team`'s score, held at zero.
    pub fn deduct(&mut self, team: Team, points: u16)
        ensures
            *final(self) == old(self).with_score(team, lowered(old(self).score_of(team), points)),
    {
        match team {
            Team::Home => {
                self.home_score = if self.home_score >= points {
                    self.home_score - points
                } else {
                    0
                };
            },
            Team::Away => {
                self.away_score = if self.away_score >= points {
                    self.away_score - points
                } else {
                    0
                };
            },
        }
    }

    /// Adds or removes `points` for the team that `token` names; an unknown
    /// token changes nothing.
    fn score_for(&mut self, token: &str, add: bool, points: u16) -> (r: Result<(), ScoreboardError>)
        ensures
            (r, *final(self)) == old(self).scored(lower_of(token@), add, points),
    {
        let team = match parse_team(token) {
            Ok(t) => t,
            Err(e) => return Err(e),
        };
        if add {
            self.award(team, points);
        } else {
            self.deduct(team, points);
        }
        Ok(())
    }

    pub fn add_try(&mut self, team: &str, rugby: &RugbyConfig) -> (r: Result<(), ScoreboardError>)
        ensures
            (r, *final(self)) == old(self).scored(lower_of(team@), true, rugby.try_points),
    {
        self.score_for(team, true, rugby.try_points)
    }

    pub fn remove_try(&mut self, team: &str, rugby: &RugbyConfig) -> (r: Result<(), ScoreboardError>)
        ensures
            (r, *final(self)) == old(self).scored(lower_of(team@), false, rugby.try_points),
    {
        self.score_for(team, false, rugby.try_points)
    }

    pub fn add_conversion(&mut self, team: &str, rugby: &RugbyConfig) -> (r: Result<
        (),
        ScoreboardError,
    >)
        ensures
            (r, *final(self)) == old(self).scored(lower_of(team@), true, rugby.conversion_points),
    {
        self.score_for(team, true, rugby.conversion_points)
    }

    pub fn remove_conversion(&mut self, team: &str, rugby: &RugbyConfig) -> (r: Result<
        (),
        ScoreboardError,
    >)
        ensures
            (r, *final(self)) == old(self).scored(lower_of(team@), false, rugby.conversion_points),
    {
        self.score_for(team, false, rugby.conversion_points)
    }

    pub fn add_penalty(&mut self, team: &str, rugby: &RugbyConfig) -> (r: Result<
        (),
        ScoreboardError,
    >)
        ensures
            (r, *final(self)) == old(self).scored(lower_of(team@), true, rugby.penalty_points),
    {
        self.score_for(team, true, rugby.penalty_points)
    }

    pub fn remove_penalty(&mut self, team: &str, rugby: &RugbyConfig) -> (r: Result<
        (),
        ScoreboardError,
    >)
        ensures
            (r, *final(self)) == old(self).scored(lower_of(team@), false, rugby.penalty_points),
    {
        self.score_for(team, false, rugby.penalty_points)
    }

    /// Seven points, whatever the configured values.
    pub fn add_penalty_try(&mut self, team: &str) -> (r: Result<(), ScoreboardError>)
        ensures
            (r, *final(self)) == old(self).scored(lower_of(team@), true, PENALTY_TRY_POINTS),
    {
        self.score_for(team, true, PENALTY_TRY_POINTS)
    }

    /// The commands that redraw the whole panel: team names in white, scores
    /// in green, then the clock, red while it runs and white when stopped.
    pub fn display_commands(&self) -> (r: Vec<Command>)
        ensures
            r@.len() == 5,
            is_text_command(r@[0], windows::HOME_NAME, self.home_team@, white()),
            is_text_command(r@[1], windows::AWAY_NAME, self.away_team@, white()),
            is_text_command(r@[2], windows::HOME_SCORE, decimal_chars(self.home_score as nat), green()),
            is_text_command(r@[3], windows::AWAY_SCORE, decimal_chars(self.away_score as nat), green()),
            is_text_command(
                r@[4],
                windows::TIMER,
                clock_chars(self.timer_minutes as nat, self.timer_seconds as nat),
                if self.timer_running {
                    red()
                } else {
                    white()
                },
            ),
    {
        let mut r: Vec<Command> = Vec::new();
        r.push(text_command(windows::HOME_NAME, self.home_team.clone(), Color::white()));
        r.push(text_command(windows::AWAY_NAME, self.away_team.clone(), Color::white()));
        r.push(text_command(windows::HOME_SCORE, decimal_text(self.home_score), Color::green()));
        r.push(text_command(windows::AWAY_SCORE, decimal_text(self.away_score), Color::green()));
        let timer_color = if self.timer_running {
            Color::red()
        } else {
            Color::white()
        };
        r.push(
            text_command(
                windows::TIMER,
                clock_text(self.timer_minutes, self.timer_seconds),
                timer_color,
            ),
        );
        r
    }

    /// One second of the simulated clock. Returns whether the clock was
    /// running, that is whether it should keep ticking.
    pub fn tick(&mut self) -> (running: bool)
        ensures
            running == old(self).timer_running,
            *final(self) == old(self).ticked(),
            old(self).wf() ==> final(self).wf(),
    {
        if !self.timer_running {
            return false;
        }
        if self.timer_seconds >= MAX_SECONDS {
            if self.timer_minutes >= MAX_MINUTES {
                self.timer_minutes = MAX_MINUTES;
                self.timer_seconds = MAX_SECONDS;
            } else {
                self.timer_minutes = self.timer_minutes + 1;
                self.timer_seconds = 0;
            }
        } else {
            self.timer_seconds = self.timer_seconds + 1;
        }
        if self.current_period > 0 && self.period_time_remaining > 0 {
            self.period_time_remaining = self.period_time_remaining - 1;
        }
        true
    }
}

impl Default for ScoreboardState {
    fn default() -> (r: Self)
        ensures
            r.is_initial(),
            r.wf(),
            !r.simulation_mode,
            !r.connected,
    {
        ScoreboardState::new(false)
    }
}

/// While the clock runs, `k` simulated seconds add exactly `k` seconds to it,
/// up to `99:59`, and it keeps running.
pub proof fn lemma_running_clock_counts(st: ScoreboardState, k: nat)
    requires
        st.wf(),
        st.timer_running,
    ensures
        st.ticked_by(k).wf(),
        st.ticked_by(k).timer_running,
        st.ticked_by(k).clock_seconds() == if st.clock_seconds() + k > clock_cap() {
            clock_cap()
        } else {
            st.clock_seconds() + k
        },
    decreases k,
{
    if k > 0 {
        lemma_running_clock_counts(st, (k - 1) as nat);
    }
}

/// Once the clock is stopped, further simulated seconds change nothing.
pub proof fn lemma_stopped_clock_holds(st: ScoreboardState, k: nat)
    ensures
        st.stopped().ticked_by(k) == st.stopped(),
    decreases k,
{
    if k > 0 {
        lemma_stopped_clock_holds(st, (k - 1) as nat);
    }
}

/// The state after a sequence of scoring actions, each a lowercase team
/// token, whether points are added, and how many.
pub open spec fn scored_by(st: ScoreboardState, calls: Seq<(Seq<char>, bool, u16)>) -> ScoreboardState
    decreases calls.len(),
{
    if calls.len() == 0 {
        st
    } else {
        let prev = scored_by(st, calls.drop_last());
        let c = calls.last();
        prev.scored(c.0, c.1, c.2).1
    }
}

/// `x` held within `0..=u16::MAX`.
pub open spec fn clamp_score(x: int) -> int {
    if x < 0 {
        0
    } else if x > u16::MAX {
        u16::MAX as int
    } else {
        x
    }
}

/// Scores never go below zero: along any sequence of scoring actions, each
/// action moves the named team's score by its signed points, held within
/// `0..=u16::MAX`, and leaves the other score alone.
pub proof fn lemma_scores_never_negative(st: ScoreboardState, calls: Seq<(Seq<char>, bool, u16)>)
    ensures
        forall|i: int, team: Team|
            #![trigger scored_by(st, calls.take(i)).score_of(team)]
            0 <= i <= calls.len() ==> scored_by(st, calls.take(i)).score_of(team) >= 0,
        forall|i: int, team: Team|
            0 <= i < calls.len() ==> #[trigger] scored_by(st, calls.take(i + 1)).score_of(team) as int
                == if team_of_lowered(calls[i].0) == Some(team) {
                clamp_score(
                    scored_by(st, calls.take(i)).score_of(team) as int + if calls[i].1 {
                        calls[i].2 as int
                    } else {
                        -(calls[i].2 as int)
                    },
                )
            } else {
                scored_by(st, calls.take(i)).score_of(team) as int
            },
{
    assert forall|i: int, team: Team|
        0 <= i < calls.len() implies #[trigger] scored_by(st, calls.take(i + 1)).score_of(team) as int
        == if team_of_lowered(calls[i].0) == Some(team) {
        clamp_score(
            scored_by(st, calls.take(i)).score_of(team) as int + if calls[i].1 {
                calls[i].2 as int
            } else {
                -(calls[i].2 as int)
            },
        )
    } else {
        scored_by(st, calls.take(i)).score_of(team) as int
    } by {
        assert(calls.take(i + 1).drop_last() =~= calls.take(i));
        assert(calls.take(i + 1).last() == calls[i]);
    }
}

} // verus!
