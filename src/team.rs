use vstd::prelude::*;
use crate::error::ScoreboardError;

verus! {

/// One side of the match.
#[derive(Debug, Clone, Copy, PartialEq, Eq, Structural)]
pub enum Team {
    Home,
    Away,
}

/// The lowercase form of a string, as `str::to_lowercase` gives it.
pub uninterp spec fn lower_of(s: Seq<char>) -> Seq<char>;

/// Relies on `str::to_lowercase`: its result is a function of the characters
/// alone.
#[verifier::external_body]
fn lowercase(s: &str) -> (r: String)
    ensures
        r@ == lower_of(s@),
{
    s.to_lowercase()
}

/// The team that a lowercase token names: exactly `home` or `away`.
pub open spec fn team_of_lowered(t: Seq<char>) -> Option<Team> {
    if t == "home"@ {
        Some(Team::Home)
    } else if t == "away"@ {
        Some(Team::Away)
    } else {
        None
    }
}

/// The outcome of reading a lowercase token as a team.
pub open spec fn team_result(t: Seq<char>) -> Result<Team, ScoreboardError> {
    match team_of_lowered(t) {
        Some(team) => Ok(team),
        None => Err(ScoreboardError::InvalidTeam),
    }
}

/// Reads a token that is already lowercase as a team.
pub fn team_from_lowered(t: &str) -> (r: Result<Team, ScoreboardError>)
    ensures
        r == team_result(t@),
{
    let token = String::from_str(t);
    let home = String::from_str("home");
    let away = String::from_str("away");
    if token.eq(&home) {
        Ok(Team::Home)
    } else if token.eq(&away) {
        Ok(Team::Away)
    } else {
        Err(ScoreboardError::InvalidTeam)
    }
}

/// Reads a team token, ignoring case: `home` or `away`, anything else is
/// `InvalidTeam`.
pub fn parse_team(token: &str) -> (r: Result<Team, ScoreboardError>)
    ensures
        r == team_result(lower_of(token@)),
{
    let lowered = lowercase(token);
    team_from_lowered(lowered.as_str())
}

} // verus!
