//! The values exchanged with the HTTP front end: request bodies and the
//! uniform response envelope.
use vstd::prelude::*;

verus! {

/// New names for both teams.
#[derive(Debug, Clone)]
pub struct TeamUpdate {
    pub home_team: String,
    pub away_team: String,
}

/// New scores for both teams.
#[derive(Debug, Clone, Copy, PartialEq, Eq, Structural)]
pub struct ScoreUpdate {
    pub home_score: u16,
    pub away_score: u16,
}

/// A new clock value.
#[derive(Debug, Clone, Copy, PartialEq, Eq, Structural)]
pub struct TimerUpdate {
    pub minutes: u8,
    pub seconds: u8,
}

/// A scoring action's team token (`home` or `away`, any case).
#[derive(Debug, Clone)]
pub struct TeamAction {
    pub team: String,
}

/// Settings that a client may change; absent fields stay as they are.
#[derive(Debug, Clone)]
pub struct ConfigUpdate {
    pub web_port: Option<u16>,
    pub simulation_mode: Option<bool>,
    pub scoreboard_address: Option<String>,
    pub card_id: Option<u8>,
    pub try_points: Option<u16>,
    pub conversion_points: Option<u16>,
    pub penalty_points: Option<u16>,
}

/// The envelope of every API reply: a success flag with either data or an
/// error message.
#[derive(Debug, Clone)]
pub struct ApiResponse<T> {
    pub success: bool,
    pub data: Option<T>,
    pub error: Option<String>,
}

impl<T> ApiResponse<T> {
    pub fn success(data: T) -> (r: Self)
        ensures
            r.success,
            r.data == Some(data),
            r.error is None,
    {
        ApiResponse { success: true, data: Some(data), error: None }
    }

    pub fn error(message: String) -> (r: Self)
        ensures
            !r.success,
            r.data is None,
            r.error == Some(message),
    {
        ApiResponse { success: false, data: None, error: Some(message) }
    }
}

} // verus!
