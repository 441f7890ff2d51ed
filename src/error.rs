use vstd::prelude::*;

verus! {

/// The failures that the library reports to its callers.
#[derive(Debug, Clone, Copy, PartialEq, Eq, Structural)]
pub enum ScoreboardError {
    /// Opening the connection to the display card timed out or was refused.
    Connect,
    /// Writing to (or reading from) an open connection failed.
    Io,
    /// A buffer could not be decoded as a frame.
    Format,
    /// A team token was neither `home` nor `away`.
    InvalidTeam,
}

impl ScoreboardError {
    /// A short human-readable description of the failure.
    pub fn message(&self) -> (r: &'static str)
        ensures
            r@ == match self {
                ScoreboardError::Connect => "failed to connect to scoreboard"@,
                ScoreboardError::Io => "failed to send command"@,
                ScoreboardError::Format => "packet too short"@,
                ScoreboardError::InvalidTeam => "invalid team"@,
            },
    {
        match self {
            ScoreboardError::Connect => "failed to connect to scoreboard",
            ScoreboardError::Io => "failed to send command",
            ScoreboardError::Format => "packet too short",
            ScoreboardError::InvalidTeam => "invalid team",
        }
    }
}

} // verus!
