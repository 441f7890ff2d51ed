use vstd::prelude::*;

verus! {

/// Settings of the whole application.
#[derive(Debug, Clone)]
pub struct Config {
    pub server: ServerConfig,
    pub scoreboard: ScoreboardConfig,
    pub rugby: RugbyConfig,
}

/// Settings of the HTTP server.
#[derive(Debug, Clone, Copy, PartialEq, Eq, Structural)]
pub struct ServerConfig {
    pub web_port: u16,
    pub simulation_mode: bool,
}

/// Where the display card is and how to reach it.
#[derive(Debug, Clone)]
pub struct ScoreboardConfig {
    pub address: String,
    pub card_id: u8,
    pub connection_timeout_seconds: u64,
    pub reconnect_interval_seconds: u64,
}

/// Point values of the scoring actions and the lengths of the two halves.
#[derive(Debug, Clone, Copy, PartialEq, Eq, Structural)]
pub struct RugbyConfig {
    pub try_points: u16,
    pub conversion_points: u16,
    pub penalty_points: u16,
    pub first_half_minutes: u8,
    pub second_half_minutes: u8,
}

impl RugbyConfig {
    /// Union rules: a try is worth 5, a conversion 2, a penalty 3; halves of 40 minutes.
    pub open spec fn is_standard(&self) -> bool {
        &&& self.try_points == 5
        &&& self.conversion_points == 2
        &&& self.penalty_points == 3
        &&& self.first_half_minutes == 40
        &&& self.second_half_minutes == 40
    }

    /// The standard rugby union values.
    pub fn standard() -> (r: Self)
        ensures
            r.is_standard(),
    {
        RugbyConfig {
            try_points: 5,
            conversion_points: 2,
            penalty_points: 3,
            first_half_minutes: 40,
            second_half_minutes: 40,
        }
    }
}

impl Config {
    /// The settings used when no configuration file exists.
    pub open spec fn is_default(&self) -> bool {
        &&& self.server.web_port == 3030
        &&& !self.server.simulation_mode
        &&& self.scoreboard.address@ == "192.168.1.100:5200"@
        &&& self.scoreboard.card_id == 1
        &&& self.scoreboard.connection_timeout_seconds == 5
        &&& self.scoreboard.reconnect_interval_seconds == 30
        &&& self.rugby.is_standard()
    }
}

impl Default for Config {
    fn default() -> (r: Self)
        ensures
            r.is_default(),
    {
        Config {
            server: ServerConfig { web_port: 3030, simulation_mode: false },
            scoreboard: ScoreboardConfig {
                address: String::from_str("192.168.1.100:5200"),
                card_id: 1,
                connection_timeout_seconds: 5,
                reconnect_interval_seconds: 30,
            },
            rugby: RugbyConfig::standard(),
        }
    }
}

} // verus!
