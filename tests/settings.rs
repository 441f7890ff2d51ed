use rugby_scoreboard::{ApiResponse, Config, RugbyConfig, ScoreboardError};

#[test]
fn default_config_values() {
    let c = Config::default();
    assert_eq!(c.server.web_port, 3030);
    assert!(!c.server.simulation_mode);
    assert_eq!(c.scoreboard.address, "192.168.1.100:5200");
    assert_eq!(c.scoreboard.card_id, 1);
    assert_eq!(c.scoreboard.connection_timeout_seconds, 5);
    assert_eq!(c.scoreboard.reconnect_interval_seconds, 30);
    assert_eq!(c.rugby, RugbyConfig::standard());
    assert_eq!(c.rugby.try_points, 5);
    assert_eq!(c.rugby.conversion_points, 2);
    assert_eq!(c.rugby.penalty_points, 3);
    assert_eq!(c.rugby.first_half_minutes, 40);
    assert_eq!(c.rugby.second_half_minutes, 40);
}

#[test]
fn api_envelopes() {
    let ok = ApiResponse::success(5u16);
    assert!(ok.success);
    assert_eq!(ok.data, Some(5));
    assert_eq!(ok.error, None);
    let err = ApiResponse::<u16>::error("boom".to_string());
    assert!(!err.success);
    assert_eq!(err.data, None);
    assert_eq!(err.error, Some("boom".to_string()));
}

#[test]
fn error_messages() {
    assert_eq!(ScoreboardError::Format.message(), "packet too short");
    assert_eq!(ScoreboardError::InvalidTeam.message(), "invalid team");
    assert_ne!(ScoreboardError::Connect.message(), ScoreboardError::Io.message());
}
