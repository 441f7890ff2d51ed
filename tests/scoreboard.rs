use rugby_scoreboard::windows;
use rugby_scoreboard::{
    parse_team, team_from_lowered, Color, Command, DisplayCommand, RugbyConfig, ScoreboardError,
    ScoreboardState, Team,
};

fn fresh() -> ScoreboardState {
    ScoreboardState::new(true)
}

#[test]
fn initial_state() {
    let st = ScoreboardState::new(true);
    assert_eq!(st.home_team, "HOME");
    assert_eq!(st.away_team, "AWAY");
    assert_eq!((st.home_score, st.away_score), (0, 0));
    assert_eq!((st.timer_minutes, st.timer_seconds), (0, 0));
    assert!(!st.timer_running);
    assert!(st.connected);
    assert!(st.simulation_mode);
    assert_eq!((st.current_period, st.period_time_remaining), (0, 0));
    let d = ScoreboardState::default();
    assert!(!d.connected && !d.simulation_mode);
}

#[test]
fn team_tokens_ignore_case() {
    assert_eq!(parse_team("home"), Ok(Team::Home));
    assert_eq!(parse_team("HOME"), Ok(Team::Home));
    assert_eq!(parse_team("Away"), Ok(Team::Away));
    assert_eq!(parse_team("north"), Err(ScoreboardError::InvalidTeam));
    assert_eq!(parse_team(""), Err(ScoreboardError::InvalidTeam));
    assert_eq!(parse_team("home "), Err(ScoreboardError::InvalidTeam));
    assert_eq!(team_from_lowered("away"), Ok(Team::Away));
    assert_eq!(team_from_lowered("AWAY"), Err(ScoreboardError::InvalidTeam));
}

#[test]
fn penalty_try_adds_seven_and_try_adds_configured_points() {
    let cfg = RugbyConfig::standard();
    let mut st = fresh();
    st.add_penalty_try("home").unwrap();
    assert_eq!(st.home_score, 7);
    st.add_try("home", &cfg).unwrap();
    assert_eq!(st.home_score, 12);
    assert_eq!(st.away_score, 0);
    let custom = RugbyConfig { try_points: 4, ..cfg };
    st.add_try("HOME", &custom).unwrap();
    assert_eq!(st.home_score, 16);
    st.add_penalty_try("away").unwrap();
    assert_eq!(st.away_score, 7);
}

#[test]
fn conversions_and_penalties_use_configured_points() {
    let cfg = RugbyConfig::standard();
    let mut st = fresh();
    st.add_conversion("away", &cfg).unwrap();
    st.add_penalty("away", &cfg).unwrap();
    assert_eq!(st.away_score, 5);
    st.remove_conversion("away", &cfg).unwrap();
    assert_eq!(st.away_score, 3);
    st.remove_penalty("away", &cfg).unwrap();
    assert_eq!(st.away_score, 0);
}

#[test]
fn unknown_team_leaves_scores_and_yields_invalid_team() {
    let cfg = RugbyConfig::standard();
    let mut st = fresh();
    st.set_scores(10, 20);
    assert_eq!(st.add_try("north", &cfg), Err(ScoreboardError::InvalidTeam));
    assert_eq!(st.remove_try("north", &cfg), Err(ScoreboardError::InvalidTeam));
    assert_eq!(st.add_conversion("north", &cfg), Err(ScoreboardError::InvalidTeam));
    assert_eq!(st.remove_conversion("north", &cfg), Err(ScoreboardError::InvalidTeam));
    assert_eq!(st.add_penalty("north", &cfg), Err(ScoreboardError::InvalidTeam));
    assert_eq!(st.remove_penalty("north", &cfg), Err(ScoreboardError::InvalidTeam));
    assert_eq!(st.add_penalty_try("north"), Err(ScoreboardError::InvalidTeam));
    assert_eq!((st.home_score, st.away_score), (10, 20));
}

#[test]
fn removals_hold_scores_at_zero() {
    let cfg = RugbyConfig::standard();
    let mut st = fresh();
    st.set_scores(3, 1);
    st.remove_try("home", &cfg).unwrap();
    assert_eq!(st.home_score, 0);
    st.remove_try("home", &cfg).unwrap();
    assert_eq!(st.home_score, 0);
    st.remove_conversion("away", &cfg).unwrap();
    assert_eq!(st.away_score, 0);
}

#[test]
fn a_long_sequence_of_scoring_keeps_scores_in_range() {
    let cfg = RugbyConfig::standard();
    let mut st = fresh();
    let teams = ["home", "away", "Home", "AWAY"];
    let mut model = [0i64, 0i64];
    for i in 0..200usize {
        let team = teams[i % 4];
        let side = i % 2;
        let (add, points) = match i % 7 {
            0 => (true, 5),
            1 => (false, 5),
            2 => (true, 2),
            3 => (false, 2),
            4 => (true, 3),
            5 => (false, 3),
            _ => (false, 7),
        };
        let r = match i % 7 {
            0 => st.add_try(team, &cfg),
            1 => st.remove_try(team, &cfg),
            2 => st.add_conversion(team, &cfg),
            3 => st.remove_conversion(team, &cfg),
            4 => st.add_penalty(team, &cfg),
            5 => st.remove_penalty(team, &cfg),
            _ => st.remove_try(team, &RugbyConfig { try_points: 7, ..cfg }),
        };
        assert!(r.is_ok());
        let signed = if add { points } else { -points };
        model[side] = (model[side] + signed).max(0);
        assert_eq!(st.home_score as i64, model[0]);
        assert_eq!(st.away_score as i64, model[1]);
    }
}

#[test]
fn scores_saturate_at_the_largest_value() {
    let cfg = RugbyConfig::standard();
    let mut st = fresh();
    st.set_scores(65533, 65535);
    st.add_try("home", &cfg).unwrap();
    assert_eq!(st.home_score, 65535);
    st.increment_away_score();
    assert_eq!(st.away_score, 65535);
}

#[test]
fn increments_and_resets() {
    let mut st = fresh();
    st.increment_home_score();
    st.increment_home_score();
    st.increment_away_score();
    assert_eq!((st.home_score, st.away_score), (2, 1));
    st.reset_scores();
    assert_eq!((st.home_score, st.away_score), (0, 0));
    st.set_teams("Lions".to_string(), "Tigers".to_string());
    assert_eq!(st.home_team, "Lions");
    assert_eq!(st.away_team, "Tigers");
}

#[test]
fn clock_counts_simulated_seconds() {
    let mut st = fresh();
    st.set_timer(1, 50);
    st.start_timer();
    for _ in 0..75 {
        assert!(st.tick());
    }
    assert_eq!((st.timer_minutes, st.timer_seconds), (3, 5));
}

#[test]
fn clock_holds_at_99_59() {
    let mut st = fresh();
    st.set_timer(99, 57);
    st.start_timer();
    for _ in 0..5 {
        st.tick();
    }
    assert_eq!((st.timer_minutes, st.timer_seconds), (99, 59));
}

#[test]
fn stopping_the_clock_halts_ticks() {
    let mut st = fresh();
    st.start_timer();
    st.tick();
    st.tick();
    st.stop_timer();
    assert!(!st.tick());
    assert!(!st.tick());
    assert_eq!((st.timer_minutes, st.timer_seconds), (0, 2));
}

#[test]
fn set_timer_holds_values_at_99_59() {
    let mut st = fresh();
    st.set_timer(120, 75);
    assert_eq!((st.timer_minutes, st.timer_seconds), (99, 59));
    st.set_timer(12, 34);
    assert_eq!((st.timer_minutes, st.timer_seconds), (12, 34));
    st.start_timer();
    st.reset_timer();
    assert_eq!((st.timer_minutes, st.timer_seconds, st.timer_running), (0, 0, false));
}

#[test]
fn start_first_half_with_forty_minutes() {
    let cfg = RugbyConfig::standard();
    let mut st = fresh();
    st.set_timer(12, 30);
    st.start_first_half(&cfg);
    assert_eq!(st.current_period, 1);
    assert_eq!(st.period_time_remaining, 2400);
    assert_eq!(st.timer_minutes, 0);
    assert_eq!(st.timer_seconds, 0);
    assert!(st.timer_running);
}

#[test]
fn second_half_keeps_the_clock() {
    let cfg = RugbyConfig { second_half_minutes: 35, ..RugbyConfig::standard() };
    let mut st = fresh();
    st.set_timer(40, 12);
    st.start_second_half(&cfg);
    assert_eq!(st.current_period, 2);
    assert_eq!(st.period_time_remaining, 2100);
    assert_eq!((st.timer_minutes, st.timer_seconds), (40, 12));
    assert!(st.timer_running);
}

#[test]
fn end_period_from_second_half() {
    let cfg = RugbyConfig::standard();
    let mut st = fresh();
    st.start_second_half(&cfg);
    st.end_period();
    assert_eq!(st.current_period, 0);
    assert_eq!(st.period_time_remaining, 0);
    assert!(!st.timer_running);
}

#[test]
fn period_counts_down_and_stops_at_zero_while_clock_runs() {
    let cfg = RugbyConfig { first_half_minutes: 1, ..RugbyConfig::standard() };
    let mut st = fresh();
    st.start_first_half(&cfg);
    for _ in 0..59 {
        st.tick();
    }
    assert_eq!(st.period_time_remaining, 1);
    st.tick();
    st.tick();
    st.tick();
    assert_eq!(st.period_time_remaining, 0);
    assert_eq!(st.current_period, 1);
    assert!(st.timer_running);
    assert_eq!((st.timer_minutes, st.timer_seconds), (1, 2));
}

#[test]
fn no_countdown_outside_a_period() {
    let mut st = fresh();
    st.period_time_remaining = 30;
    st.start_timer();
    st.tick();
    assert_eq!(st.period_time_remaining, 30);
}

fn text_of(c: &Command) -> (u8, String, Color) {
    match c {
        Command::DisplayMessage(DisplayCommand::SendPureText { window_id, text, color }) => {
            (*window_id, text.clone(), *color)
        }
        _ => panic!("not a text command"),
    }
}

#[test]
fn display_commands_redraw_every_window() {
    let mut st = fresh();
    st.set_teams("Lions".to_string(), "Tigers".to_string());
    st.set_scores(12, 305);
    st.set_timer(7, 5);
    let cmds = st.display_commands();
    assert_eq!(cmds.len(), 5);
    assert_eq!(text_of(&cmds[0]), (windows::HOME_NAME, "Lions".to_string(), Color::white()));
    assert_eq!(text_of(&cmds[1]), (windows::AWAY_NAME, "Tigers".to_string(), Color::white()));
    assert_eq!(text_of(&cmds[2]), (windows::HOME_SCORE, "12".to_string(), Color::green()));
    assert_eq!(text_of(&cmds[3]), (windows::AWAY_SCORE, "305".to_string(), Color::green()));
    assert_eq!(text_of(&cmds[4]), (windows::TIMER, "07:05".to_string(), Color::white()));
    st.start_timer();
    st.set_timer(45, 30);
    let cmds = st.display_commands();
    assert_eq!(text_of(&cmds[4]), (windows::TIMER, "45:30".to_string(), Color::red()));
    st.set_scores(0, 65535);
    let cmds = st.display_commands();
    assert_eq!(text_of(&cmds[2]).1, "0");
    assert_eq!(text_of(&cmds[3]).1, "65535");
}
