//! Control library for a networked rugby scoreboard: the display card's
//! framing and command protocol, the transport session and reconnect policy,
//! and the match state with its scoring and clock rules.

pub mod error;
pub mod packet;
pub mod commands;
pub mod windows;
pub mod config;
pub mod text;
pub mod team;
pub mod scoreboard;
pub mod client;
pub mod manager;
pub mod web;

pub use client::{LinkState, ReadOutcome, ScoreboardClient};
pub use commands::{Color, Command, DisplayCommand, ScoreboardLayout, TimeCommand, WindowData};
pub use config::{Config, RugbyConfig, ScoreboardConfig, ServerConfig};
pub use error::ScoreboardError;
pub use manager::{ConnectionManager, ManagerAction};
pub use packet::EthernetPacket;
pub use scoreboard::ScoreboardState;
pub use team::{parse_team, team_from_lowered, Team};
pub use web::{ApiResponse, ConfigUpdate, ScoreUpdate, TeamAction, TeamUpdate, TimerUpdate};
