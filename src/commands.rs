use vstd::prelude::*;
use vstd::utf8::encode_utf8;
use vstd::arithmetic::div_mod::{lemma_add_mod_noop_right, lemma_mod_multiples_vanish};
use crate::packet::{le_u16, push_all, push_le_u16};

verus! {

/// The commands that the control card understands.
#[derive(Debug, Clone)]
pub enum Command {
    /// Restart the card's hardware.
    RestartHardware,
    /// Query or set the panel brightness.
    BrightnessControl { query: bool, brightness: Option<u8> },
    /// Query, set, start or stop the card's clock.
    TimeControl(TimeCommand),
    /// Ask the card for its firmware version.
    QueryVersion,
    /// Query or switch the panel's power.
    PowerControl { query: bool, power_on: Option<bool> },
    /// Manage windows and their contents.
    DisplayMessage(DisplayCommand),
}

/// Subcommands of the clock.
#[derive(Debug, Clone)]
pub enum TimeCommand {
    Query,
    SetTime { hours: u8, minutes: u8, seconds: u8 },
    /// `true` starts the clock, `false` stops it.
    StartStop(bool),
}

/// Subcommands that manage windows and their contents.
#[derive(Debug, Clone)]
pub enum DisplayCommand {
    CreateWindows(Vec<WindowData>),
    SendText { window_id: u8, text: String, color: Color },
    SendPureText { window_id: u8, text: String, color: Color },
    DisplayTime { window_id: u8 },
}

/// A window's rectangle in panel pixels, origin at the top left.
#[derive(Debug, Clone, Copy, PartialEq, Eq, Structural)]
pub struct WindowData {
    pub x: u16,
    pub y: u16,
    pub width: u16,
    pub height: u16,
}

/// An RGB colour with 8-bit channels.
#[derive(Debug, Clone, Copy, PartialEq, Eq, Structural)]
pub struct Color {
    pub red: u8,
    pub green: u8,
    pub blue: u8,
}

impl Color {
    pub fn red() -> (c: Color)
        ensures
            c == (Color { red: 255, green: 0, blue: 0 }),
    {
        Color { red: 255, green: 0, blue: 0 }
    }

    pub fn green() -> (c: Color)
        ensures
            c == (Color { red: 0, green: 255, blue: 0 }),
    {
        Color { red: 0, green: 255, blue: 0 }
    }

    pub fn blue() -> (c: Color)
        ensures
            c == (Color { red: 0, green: 0, blue: 255 }),
    {
        Color { red: 0, green: 0, blue: 255 }
    }

    pub fn white() -> (c: Color)
        ensures
            c == (Color { red: 255, green: 255, blue: 255 }),
    {
        Color { red: 255, green: 255, blue: 255 }
    }

    pub fn black() -> (c: Color)
        ensures
            c == (Color { red: 0, green: 0, blue: 0 }),
    {
        Color { red: 0, green: 0, blue: 0 }
    }
}

/// The eight bytes of one window: x, y, width, height, each little-endian.
pub open spec fn window_bytes(w: WindowData) -> Seq<u8> {
    le_u16(w.x) + le_u16(w.y) + le_u16(w.width) + le_u16(w.height)
}

/// The bytes of a list of windows, in order.
pub open spec fn windows_bytes(ws: Seq<WindowData>) -> Seq<u8>
    decreases ws.len(),
{
    if ws.len() == 0 {
        Seq::empty()
    } else {
        windows_bytes(ws.drop_last()) + window_bytes(ws.last())
    }
}

/// Header shared by the window subcommands: command, response request, the
/// subcommand's data length, packet id and last packet id.
pub open spec fn display_header(data_length: u16) -> Seq<u8> {
    seq![0x7bu8, 0x01u8] + le_u16(data_length) + seq![0x00u8, 0x00u8]
}

/// The payload that encodes `c`; commands the card protocol does not cover
/// here encode to nothing.
pub open spec fn command_bytes(c: Command) -> Seq<u8> {
    match c {
        Command::RestartHardware => seq![0x2du8, 0x01u8, 0x00u8],
        Command::TimeControl(TimeCommand::Query) => seq![0x47u8, 0x01u8, 0x01u8],
        Command::TimeControl(TimeCommand::SetTime { hours, minutes, seconds }) => seq![
            0x47u8,
            0x01u8,
            0x02u8,
            hours,
            minutes,
            seconds,
        ],
        Command::TimeControl(TimeCommand::StartStop(start)) => seq![
            0x47u8,
            0x01u8,
            if start {
                0x03u8
            } else {
                0x04u8
            },
        ],
        Command::QueryVersion => seq![0x4bu8, 0x01u8],
        Command::PowerControl { query, power_on } => if query {
            seq![0x76u8, 0x01u8]
        } else {
            seq![
                0x76u8,
                0x01u8,
                if power_on == Some(true) {
                    0x01u8
                } else {
                    0x00u8
                },
            ]
        },
        Command::DisplayMessage(DisplayCommand::CreateWindows(ws)) => display_header(
            ((3 + 8 * ws@.len()) % 65536) as u16,
        ) + seq![0x01u8, ws@.len() as u8] + windows_bytes(ws@),
        Command::DisplayMessage(DisplayCommand::SendPureText { window_id, text, color }) => {
            let t = encode_utf8(text@);
            display_header(((10 + t.len()) % 65536) as u16) + seq![
                0x12u8,
                window_id,
                0x00u8,
                0x04u8,
                0x01u8,
                0x00u8,
                0x00u8,
                0x02u8,
                color.red,
                color.green,
                color.blue,
            ] + t + seq![0x00u8]
        },
        Command::DisplayMessage(DisplayCommand::DisplayTime { window_id }) => display_header(6)
            + seq![0x05u8, window_id, 0x00u8, 0x04u8, 0x01u8, 0x02u8],
        _ => Seq::empty(),
    }
}

/// The five windows of a scoreboard panel.
#[derive(Debug, Clone, Copy, PartialEq, Eq, Structural)]
pub struct ScoreboardLayout {
    pub home_name: WindowData,
    pub home_score: WindowData,
    pub away_name: WindowData,
    pub away_score: WindowData,
    pub timer: WindowData,
}

/// A window at `(x, y)` of the given size.
pub open spec fn rect(x: u16, y: u16, width: u16, height: u16) -> WindowData {
    WindowData { x, y, width, height }
}

impl ScoreboardLayout {
    /// The windows in id order: home name, home score, away name, away score, timer.
    pub open spec fn window_seq(&self) -> Seq<WindowData> {
        seq![self.home_name, self.home_score, self.away_name, self.away_score, self.timer]
    }

    /// The layout of a 224x32 panel: names on the left, scores beside them,
    /// the clock filling the right-hand side.
    pub fn standard_224x32() -> (r: Self)
        ensures
            r.home_name == rect(0, 0, 96, 16),
            r.home_score == rect(96, 0, 32, 16),
            r.away_name == rect(0, 16, 96, 16),
            r.away_score == rect(96, 16, 32, 16),
            r.timer == rect(128, 0, 96, 32),
    {
        ScoreboardLayout {
            home_name: WindowData { x: 0, y: 0, width: 96, height: 16 },
            home_score: WindowData { x: 96, y: 0, width: 32, height: 16 },
            away_name: WindowData { x: 0, y: 16, width: 96, height: 16 },
            away_score: WindowData { x: 96, y: 16, width: 32, height: 16 },
            timer: WindowData { x: 128, y: 0, width: 96, height: 32 },
        }
    }

    /// All windows, in id order, for creating them on the card.
    pub fn all_windows(&self) -> (r: Vec<WindowData>)
        ensures
            r@ == self.window_seq(),
    {
        let r = vec![self.home_name, self.home_score, self.away_name, self.away_score, self.timer];
        assert(r@ =~= self.window_seq());
        r
    }
}

/// A 16-bit length field holding `base + len`, wrapped as the wire does.
fn length_field(base: u16, len: usize) -> (r: u16)
    ensures
        r as int == (base + len) % 65536,
{
    let low = (len % 65536) as u32;
    let r = ((base as u32 + low) % 65536) as u16;
    proof {
        lemma_add_mod_noop_right(base as int, len as int, 65536);
    }
    r
}

impl Command {
    /// The payload bytes of this command.
    pub fn encode(&self) -> (r: Vec<u8>)
        ensures
            r@ == command_bytes(*self),
    {
        match self {
            Command::RestartHardware => vec![0x2d, 0x01, 0x00],
            Command::TimeControl(time_cmd) => match time_cmd {
                TimeCommand::Query => vec![0x47, 0x01, 0x01],
                TimeCommand::SetTime { hours, minutes, seconds } => vec![
                    0x47,
                    0x01,
                    0x02,
                    *hours,
                    *minutes,
                    *seconds,
                ],
                TimeCommand::StartStop(start) => vec![
                    0x47,
                    0x01,
                    if *start {
                        0x03
                    } else {
                        0x04
                    },
                ],
            },
            Command::QueryVersion => vec![0x4b, 0x01],
            Command::PowerControl { query, power_on } => {
                if *query {
                    vec![0x76, 0x01]
                } else {
                    let on = match power_on {
                        Some(b) => *b,
                        None => false,
                    };
                    vec![
                        0x76,
                        0x01,
                        if on {
                            0x01
                        } else {
                            0x00
                        },
                    ]
                }
            },
            Command::DisplayMessage(display_cmd) => match display_cmd {
                DisplayCommand::CreateWindows(windows) => encode_create_windows(windows),
                DisplayCommand::SendPureText { window_id, text, color } => encode_pure_text(
                    *window_id,
                    text,
                    *color,
                ),
                DisplayCommand::DisplayTime { window_id } => {
                    let mut data: Vec<u8> = vec![0x7b, 0x01, 0x06, 0x00, 0x00, 0x00];
                    data.push(0x05);
                    data.push(*window_id);
                    data.push(0x00);
                    data.push(0x04);
                    data.push(0x01);
                    data.push(0x02);
                    assert(data@ =~= command_bytes(*self));
                    data
                },
                DisplayCommand::SendText { .. } => Vec::new(),
            },
            Command::BrightnessControl { .. } => Vec::new(),
        }
    }
}

fn encode_create_windows(windows: &Vec<WindowData>) -> (r: Vec<u8>)
    ensures
        r@ == command_bytes(Command::DisplayMessage(DisplayCommand::CreateWindows(*windows))),
{
    let mut data: Vec<u8> = vec![0x7b, 0x01];
    let n = windows.len();
    let len8 = n % 8192;
    let data_length = length_field(3, 8 * len8);
    proof {
        assert(8 * n == 65536 * (n / 8192) + 8 * len8) by (nonlinear_arith)
            requires
                len8 == n % 8192,
        ;
        lemma_mod_multiples_vanish((n / 8192) as int, 3 + 8 * len8, 65536);
    }
    push_le_u16(&mut data, data_length);
    data.push(0x00);
    data.push(0x00);
    data.push(0x01);
    data.push(n as u8);
    let ghost head = data@;
    let mut i: usize = 0;
    while i < windows.len()
        invariant
            i <= windows@.len(),
            data@ == head + windows_bytes(windows@.subrange(0, i as int)),
        decreases windows@.len() - i,
    {
        let w = windows[i];
        push_le_u16(&mut data, w.x);
        push_le_u16(&mut data, w.y);
        push_le_u16(&mut data, w.width);
        push_le_u16(&mut data, w.height);
        i = i + 1;
        assert(windows@.subrange(0, i as int).drop_last() =~= windows@.subrange(0, i - 1));
        assert(data@ =~= head + windows_bytes(windows@.subrange(0, i as int)));
    }
    assert(windows@.subrange(0, i as int) =~= windows@);
    assert(data@ =~= command_bytes(Command::DisplayMessage(DisplayCommand::CreateWindows(*windows))));
    data
}

fn encode_pure_text(window_id: u8, text: &String, color: Color) -> (r: Vec<u8>)
    ensures
        r@ == command_bytes(
            Command::DisplayMessage(DisplayCommand::SendPureText { window_id, text: *text, color }),
        ),
{
    let text_bytes = text.as_str().as_bytes();
    let mut data: Vec<u8> = vec![0x7b, 0x01];
    push_le_u16(&mut data, length_field(10, text_bytes.len()));
    data.push(0x00);
    data.push(0x00);
    data.push(0x12);
    data.push(window_id);
    data.push(0x00);
    data.push(0x04);
    data.push(0x01);
    data.push(0x00);
    data.push(0x00);
    data.push(0x02);
    data.push(color.red);
    data.push(color.green);
    data.push(color.blue);
    push_all(&mut data, text_bytes);
    data.push(0x00);
    assert(data@ =~= command_bytes(
        Command::DisplayMessage(DisplayCommand::SendPureText { window_id, text: *text, color }),
    ));
    data
}

} // verus!
