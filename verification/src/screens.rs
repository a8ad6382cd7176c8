//! What each screen puts on the 128 by 64 display.
//!
//! A screen is a list of drawing operations. The list says what is drawn and
//! where; carrying it out on the display is left to the caller.

use vstd::prelude::*;
use crate::navigation::{UiState, MENU_ENTRIES};
use crate::text::{decimal, decimal_digits, joined};
use crate::weather::{WeatherReport, WeatherView};

verus! {

/// Width of the display in pixels.
pub const DISPLAY_WIDTH: usize = 128;

/// Height of the display in pixels.
pub const DISPLAY_HEIGHT: usize = 64;

/// Width that a centred character is taken to have, in pixels.
pub const CHAR_WIDTH: usize = 6;

/// Height that a centred character is taken to have, in pixels.
pub const CHAR_HEIGHT: usize = 8;

/// One drawing operation. Text is anchored at its top left corner; a line is
/// one pixel wide.
#[derive(Debug, PartialEq, Eq)]
pub enum DrawOp {
    /// Blank the whole display.
    Clear,
    /// Draw `content` with its top left corner at (`x`, `y`).
    Text { content: String, x: i32, y: i32 },
    /// Draw a line from (`x0`, `y0`) to (`x1`, `y1`).
    Line { x0: i32, y0: i32, x1: i32, y1: i32 },
    /// Send what has been drawn to the display.
    Flush,
}

/// The mathematical view of a drawing operation: the text by its characters,
/// the coordinates as integers.
pub enum DrawOpView {
    Clear,
    Text { content: Seq<char>, x: int, y: int },
    Line { x0: int, y0: int, x1: int, y1: int },
    Flush,
}

impl View for DrawOp {
    type V = DrawOpView;

    open spec fn view(&self) -> DrawOpView {
        match *self {
            DrawOp::Clear => DrawOpView::Clear,
            DrawOp::Text { content, x, y } => DrawOpView::Text {
                content: content@,
                x: x as int,
                y: y as int,
            },
            DrawOp::Line { x0, y0, x1, y1 } => DrawOpView::Line {
                x0: x0 as int,
                y0: y0 as int,
                x1: x1 as int,
                y1: y1 as int,
            },
            DrawOp::Flush => DrawOpView::Flush,
        }
    }
}

/// The view of each operation of a list, in order.
pub open spec fn painted(ops: Seq<DrawOp>) -> Seq<DrawOpView> {
    Seq::new(ops.len(), |i: int| ops[i]@)
}

/// The text `content` at (`x`, `y`).
pub open spec fn text_at(content: Seq<char>, x: int, y: int) -> DrawOpView {
    DrawOpView::Text { content, x, y }
}

/// The line from (`x0`, `y0`) to (`x1`, `y1`).
pub open spec fn line(x0: int, y0: int, x1: int, y1: int) -> DrawOpView {
    DrawOpView::Line { x0, y0, x1, y1 }
}

/// The left edge of a text of `chars` characters that is centred on the display.
pub open spec fn centered_left(chars: int) -> int {
    (DISPLAY_WIDTH - chars * CHAR_WIDTH) / 2
}

/// The top edge of a line of text that is centred on the display.
pub open spec fn centered_top() -> int {
    (DISPLAY_HEIGHT - CHAR_HEIGHT) / 2
}

/// The mark in front of a menu entry: an arrow when it is selected.
pub open spec fn entry_mark(selected: bool) -> Seq<char> {
    if selected {
        "> "@
    } else {
        " "@
    }
}

/// The boot screen.
pub open spec fn boot_screen_ops() -> Seq<DrawOpView> {
    seq![DrawOpView::Clear, text_at("pippo is booting..."@, 30, 3), DrawOpView::Flush]
}

/// The connectivity icon in the top right corner.
pub open spec fn wifi_icon_ops() -> Seq<DrawOpView> {
    seq![line(125, 0, 120, 5), line(120, 5, 125, 10), line(122, 0, 122, 10)]
}

/// The home screen: the time in the top left corner, the connectivity icon,
/// and a greeting in the middle.
pub open spec fn home_screen_ops(formatted_time: Seq<char>) -> Seq<DrawOpView> {
    seq![text_at(formatted_time, 1, 1)] + wifi_icon_ops() + seq![
        text_at("Welcome!"@, centered_left(8), centered_top()),
        DrawOpView::Flush,
    ]
}

/// The menu: its three entries, each with its mark.
pub open spec fn menu_screen_ops(
    settings_selected: bool,
    status_selected: bool,
    exit_selected: bool,
) -> Seq<DrawOpView> {
    seq![
        text_at(entry_mark(settings_selected) + "Settings"@, 10, 15),
        text_at(entry_mark(status_selected) + "Status"@, 10, 23),
        text_at(entry_mark(exit_selected) + "Exit"@, 10, 31),
        DrawOpView::Flush,
    ]
}

/// The settings screen.
pub open spec fn settings_screen_ops() -> Seq<DrawOpView> {
    seq![
        text_at("Settings"@, 10, 10),
        text_at("Short: Back"@, 10, 26),
        text_at("Long: Face"@, 10, 34),
        DrawOpView::Flush,
    ]
}

/// The status screen: the weather and the time.
pub open spec fn status_screen_ops(
    temperature: Seq<char>,
    weather_condition: Seq<char>,
    humidity: nat,
    formatted_time: Seq<char>,
) -> Seq<DrawOpView> {
    seq![
        text_at("Status"@, 10, 7),
        text_at("Temperature: "@ + temperature + "°C"@, 10, 26),
        text_at("Condition: "@ + weather_condition, 10, 34),
        text_at("Humidity: "@ + decimal_digits(humidity) + "%"@, 10, 42),
        text_at("Time: "@ + formatted_time, 10, 50),
        DrawOpView::Flush,
    ]
}

/// The exit screen.
pub open spec fn exit_screen_ops() -> Seq<DrawOpView> {
    seq![
        text_at("Exit"@, 10, 10),
        text_at("Short: Back"@, 10, 26),
        text_at("Long: Face"@, 10, 34),
        DrawOpView::Flush,
    ]
}

/// The face: two eyes and a mouth on a blank display. Open eyes are upright
/// strokes, closed eyes are flat ones; the mouth is flat, or turned up at the
/// corners while the idle expression shows.
pub open spec fn face_ops(eyes_open: bool, expression: bool) -> Seq<DrawOpView> {
    seq![DrawOpView::Clear] + (if eyes_open {
        seq![line(40, 20, 40, 36), line(88, 20, 88, 36)]
    } else {
        seq![line(34, 28, 46, 28), line(82, 28, 94, 28)]
    }) + (if expression {
        seq![line(52, 48, 58, 52), line(58, 52, 70, 52), line(70, 52, 76, 48)]
    } else {
        seq![line(52, 50, 76, 50)]
    }) + seq![DrawOpView::Flush]
}

/// What one tick puts on the display for the screen `ui_state`.
///
/// Every screen starts from a blank display. The menu marks the selected
/// entry and is sent to the display once more at the end; while the button is
/// held it is left as it is, so that it does not flicker during a long press.
pub open spec fn frame_ops(
    ui_state: UiState,
    option_index: u8,
    btn_down: bool,
    formatted_time: Seq<char>,
    weather: WeatherView,
) -> Seq<DrawOpView> {
    match ui_state {
        UiState::Home => seq![DrawOpView::Clear] + home_screen_ops(formatted_time),
        UiState::Menu => if btn_down {
            Seq::empty()
        } else {
            seq![DrawOpView::Clear] + menu_screen_ops(
                option_index == 0,
                option_index == 1,
                option_index == 2,
            ) + seq![DrawOpView::Flush]
        },
        UiState::Settings => seq![DrawOpView::Clear] + settings_screen_ops(),
        UiState::Status => seq![DrawOpView::Clear] + status_screen_ops(
            weather.temperature,
            weather.condition,
            weather.humidity as nat,
            formatted_time,
        ),
        UiState::Exit => seq![DrawOpView::Clear] + exit_screen_ops(),
    }
}

/// A text operation.
fn text_op(content: String, x: i32, y: i32) -> (op: DrawOp)
    ensures
        op@ == text_at(content@, x as int, y as int),
{
    DrawOp::Text { content, x, y }
}

/// A line operation.
fn line_op(x0: i32, y0: i32, x1: i32, y1: i32) -> (op: DrawOp)
    ensures
        op@ == line(x0 as int, y0 as int, x1 as int, y1 as int),
{
    DrawOp::Line { x0, y0, x1, y1 }
}

/// Adds `op` to the end of `ops`.
fn put(ops: &mut Vec<DrawOp>, op: DrawOp)
    ensures
        painted(final(ops)@) == painted(old(ops)@).push(op@),
{
    let ghost before = ops@;
    ops.push(op);
    assert(painted(ops@) =~= painted(before).push(op@));
}

/// Adds the operations of `more` to the end of `ops`.
fn extend(ops: &mut Vec<DrawOp>, more: Vec<DrawOp>)
    ensures
        painted(final(ops)@) == painted(old(ops)@) + painted(more@),
{
    let mut more = more;
    let ghost before = ops@;
    let ghost added = more@;
    ops.append(&mut more);
    assert(painted(ops@) =~= painted(before) + painted(added));
}

/// Draws the boot screen.
pub fn boot_screen() -> (ops: Vec<DrawOp>)
    ensures
        painted(ops@) == boot_screen_ops(),
{
    let mut ops: Vec<DrawOp> = Vec::new();
    ops.push(DrawOp::Clear);
    ops.push(text_op(String::from_str("pippo is booting..."), 30, 3));
    ops.push(DrawOp::Flush);
    assert(painted(ops@) =~= boot_screen_ops());
    ops
}

/// Draws the connectivity icon.
pub fn draw_wifi_icon() -> (ops: Vec<DrawOp>)
    ensures
        painted(ops@) == wifi_icon_ops(),
{
    let mut ops: Vec<DrawOp> = Vec::new();
    ops.push(line_op(125, 0, 120, 5));
    ops.push(line_op(120, 5, 125, 10));
    ops.push(line_op(122, 0, 122, 10));
    assert(painted(ops@) =~= wifi_icon_ops());
    ops
}

/// The top left corner of a text that is centred on the display. A text too
/// wide for the display starts at the left edge.
fn centered(text: &str) -> (corner: (i32, i32))
    ensures
        corner.0 == if text@.len() * CHAR_WIDTH <= DISPLAY_WIDTH {
            centered_left(text@.len() as int)
        } else {
            0
        },
        corner.1 == centered_top(),
{
    let chars: usize = text.unicode_len();
    let top: usize = (DISPLAY_HEIGHT - CHAR_HEIGHT) / 2;
    if chars <= DISPLAY_WIDTH / CHAR_WIDTH {
        let left: usize = (DISPLAY_WIDTH - chars * CHAR_WIDTH) / 2;
        (left as i32, top as i32)
    } else {
        (0, top as i32)
    }
}

/// Draws the home screen.
pub fn home_screen(formatted_time: &str) -> (ops: Vec<DrawOp>)
    ensures
        painted(ops@) == home_screen_ops(formatted_time@),
{
    let mut ops: Vec<DrawOp> = Vec::new();
    put(&mut ops, text_op(String::from_str(formatted_time), 1, 1));
    extend(&mut ops, draw_wifi_icon());
    let welcome_text: &str = "Welcome!";
    proof {
        reveal_strlit("Welcome!");
    }
    let corner: (i32, i32) = centered(welcome_text);
    put(&mut ops, text_op(String::from_str(welcome_text), corner.0, corner.1));
    put(&mut ops, DrawOp::Flush);
    assert(painted(ops@) =~= home_screen_ops(formatted_time@));
    ops
}

/// The text of the mark in front of a menu entry.
fn mark(selected: bool) -> (text: &'static str)
    ensures
        text@ == entry_mark(selected),
{
    if selected {
        "> "
    } else {
        " "
    }
}

/// Draws the menu with the marks as given.
pub fn menu_screen(settings_selected: bool, status_selected: bool, exit_selected: bool) -> (ops:
    Vec<DrawOp>)
    ensures
        painted(ops@) == menu_screen_ops(settings_selected, status_selected, exit_selected),
{
    let y_level: i32 = 15;
    let mut ops: Vec<DrawOp> = Vec::new();
    ops.push(text_op(joined(mark(settings_selected), "Settings"), 10, y_level));
    ops.push(text_op(joined(mark(status_selected), "Status"), 10, y_level + 8));
    ops.push(text_op(joined(mark(exit_selected), "Exit"), 10, y_level + 16));
    ops.push(DrawOp::Flush);
    assert(painted(ops@) =~= menu_screen_ops(settings_selected, status_selected, exit_selected));
    ops
}

/// Draws the settings screen.
pub fn draw_settings_screen() -> (ops: Vec<DrawOp>)
    ensures
        painted(ops@) == settings_screen_ops(),
{
    let mut ops: Vec<DrawOp> = Vec::new();
    ops.push(text_op(String::from_str("Settings"), 10, 10));
    ops.push(text_op(String::from_str("Short: Back"), 10, 26));
    ops.push(text_op(String::from_str("Long: Face"), 10, 34));
    ops.push(DrawOp::Flush);
    assert(painted(ops@) =~= settings_screen_ops());
    ops
}

/// Draws the status screen. The temperature comes as the text to show.
pub fn draw_status_screen(
    temperature: &str,
    weather_condition: &str,
    humidity: u64,
    formatted_time: &str,
) -> (ops: Vec<DrawOp>)
    ensures
        painted(ops@) == status_screen_ops(
            temperature@,
            weather_condition@,
            humidity as nat,
            formatted_time@,
        ),
{
    let mut ops: Vec<DrawOp> = Vec::new();
    ops.push(text_op(String::from_str("Status"), 10, 7));
    let mut temperature_line: String = joined("Temperature: ", temperature);
    temperature_line.append("°C");
    ops.push(text_op(temperature_line, 10, 26));
    ops.push(text_op(joined("Condition: ", weather_condition), 10, 34));
    let mut humidity_line: String = joined("Humidity: ", decimal(humidity).as_str());
    humidity_line.append("%");
    ops.push(text_op(humidity_line, 10, 42));
    ops.push(text_op(joined("Time: ", formatted_time), 10, 50));
    ops.push(DrawOp::Flush);
    assert(painted(ops@) =~= status_screen_ops(
        temperature@,
        weather_condition@,
        humidity as nat,
        formatted_time@,
    ));
    ops
}

/// Draws the exit screen.
pub fn draw_exit_screen() -> (ops: Vec<DrawOp>)
    ensures
        painted(ops@) == exit_screen_ops(),
{
    let mut ops: Vec<DrawOp> = Vec::new();
    ops.push(text_op(String::from_str("Exit"), 10, 10));
    ops.push(text_op(String::from_str("Short: Back"), 10, 26));
    ops.push(text_op(String::from_str("Long: Face"), 10, 34));
    ops.push(DrawOp::Flush);
    assert(painted(ops@) =~= exit_screen_ops());
    ops
}

/// Draws the face.
pub fn face_screen(eyes_open: bool, expression: bool) -> (ops: Vec<DrawOp>)
    ensures
        painted(ops@) == face_ops(eyes_open, expression),
{
    let mut ops: Vec<DrawOp> = Vec::new();
    put(&mut ops, DrawOp::Clear);
    if eyes_open {
        put(&mut ops, line_op(40, 20, 40, 36));
        put(&mut ops, line_op(88, 20, 88, 36));
    } else {
        put(&mut ops, line_op(34, 28, 46, 28));
        put(&mut ops, line_op(82, 28, 94, 28));
    }
    if expression {
        put(&mut ops, line_op(52, 48, 58, 52));
        put(&mut ops, line_op(58, 52, 70, 52));
        put(&mut ops, line_op(70, 52, 76, 48));
    } else {
        put(&mut ops, line_op(52, 50, 76, 50));
    }
    put(&mut ops, DrawOp::Flush);
    assert(painted(ops@) =~= face_ops(eyes_open, expression));
    ops
}

/// Draws the screen `ui_state` for one tick.
///
/// In the menu `option_index` is the selected entry, an index below
/// [`MENU_ENTRIES`].
pub fn frame(
    ui_state: UiState,
    option_index: u8,
    btn_down: bool,
    formatted_time: &str,
    weather: &WeatherReport,
) -> (ops: Vec<DrawOp>)
    requires
        ui_state == UiState::Menu ==> option_index < MENU_ENTRIES,
    ensures
        painted(ops@) == frame_ops(ui_state, option_index, btn_down, formatted_time@, weather@),
{
    let mut ops: Vec<DrawOp> = Vec::new();
    match ui_state {
        UiState::Home => {
            put(&mut ops, DrawOp::Clear);
            extend(&mut ops, home_screen(formatted_time));
        },
        UiState::Menu => {
            if !btn_down {
                put(&mut ops, DrawOp::Clear);
                extend(
                    &mut ops,
                    menu_screen(option_index == 0, option_index == 1, option_index == 2),
                );
                put(&mut ops, DrawOp::Flush);
            }
        },
        UiState::Settings => {
            put(&mut ops, DrawOp::Clear);
            extend(&mut ops, draw_settings_screen());
        },
        UiState::Status => {
            put(&mut ops, DrawOp::Clear);
            extend(
                &mut ops,
                draw_status_screen(
                    weather.temperature.as_str(),
                    weather.condition.as_str(),
                    weather.humidity,
                    formatted_time,
                ),
            );
        },
        UiState::Exit => {
            put(&mut ops, DrawOp::Clear);
            extend(&mut ops, draw_exit_screen());
        },
    }
    assert(painted(ops@) =~= frame_ops(
        ui_state,
        option_index,
        btn_down,
        formatted_time@,
        weather@,
    ));
    ops
}

} // verus!
