//! The console line of an event.
//!
//! Printing the line and appending it to a log file is the caller's part;
//! what the line holds is decided here. The colour code comes from the
//! `anstyle` crate, the text of the time from `chrono`.

use crate::clock::{display_time, displayed_time};
use crate::device_info::{DeviceEventType, UsbDeviceInfo, UsbDeviceInfoView};
use crate::text::{text_of, text_or};
use vstd::prelude::*;

verus! {

/// The colours a console line can have.
#[derive(Clone, Copy, Debug, PartialEq, Eq, Structural)]
pub enum LineColor {
    Green,
    Red,
}

/// The escape sequence that switches the terminal's foreground to `color`;
/// empty where there is no colour.
pub open spec fn color_code(color: Option<LineColor>) -> Seq<char> {
    match color {
        Some(LineColor::Green) => seq!['\x1b', '[', '3', '2', 'm'],
        Some(LineColor::Red) => seq!['\x1b', '[', '3', '1', 'm'],
        None => Seq::empty(),
    }
}

/// Renders an `anstyle::Style` that sets nothing but the foreground colour,
/// to `AnsiColor::Green` or `AnsiColor::Red`, or sets nothing at all. For
/// such a style `anstyle` writes the colour's escape sequence, `ESC [ 3 2 m`
/// for green and `ESC [ 3 1 m` for red, and writes nothing for the style
/// without a colour.
#[verifier::external_body]
fn render_style(color: Option<LineColor>) -> (code: String)
    ensures
        code@ == color_code(color),
{
    let foreground = match color {
        Some(LineColor::Green) => Some(anstyle::Color::Ansi(anstyle::AnsiColor::Green)),
        Some(LineColor::Red) => Some(anstyle::Color::Ansi(anstyle::AnsiColor::Red)),
        None => None,
    };
    anstyle::Style::new().fg_color(foreground).render().to_string()
}

/// The colour of the line for an event of kind `event_type`: green for a
/// connection and red for a disconnection, none where colours are off.
pub open spec fn event_color(colorful: bool, event_type: DeviceEventType) -> Option<LineColor> {
    if colorful {
        match event_type {
            DeviceEventType::Connected => Some(LineColor::Green),
            DeviceEventType::Disconnected => Some(LineColor::Red),
        }
    } else {
        None
    }
}

/// The icon that opens the line for an event of kind `event_type`.
pub open spec fn event_icon(event_type: DeviceEventType) -> Seq<char> {
    match event_type {
        DeviceEventType::Connected => "🔌"@,
        DeviceEventType::Disconnected => "❌"@,
    }
}

/// The console line of `event`, where `time` is the text of its timestamp:
/// the icon, a blank, the colour code, and then
/// `<name> | VID: <vid> PID: <pid> | Serial: <serial> | Event: <kind> | <time>`
/// with `-` for a missing serial number.
pub open spec fn console_line(event: UsbDeviceInfoView, colorful: bool, time: Seq<char>) -> Seq<
    char,
> {
    event_icon(event.event_type) + " "@ + color_code(event_color(colorful, event.event_type))
        + event.device_name + " | VID: "@ + event.vendor_id + " PID: "@ + event.product_id
        + " | Serial: "@ + text_or(event.serial_number, "-"@) + " | Event: "@
        + event.event_type.name() + " | "@ + time
}

/// Formats the console line of `event`, given the text of its timestamp.
pub fn format_event_with(event: &UsbDeviceInfo, colorful: bool, time: &str) -> (line: String)
    ensures
        line@ == console_line(event@, colorful, time@),
{
    let color = if colorful {
        match event.event_type {
            DeviceEventType::Connected => Some(LineColor::Green),
            DeviceEventType::Disconnected => Some(LineColor::Red),
        }
    } else {
        None
    };
    let mut line = match event.event_type {
        DeviceEventType::Connected => String::from_str("🔌"),
        DeviceEventType::Disconnected => String::from_str("❌"),
    };
    line.append(" ");
    let code = render_style(color);
    line.append(code.as_str());
    line.append(event.device_name.as_str());
    line.append(" | VID: ");
    line.append(event.vendor_id.as_str());
    line.append(" PID: ");
    line.append(event.product_id.as_str());
    line.append(" | Serial: ");
    match &event.serial_number {
        Some(serial) => line.append(serial.as_str()),
        None => line.append("-"),
    }
    line.append(" | Event: ");
    line.append(event.event_type.label());
    line.append(" | ");
    line.append(time);
    line
}

/// Formats the console line of `event`, with its timestamp as `chrono`
/// displays it. Returns `None` where the timestamp lies outside the range of
/// times that can be shown.
pub fn format_event(event: &UsbDeviceInfo, colorful: bool) -> (line: Option<String>)
    ensures
        text_of(line) == match displayed_time(event.timestamp.secs, event.timestamp.nanos) {
            Some(time) => Some(console_line(event@, colorful, time)),
            None => None,
        },
{
    match display_time(event.timestamp) {
        Some(time) => Some(format_event_with(event, colorful, time.as_str())),
        None => None,
    }
}

} // verus!
