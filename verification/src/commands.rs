//! The rules behind the application's commands that need no window to decide.

use crate::settings::{AppSettings, SettingsView};
use crate::text::{blank, is_blank, result_text, trim_end_matches, without_trailing};
use vstd::prelude::*;

verus! {

// ---------------------------------------------------------------------------
// Connection test
// ---------------------------------------------------------------------------
/// What is missing in settings that cannot be used to reach a provider, if
/// anything: the key is looked at first, then the base address, then the model.
pub open spec fn missing_setting(settings: SettingsView) -> Option<Seq<char>> {
    if blank(settings.api_key) {
        Some("Missing API key"@)
    } else if blank(settings.base_url) {
        Some("Missing base URL"@)
    } else if blank(settings.model) {
        Some("Missing model"@)
    } else {
        None
    }
}

/// Checks that settings name a key, a base address and a model before a
/// connection is tried.
pub fn check_connection_settings(settings: &AppSettings) -> (checked: Result<(), String>)
    ensures
        match missing_setting(settings@) {
            Some(message) => checked matches Err(reason) && reason@ == message,
            None => checked is Ok,
        },
{
    if is_blank(settings.api_key.as_str()) {
        return Err(String::from_str("Missing API key"));
    }
    if is_blank(settings.base_url.as_str()) {
        return Err(String::from_str("Missing base URL"));
    }
    if is_blank(settings.model.as_str()) {
        return Err(String::from_str("Missing model"));
    }
    Ok(())
}

/// The address that lists a provider's models: the base address without
/// trailing slashes, followed by `/models`.
pub open spec fn models_address(base_url: Seq<char>) -> Seq<char> {
    without_trailing(base_url, '/') + "/models"@
}

/// Builds the address that lists a provider's models.
pub fn models_url(base_url: &str) -> (url: String)
    ensures
        url@ == models_address(base_url@),
{
    String::from_str(trim_end_matches(base_url, '/')).concat("/models")
}

// ---------------------------------------------------------------------------
// Window geometry
// ---------------------------------------------------------------------------
/// Whether one rectangle lies within another, edges included.
pub open spec fn rect_within(
    left: int,
    top: int,
    right: int,
    bottom: int,
    outer_left: int,
    outer_top: int,
    outer_right: int,
    outer_bottom: int,
) -> bool {
    left >= outer_left && top >= outer_top && right <= outer_right && bottom <= outer_bottom
}

/// Tells whether the rectangle `(left, top, right, bottom)` lies inside the outer one.
pub fn rect_inside_rect(
    left: i32,
    top: i32,
    right: i32,
    bottom: i32,
    outer_left: i32,
    outer_top: i32,
    outer_right: i32,
    outer_bottom: i32,
) -> (inside: bool)
    ensures
        inside == rect_within(
            left as int,
            top as int,
            right as int,
            bottom as int,
            outer_left as int,
            outer_top as int,
            outer_right as int,
            outer_bottom as int,
        ),
{
    left >= outer_left && top >= outer_top && right <= outer_right && bottom <= outer_bottom
}

/// The work area to place a window in: the platform's, if it reports one
/// that lies within the monitor, else the monitor's own bounds.
pub fn choose_work_area(
    monitor: (i32, i32, i32, i32),
    platform: Option<(i32, i32, i32, i32)>,
) -> (area: (i32, i32, i32, i32))
    ensures
        area == match platform {
            Some(reported) => if rect_within(
                reported.0 as int,
                reported.1 as int,
                reported.2 as int,
                reported.3 as int,
                monitor.0 as int,
                monitor.1 as int,
                monitor.2 as int,
                monitor.3 as int,
            ) {
                reported
            } else {
                monitor
            },
            None => monitor,
        },
{
    match platform {
        Some(reported) => {
            if rect_inside_rect(
                reported.0,
                reported.1,
                reported.2,
                reported.3,
                monitor.0,
                monitor.1,
                monitor.2,
                monitor.3,
            ) {
                reported
            } else {
                monitor
            }
        },
        None => monitor,
    }
}

/// How wide the zone around the pill is in which the cursor wakes the window.
pub const HOT_ZONE_WIDTH: i64 = 110;

/// How high that zone is.
pub const HOT_ZONE_HEIGHT: i64 = 40;

/// Half of `value`, rounded towards zero.
pub open spec fn half(value: int) -> int {
    if value >= 0 {
        value / 2
    } else {
        -((-value) / 2)
    }
}

/// Whether the cursor is in the hot zone of a window with the given edges:
/// a zone [`HOT_ZONE_WIDTH`] wide, centred horizontally, and
/// [`HOT_ZONE_HEIGHT`] high above the bottom edge, borders included.
pub open spec fn in_hot_zone(left: int, right: int, bottom: int, x: int, y: int) -> bool {
    let zone_left = left + half(right - left - HOT_ZONE_WIDTH);
    &&& zone_left <= x <= zone_left + HOT_ZONE_WIDTH
    &&& bottom - HOT_ZONE_HEIGHT <= y <= bottom
}

/// Tells whether the cursor at `(x, y)` is in the hot zone of the window.
pub fn cursor_in_hot_zone(left: i32, right: i32, bottom: i32, x: i32, y: i32) -> (inside: bool)
    ensures
        inside == in_hot_zone(left as int, right as int, bottom as int, x as int, y as int),
{
    let window_width: i64 = right as i64 - left as i64;
    let zone_left: i64 = left as i64 + (window_width - HOT_ZONE_WIDTH) / 2;
    let zone_right: i64 = zone_left + HOT_ZONE_WIDTH;
    let zone_top: i64 = bottom as i64 - HOT_ZONE_HEIGHT;
    let cursor_x: i64 = x as i64;
    let cursor_y: i64 = y as i64;
    cursor_x >= zone_left && cursor_x <= zone_right && cursor_y >= zone_top && cursor_y
        <= bottom as i64
}

/// How many polls pass between two refreshes of the window's attributes.
pub const WATCHDOG_INTERVAL: u32 = 600;

/// Counts one poll and tells whether the window's attributes are due for a
/// refresh: every [`WATCHDOG_INTERVAL`]th poll, the counter wrapping around.
pub fn watchdog_tick(tick: u32) -> (next: (u32, bool))
    ensures
        next.0 == if tick == u32::MAX {
            0
        } else {
            tick + 1
        },
        next.1 == (next.0 % WATCHDOG_INTERVAL == 0),
{
    let advanced = if tick == u32::MAX {
        0
    } else {
        tick + 1
    };
    (advanced, advanced % WATCHDOG_INTERVAL == 0)
}

/// What a connection test reports for the provider's answer to the model
/// listing: a rejected key, a key without permission, any other refusal with
/// status and body quoted, or success.
pub open spec fn connection_verdict_of(code: u16, status: Seq<char>, body: Seq<char>) -> Result<
    Seq<char>,
    Seq<char>,
> {
    if code == 401 {
        Err("Authentication failed \u{2014} check your API key."@)
    } else if code == 403 {
        Err("Access denied \u{2014} your API key may lack permissions."@)
    } else if !(200 <= code <= 299) {
        Err("API returned "@ + status + ": "@ + body)
    } else {
        Ok("Connection successful \u{2014} API key is valid."@)
    }
}

/// Judges the provider's answer to a connection test by its status code.
pub fn connection_verdict(code: u16, status: &str, body: &str) -> (verdict: Result<String, String>)
    ensures
        result_text(verdict) == connection_verdict_of(code, status@, body@),
{
    if code == 401 {
        Err(String::from_str("Authentication failed \u{2014} check your API key."))
    } else if code == 403 {
        Err(String::from_str("Access denied \u{2014} your API key may lack permissions."))
    } else if code < 200 || code > 299 {
        Err(String::from_str("API returned ").concat(status).concat(": ").concat(body))
    } else {
        Ok(String::from_str("Connection successful \u{2014} API key is valid."))
    }
}

} // verus!
