//! The behavioural signal that goes with an order: where the button was
//! clicked and how long the page had been open.

use vstd::prelude::*;
use crate::utils::random_in;

verus! {

/// Which button a click is reported on.
#[derive(Clone, Copy, Debug, PartialEq, Eq, Structural)]
pub enum ClickPositionType {
    /// The confirm button of the desktop page.
    PcConfirm,
    /// The confirm button of the mobile page.
    MobileConfirm,
    /// The "try again" button in the middle of the mobile page.
    RetryButton,
}

/// Horizontal position of the desktop confirm button.
pub const PC_CONFIRM_X: i32 = 1131;

/// Vertical position of the desktop confirm button.
pub const PC_CONFIRM_Y: i32 = 636;

/// Width of the screen where none is given.
pub const DEFAULT_SCREEN_WIDTH: u32 = 1080;

/// Height of the screen where none is given.
pub const DEFAULT_SCREEN_HEIGHT: u32 = 2400;

/// A click as it is reported: where, when the page was opened, and when the
/// click happened, both in milliseconds since the Unix epoch.
#[derive(Clone, Copy, Debug, PartialEq, Eq, Structural)]
pub struct ClickPosition {
    pub x: i64,
    pub y: i64,
    pub origin: u64,
    pub now: u64,
}

/// The button for an order submission: "try again" on the mobile page once
/// retries were needed, else the confirm button of the page in use.
pub open spec fn position_type_spec(need_retry: bool, is_mobile: bool) -> ClickPositionType {
    if need_retry && is_mobile {
        ClickPositionType::RetryButton
    } else if is_mobile {
        ClickPositionType::MobileConfirm
    } else {
        ClickPositionType::PcConfirm
    }
}

pub open spec fn min_u32(a: u32, b: u32) -> u32 {
    if a < b {
        a
    } else {
        b
    }
}

/// How far a click may lie from the middle of its button, in each direction.
pub open spec fn offset_range_spec(position_type: ClickPositionType, screen_width: u32) -> int {
    match position_type {
        ClickPositionType::PcConfirm => 10,
        ClickPositionType::MobileConfirm => min_u32(screen_width, 20) as int / 4,
        ClickPositionType::RetryButton => min_u32(screen_width, 30) as int / 4,
    }
}

/// The shortest time a page is reported to have been open, in milliseconds.
pub open spec fn dwell_low_spec(fast_mode: bool) -> int {
    if fast_mode {
        800
    } else {
        4000
    }
}

/// The time a page is reported to have been open stays below this, in
/// milliseconds.
pub open spec fn dwell_high_spec(fast_mode: bool) -> int {
    if fast_mode {
        4600
    } else {
        12000
    }
}

/// A click near the given point at the given time: within the offset range
/// in both directions, on a page opened a dwell time before the click.
pub open spec fn is_click_near(
    click: ClickPosition,
    base_x: i32,
    base_y: i32,
    range: int,
    fast_mode: bool,
    now_ms: u64,
) -> bool {
    &&& base_x - range <= click.x <= base_x + range
    &&& base_y - range <= click.y <= base_y + range
    &&& click.now == now_ms
    &&& dwell_low_spec(fast_mode) <= click.now - click.origin < dwell_high_spec(fast_mode)
}

/// Picks the button for an order submission.
pub fn position_type_for(need_retry: bool, is_mobile: bool) -> (position_type: ClickPositionType)
    ensures
        position_type == position_type_spec(need_retry, is_mobile),
{
    if need_retry && is_mobile {
        ClickPositionType::RetryButton
    } else if is_mobile {
        ClickPositionType::MobileConfirm
    } else {
        ClickPositionType::PcConfirm
    }
}

/// Says how far a click may lie from the middle of its button.
pub fn offset_range(position_type: ClickPositionType, screen_width: u32) -> (range: i32)
    ensures
        range == offset_range_spec(position_type, screen_width),
        0 <= range <= 10,
{
    match position_type {
        ClickPositionType::PcConfirm => 10,
        ClickPositionType::MobileConfirm => {
            let capped: u32 = if screen_width < 20 { screen_width } else { 20 };
            (capped / 4) as i32
        },
        ClickPositionType::RetryButton => {
            let capped: u32 = if screen_width < 30 { screen_width } else { 30 };
            (capped / 4) as i32
        },
    }
}

/// Draws a click on a button whose middle is at the given point, reported at
/// `now_ms`. The clock must have run for a dwell time since the epoch.
pub fn random_click_position(
    position_type: ClickPositionType,
    fast_mode: bool,
    base_x: i32,
    base_y: i32,
    screen_width: u32,
    now_ms: u64,
) -> (click: ClickPosition)
    requires
        now_ms >= 12000,
    ensures
        is_click_near(
            click,
            base_x,
            base_y,
            offset_range_spec(position_type, screen_width),
            fast_mode,
            now_ms,
        ),
{
    let range: i64 = offset_range(position_type, screen_width) as i64;
    let offset_x: i64 = random_in(-range, range + 1);
    let offset_y: i64 = random_in(-range, range + 1);
    let dwell: i64 = if fast_mode {
        random_in(800, 4600)
    } else {
        random_in(4000, 12000)
    };
    ClickPosition {
        x: base_x as i64 + offset_x,
        y: base_y as i64 + offset_y,
        origin: now_ms - dwell as u64,
        now: now_ms,
    }
}

} // verus!
