//! What the indicator light shows: a palette colour per state, dimmed or
//! brightened by the strength of the signal.

use crate::utils::map_range;
use crate::utils::map_range_value;
use vstd::prelude::*;

verus! {

/// Dimmest setting of the light: still visible.
pub const MIN_BRIGHTNESS: u8 = 2;

/// Brightest setting of the light: far from glaring.
pub const MAX_BRIGHTNESS: u8 = 40;

/// Brightness used when no signal strength can be read.
pub const DEFAULT_BRIGHTNESS: u8 = 5;

/// A colour as three channel intensities.
#[derive(Clone, Copy, Debug, PartialEq, Eq, Structural)]
pub struct Color {
    pub r: u8,
    pub g: u8,
    pub b: u8,
}

/// The states that the light tells apart.
#[derive(Clone, Copy, Debug, PartialEq, Eq, Structural)]
pub enum Indication {
    /// Looking for the wireless network.
    WifiScan,
    /// Link is up, the broker session is not.
    MqttConnecting,
    /// Backing off after giving up a connection.
    Sleeping,
    /// Presence has just been announced.
    MqttPublished,
    /// Link and session are up and the signal is good.
    AllConnected,
    /// Link and session are up but the signal is weak.
    WifiWeakSignal,
    /// The node has stopped for good.
    Fatal,
}

/// What the light shows once the node has stopped for good.
pub open spec fn fatal_color() -> Color {
    Color { r: 100, g: 0, b: 0 }
}

/// The palette: which channels are lit in each state.
pub open spec fn palette(state: Indication) -> Color {
    match state {
        Indication::WifiScan => Color { r: 0, g: 0, b: 1 },
        Indication::MqttConnecting => Color { r: 1, g: 0, b: 1 },
        Indication::Sleeping => Color { r: 1, g: 1, b: 0 },
        Indication::MqttPublished => Color { r: 0, g: 1, b: 1 },
        Indication::AllConnected => Color { r: 0, g: 1, b: 0 },
        Indication::WifiWeakSignal => Color { r: 1, g: 1, b: 1 },
        Indication::Fatal => Color { r: 100, g: 0, b: 0 },
    }
}

/// Whether the brightness in `state` follows the signal strength. While the
/// link is down there is no signal to follow, and the fatal colour is fixed.
pub open spec fn follows_signal(state: Indication) -> bool {
    match state {
        Indication::WifiScan | Indication::Sleeping | Indication::Fatal => false,
        _ => true,
    }
}

/// Brightness for a signal of `rssi` dBm: the minimum at and below `floor`,
/// the maximum at and above `ceiling`, in proportion in between; the default
/// when there is no reading.
pub open spec fn signal_brightness(floor: i32, ceiling: i32, rssi: Option<i32>) -> int {
    match rssi {
        Some(dbm) => map_range_value(
            dbm as int,
            floor as int,
            ceiling as int,
            MIN_BRIGHTNESS as int,
            MAX_BRIGHTNESS as int,
        ),
        None => DEFAULT_BRIGHTNESS as int,
    }
}

/// Brightness of the light in `state` under a signal of `rssi`.
pub open spec fn brightness_in(state: Indication, floor: i32, ceiling: i32, rssi: Option<i32>) -> int {
    if state == Indication::Fatal {
        1
    } else if follows_signal(state) {
        signal_brightness(floor, ceiling, rssi)
    } else {
        DEFAULT_BRIGHTNESS as int
    }
}

/// One channel times a brightness, held at the channel's largest value.
pub open spec fn scaled_channel(channel: u8, brightness: int) -> int {
    if channel * brightness > 255 {
        255
    } else {
        channel * brightness
    }
}

/// A colour with every channel multiplied by `brightness`.
pub open spec fn scaled(base: Color, brightness: int) -> Color {
    Color {
        r: scaled_channel(base.r, brightness) as u8,
        g: scaled_channel(base.g, brightness) as u8,
        b: scaled_channel(base.b, brightness) as u8,
    }
}

/// The colour shown in `state` under a signal of `rssi`.
pub open spec fn displayed(state: Indication, floor: i32, ceiling: i32, rssi: Option<i32>) -> Color {
    scaled(palette(state), brightness_in(state, floor, ceiling, rssi))
}

/// The palette colour of a state.
pub fn base_color(state: Indication) -> (color: Color)
    ensures
        color == palette(state),
{
    match state {
        Indication::WifiScan => Color { r: 0, g: 0, b: 1 },
        Indication::MqttConnecting => Color { r: 1, g: 0, b: 1 },
        Indication::Sleeping => Color { r: 1, g: 1, b: 0 },
        Indication::MqttPublished => Color { r: 0, g: 1, b: 1 },
        Indication::AllConnected => Color { r: 0, g: 1, b: 0 },
        Indication::WifiWeakSignal => Color { r: 1, g: 1, b: 1 },
        Indication::Fatal => Color { r: 100, g: 0, b: 0 },
    }
}

/// Brightness for a signal reading, or the default without one.
pub fn brightness_for(floor: i32, ceiling: i32, rssi: Option<i32>) -> (brightness: u8)
    requires
        floor < ceiling,
    ensures
        brightness == signal_brightness(floor, ceiling, rssi),
        MIN_BRIGHTNESS <= brightness <= MAX_BRIGHTNESS,
        rssi matches Some(dbm) && dbm <= floor ==> brightness == MIN_BRIGHTNESS,
        rssi matches Some(dbm) && dbm >= ceiling ==> brightness == MAX_BRIGHTNESS,
        rssi is None ==> brightness == DEFAULT_BRIGHTNESS,
{
    match rssi {
        Some(dbm) => map_range(dbm, floor, ceiling, MIN_BRIGHTNESS, MAX_BRIGHTNESS),
        None => DEFAULT_BRIGHTNESS,
    }
}

/// One channel of a colour at a brightness; the product stops at 255.
pub fn scale_channel(channel: u8, brightness: u8) -> (scaled: u8)
    ensures
        scaled == scaled_channel(channel, brightness as int),
{
    assert(channel * brightness <= 255 * 255) by (nonlinear_arith)
        requires
            channel <= 255,
            brightness <= 255,
    ;
    let product: u16 = channel as u16 * brightness as u16;
    if product > 255 {
        255
    } else {
        product as u8
    }
}

/// A palette colour at a brightness.
pub fn color_with_brightness(base: Color, brightness: u8) -> (color: Color)
    ensures
        color == scaled(base, brightness as int),
{
    Color {
        r: scale_channel(base.r, brightness),
        g: scale_channel(base.g, brightness),
        b: scale_channel(base.b, brightness),
    }
}

/// The colour to show in `state` while the signal reads `rssi`.
pub fn indicator_color(state: Indication, floor: i32, ceiling: i32, rssi: Option<i32>) -> (color: Color)
    requires
        floor < ceiling,
    ensures
        color == displayed(state, floor, ceiling, rssi),
        state == Indication::Fatal ==> color == fatal_color(),
{
    let base = base_color(state);
    let brightness = match state {
        Indication::Fatal => 1,
        Indication::WifiScan | Indication::Sleeping => DEFAULT_BRIGHTNESS,
        _ => brightness_for(floor, ceiling, rssi),
    };
    color_with_brightness(base, brightness)
}

/// Outside the fatal state every channel of the displayed colour is either
/// dark or lit at the brightness, the brightness lies between the minimum and
/// the maximum, and at least one channel is lit: the light is never off and
/// never driven to a channel's limit.
pub proof fn lemma_displayed_is_visible(state: Indication, floor: i32, ceiling: i32, rssi: Option<i32>)
    requires
        floor < ceiling,
        state != Indication::Fatal,
    ensures
        ({
            let level = brightness_in(state, floor, ceiling, rssi);
            let shown = displayed(state, floor, ceiling, rssi);
            &&& MIN_BRIGHTNESS <= level <= MAX_BRIGHTNESS
            &&& shown.r == 0 || shown.r == level
            &&& shown.g == 0 || shown.g == level
            &&& shown.b == 0 || shown.b == level
            &&& shown.r == level || shown.g == level || shown.b == level
        }),
{
    if rssi is Some {
        crate::utils::lemma_map_range_bounds(
            rssi->Some_0 as int,
            floor as int,
            ceiling as int,
            MIN_BRIGHTNESS as int,
            MAX_BRIGHTNESS as int,
        );
    }
}

/// A stronger signal never gives a dimmer light.
pub proof fn lemma_brightness_monotonic(floor: i32, ceiling: i32, weaker: i32, stronger: i32)
    requires
        floor < ceiling,
        weaker <= stronger,
    ensures
        signal_brightness(floor, ceiling, Some(weaker)) <= signal_brightness(
            floor,
            ceiling,
            Some(stronger),
        ),
{
    crate::utils::lemma_map_range_monotonic(
        weaker as int,
        stronger as int,
        floor as int,
        ceiling as int,
        MIN_BRIGHTNESS as int,
        MAX_BRIGHTNESS as int,
    );
}

} // verus!
