//! The normalised light model handed to callers.

use vstd::prelude::*;
use crate::text::{is_prefix, starts_with, str_eq};

verus! {

/// Largest brightness level a light accepts.
pub const MAX_BRIGHTNESS: u8 = 254;

/// One light as decoded from the gateway.
#[derive(Debug, Clone)]
pub struct LightInfo {
    pub id: u64,
    pub name: String,
    pub on: bool,
    pub brightness: u8,
    pub color_hex: Option<String>,
    pub reachable: bool,
}

/// A light as shown to the user; a private snapshot of a `LightInfo`.
#[derive(Debug, Clone)]
pub struct Light {
    pub id: u64,
    pub name: String,
    pub on: bool,
    /// 0 to 254.
    pub brightness: u8,
    /// Colour as a hex triplet, such as "f1e0b5".
    pub color_hex: Option<String>,
    pub reachable: bool,
}

impl LightInfo {
    /// The brightness lies within 0..=254.
    pub open spec fn wf(&self) -> bool {
        self.brightness <= MAX_BRIGHTNESS
    }
}

/// View of an optional string as an optional character sequence.
pub open spec fn opt_view(s: Option<String>) -> Option<Seq<char>> {
    match s {
        Some(t) => Some(t@),
        None => None,
    }
}

/// The light's fields equal those of the decoded record.
pub open spec fn light_matches(l: Light, info: LightInfo) -> bool {
    &&& l.id == info.id
    &&& l.name@ == info.name@
    &&& l.on == info.on
    &&& l.brightness == info.brightness
    &&& opt_view(l.color_hex) == opt_view(info.color_hex)
    &&& l.reachable == info.reachable
}

impl From<LightInfo> for Light {
    fn from(info: LightInfo) -> (r: Light)
        ensures
            light_matches(r, info),
            info.wf() ==> r.wf(),
    {
        Light {
            id: info.id,
            name: info.name,
            on: info.on,
            brightness: info.brightness,
            color_hex: info.color_hex,
            reachable: info.reachable,
        }
    }
}

impl vstd::std_specs::convert::FromSpecImpl<LightInfo> for Light {
    open spec fn obeys_from_spec() -> bool {
        true
    }

    open spec fn from_spec(info: LightInfo) -> Light {
        Light {
            id: info.id,
            name: info.name,
            on: info.on,
            brightness: info.brightness,
            color_hex: info.color_hex,
            reachable: info.reachable,
        }
    }
}

/// Brightness 0..=254 as a rounded percentage.
pub open spec fn percent_of(b: int) -> int {
    (100 * b + 127) / 254
}

/// A brightness moved by `delta` and clamped to 0..=254.
pub open spec fn clamp_brightness(b: int, delta: int) -> int {
    if b + delta < 0 {
        0
    } else if b + delta > 254 {
        254
    } else {
        b + delta
    }
}

/// The label shown for a colour: the three named temperatures, then a guess
/// by prefix, and nothing when the light has no colour.
pub open spec fn temp_label(hex: Option<Seq<char>>) -> Seq<char> {
    match hex {
        None => ""@,
        Some(h) => if h == "f5faf6"@ {
            "cold"@
        } else if h == "f1e0b5"@ {
            "neutral"@
        } else if h == "efd275"@ {
            "warm"@
        } else if is_prefix("f5"@, h) {
            "cold"@
        } else if is_prefix("efd"@, h) {
            "warm"@
        } else {
            "neutral"@
        },
    }
}

/// Brightness `b` moved by `delta`, clamped to the range a light accepts.
pub fn adjust_brightness(b: u8, delta: i16) -> (r: u8)
    ensures
        r as int == clamp_brightness(b as int, delta as int),
        r <= MAX_BRIGHTNESS,
{
    let v: i32 = b as i32 + delta as i32;
    if v < 0 {
        0
    } else if v > 254 {
        254
    } else {
        v as u8
    }
}

impl Light {
    /// The brightness lies within 0..=254.
    pub open spec fn wf(&self) -> bool {
        self.brightness <= MAX_BRIGHTNESS
    }

    /// Brightness as a percentage (0 to 100).
    pub fn brightness_percent(&self) -> (r: u8)
        requires
            self.wf(),
        ensures
            r as int == percent_of(self.brightness as int),
            r <= 100,
    {
        ((100 * self.brightness as u32 + 127) / 254) as u8
    }

    /// Colour temperature label ("cold", "neutral", "warm"), or "" without a colour.
    pub fn color_temp_label(&self) -> (r: &str)
        ensures
            r@ == temp_label(opt_view(self.color_hex)),
    {
        match &self.color_hex {
            None => "",
            Some(h) => {
                let h: &str = h.as_str();
                if str_eq(h, "f5faf6") {
                    "cold"
                } else if str_eq(h, "f1e0b5") {
                    "neutral"
                } else if str_eq(h, "efd275") {
                    "warm"
                } else if starts_with(h, "f5") {
                    "cold"
                } else if starts_with(h, "efd") {
                    "warm"
                } else {
                    "neutral"
                }
            },
        }
    }

    /// Moves the brightness by `delta`, clamped to 0..=254; the light counts
    /// as on exactly when the new brightness is above zero.
    pub fn dim(&mut self, delta: i16) -> (r: u8)
        ensures
            final(self).wf(),
            r as int == clamp_brightness(old(self).brightness as int, delta as int),
            final(self).brightness == r,
            final(self).on == (r > 0),
            final(self).id == old(self).id,
            final(self).name == old(self).name,
            final(self).color_hex == old(self).color_hex,
            final(self).reachable == old(self).reachable,
    {
        let b = adjust_brightness(self.brightness, delta);
        self.brightness = b;
        self.on = b > 0;
        b
    }
}

/// Whatever the starting brightness and the delta, the result of a dim
/// step lies within 0..=254, and it is 0 or 254 exactly when the sum
/// leaves that range on the low or the high side.
pub proof fn clamp_stays_in_range(b: int, delta: int)
    requires
        0 <= b <= 254,
    ensures
        0 <= clamp_brightness(b, delta) <= 254,
        b + delta <= 0 ==> clamp_brightness(b, delta) == 0,
        b + delta >= 254 ==> clamp_brightness(b, delta) == 254,
        0 <= b + delta <= 254 ==> clamp_brightness(b, delta) == b + delta,
{
}

} // verus!
