//! Rules of the light panel: moving the selection, counting lights, and
//! stepping through the colour temperatures.

use vstd::prelude::*;
use crate::light::{opt_view, Light};
use crate::text::str_eq;

verus! {

/// Selection after moving down one row, staying on the last row.
pub fn select_next(selected: usize, len: usize) -> (r: usize)
    ensures
        len == 0 ==> r == selected,
        len > 0 ==> r == if selected + 1 < len { selected + 1 } else { (len - 1) as int },
{
    if len == 0 {
        selected
    } else if selected < len - 1 {
        selected + 1
    } else {
        len - 1
    }
}

/// Selection after moving up one row, staying on the first row.
pub fn select_prev(selected: usize) -> (r: usize)
    ensures
        r == if selected > 0 { selected - 1 } else { 0 },
{
    if selected > 0 {
        selected - 1
    } else {
        0
    }
}

/// Selection kept on the list after it was replaced by one of length `len`.
pub fn clamp_selection(selected: usize, len: usize) -> (r: usize)
    ensures
        selected < len ==> r == selected,
        selected >= len ==> r == if len > 0 { len - 1 } else { 0 },
{
    if selected < len {
        selected
    } else if len > 0 {
        len - 1
    } else {
        0
    }
}

/// Number of lights in `lights` whose power is `on`.
pub open spec fn count_with_power(lights: Seq<Light>, on: bool) -> nat
    decreases lights.len(),
{
    if lights.len() == 0 {
        0
    } else {
        count_with_power(lights.drop_last(), on) + if lights.last().on == on { 1nat } else { 0nat }
    }
}

proof fn count_bounded(lights: Seq<Light>, on: bool)
    ensures
        count_with_power(lights, on) <= lights.len(),
    decreases lights.len(),
{
    if lights.len() > 0 {
        count_bounded(lights.drop_last(), on);
    }
}

/// Number of lights whose power is `on`.
pub fn count_power(lights: &Vec<Light>, on: bool) -> (r: usize)
    ensures
        r == count_with_power(lights@, on),
{
    let mut n: usize = 0;
    let mut i: usize = 0;
    while i < lights.len()
        invariant
            i <= lights@.len(),
            n == count_with_power(lights@.subrange(0, i as int), on),
        decreases lights@.len() - i,
    {
        proof {
            assert(lights@.subrange(0, i + 1).drop_last() =~= lights@.subrange(0, i as int));
            count_bounded(lights@.subrange(0, i as int), on);
        }
        if lights[i].on == on {
            n = n + 1;
        }
        i = i + 1;
    }
    assert(lights@.subrange(0, lights@.len() as int) =~= lights@);
    n
}

/// The colour temperatures, coldest first.
pub open spec fn temp_hex(i: int) -> Seq<char> {
    if i == 0 {
        "f5faf6"@
    } else if i == 1 {
        "f1e0b5"@
    } else {
        "efd275"@
    }
}

pub open spec fn temp_name(i: int) -> Seq<char> {
    if i == 0 {
        "cold"@
    } else if i == 1 {
        "neutral"@
    } else {
        "warm"@
    }
}

/// Position of a colour among the temperatures, if it is one of them.
pub open spec fn temp_index(hex: Option<Seq<char>>) -> Option<int> {
    match hex {
        Some(h) => if h == temp_hex(0) {
            Some(0)
        } else if h == temp_hex(1) {
            Some(1)
        } else if h == temp_hex(2) {
            Some(2)
        } else {
            None
        },
        None => None,
    }
}

/// The temperature one step warmer or colder, staying at the ends; from a
/// colour that is none of them, the warmest or the coldest.
pub open spec fn stepped_temp(hex: Option<Seq<char>>, warmer: bool) -> int {
    match temp_index(hex) {
        Some(i) => if warmer {
            if i + 1 > 2 { 2 } else { i + 1 }
        } else {
            if i > 0 { i - 1 } else { 0 }
        },
        None => if warmer { 2 } else { 0 },
    }
}

/// Hex colour of temperature `i` (0 cold, 1 neutral, 2 warm).
pub fn temp_color(i: usize) -> (r: &'static str)
    requires
        i < 3,
    ensures
        r@ == temp_hex(i as int),
{
    if i == 0 {
        "f5faf6"
    } else if i == 1 {
        "f1e0b5"
    } else {
        "efd275"
    }
}

/// Label of temperature `i`.
pub fn temp_label_at(i: usize) -> (r: &'static str)
    requires
        i < 3,
    ensures
        r@ == temp_name(i as int),
{
    if i == 0 {
        "cold"
    } else if i == 1 {
        "neutral"
    } else {
        "warm"
    }
}

/// Index of the temperature a light moves to when cycled.
pub fn step_color_temp(light: &Light, warmer: bool) -> (r: usize)
    ensures
        r as int == stepped_temp(opt_view(light.color_hex), warmer),
        r < 3,
{
    let current: Option<usize> = match &light.color_hex {
        Some(h) => {
            let h: &str = h.as_str();
            if str_eq(h, temp_color(0)) {
                Some(0)
            } else if str_eq(h, temp_color(1)) {
                Some(1)
            } else if str_eq(h, temp_color(2)) {
                Some(2)
            } else {
                None
            }
        },
        None => None,
    };
    match current {
        Some(i) => if warmer {
            if i + 1 > 2 { 2 } else { i + 1 }
        } else {
            if i > 0 { i - 1 } else { 0 }
        },
        None => if warmer { 2 } else { 0 },
    }
}

} // verus!
