//! Color resolution for bars: an explicit per-series override map backed by
//! a fixed default palette indexed by series id.

use vstd::prelude::*;

use std::collections::HashMap;

verus! {

/// An opaque sRGB color with 8-bit channels.
#[derive(Debug, Clone, Copy, PartialEq, Eq, Structural)]
pub struct Rgb {
    pub red: u8,
    pub green: u8,
    pub blue: u8,
}

/// The number of entries in the default palette.
pub const PALETTE_SIZE: u32 = 11;

/// The default palette, by index.
pub open spec fn spec_standard_color(i: int) -> Rgb {
    if i == 0 {
        Rgb { red: 0x58, green: 0x99, blue: 0xDA }
    } else if i == 1 {
        Rgb { red: 0xE8, green: 0x74, blue: 0x3B }
    } else if i == 2 {
        Rgb { red: 0x19, green: 0xA9, blue: 0x79 }
    } else if i == 3 {
        Rgb { red: 0xED, green: 0x4A, blue: 0x7B }
    } else if i == 4 {
        Rgb { red: 0x94, green: 0x5E, blue: 0xCF }
    } else if i == 5 {
        Rgb { red: 0x13, green: 0xA4, blue: 0xB4 }
    } else if i == 6 {
        Rgb { red: 0x52, green: 0x5D, blue: 0xF4 }
    } else if i == 7 {
        Rgb { red: 0xBF, green: 0x39, blue: 0x9E }
    } else if i == 8 {
        Rgb { red: 0x6C, green: 0x88, blue: 0x93 }
    } else if i == 9 {
        Rgb { red: 0xEE, green: 0x68, blue: 0x68 }
    } else {
        Rgb { red: 0x2F, green: 0x64, blue: 0x97 }
    }
}

/// The default palette entry for index `i`.
pub fn standard_color(i: u32) -> (r: Rgb)
    requires
        i < PALETTE_SIZE,
    ensures
        r == spec_standard_color(i as int),
{
    if i == 0 {
        Rgb { red: 0x58, green: 0x99, blue: 0xDA }
    } else if i == 1 {
        Rgb { red: 0xE8, green: 0x74, blue: 0x3B }
    } else if i == 2 {
        Rgb { red: 0x19, green: 0xA9, blue: 0x79 }
    } else if i == 3 {
        Rgb { red: 0xED, green: 0x4A, blue: 0x7B }
    } else if i == 4 {
        Rgb { red: 0x94, green: 0x5E, blue: 0xCF }
    } else if i == 5 {
        Rgb { red: 0x13, green: 0xA4, blue: 0xB4 }
    } else if i == 6 {
        Rgb { red: 0x52, green: 0x5D, blue: 0xF4 }
    } else if i == 7 {
        Rgb { red: 0xBF, green: 0x39, blue: 0x9E }
    } else if i == 8 {
        Rgb { red: 0x6C, green: 0x88, blue: 0x93 }
    } else if i == 9 {
        Rgb { red: 0xEE, green: 0x68, blue: 0x68 }
    } else {
        Rgb { red: 0x2F, green: 0x64, blue: 0x97 }
    }
}

/// The color a series draws with: its entry in the override map when one
/// exists, the default palette entry at `id` modulo the palette size
/// otherwise.
pub open spec fn spec_resolve_color(overrides: Map<u32, Rgb>, id: u32) -> Rgb {
    if overrides.contains_key(id) {
        overrides[id]
    } else {
        spec_standard_color((id % PALETTE_SIZE) as int)
    }
}

/// Resolves the color for series `id`.
pub fn resolve_color(overrides: &HashMap<u32, Rgb>, id: u32) -> (r: Rgb)
    ensures
        r == spec_resolve_color(overrides@, id),
{
    proof {
        broadcast use vstd::std_specs::hash::group_hash_axioms;

    }
    match overrides.get(&id) {
        Some(c) => *c,
        None => standard_color(id % PALETTE_SIZE),
    }
}

} // verus!
