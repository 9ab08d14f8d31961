//! Which audio component the drivers open: Apple's default output unit.

use vstd::prelude::*;

verus! {

/// Component type of output units: the four-character code `'auou'`.
pub const COMPONENT_TYPE_OUTPUT: libc::c_uint = 0x61756f75;

/// Component subtype of the default output unit: the four-character code `'def '`.
pub const COMPONENT_SUB_TYPE_DEFAULT_OUTPUT: libc::c_uint = 0x64656620;

/// Manufacturer code of Apple's units: the four-character code `'appl'`.
pub const AUDIO_UNIT_MANUFACTURER_APPLE: u32 = 0x6170706c;

/// The number a four-character code stands for: its characters as the bytes
/// of a big-endian 32-bit word.
pub open spec fn four_char_code(a: char, b: char, c: char, d: char) -> int {
    (a as int) * 0x1000000 + (b as int) * 0x10000 + (c as int) * 0x100 + (d as int)
}

/// What a component lookup searches for.
#[derive(Clone, Copy, Debug, PartialEq, Eq)]
pub struct ComponentDescription {
    pub component_type: u32,
    pub component_sub_type: u32,
    pub component_manufacturer: u32,
    pub component_flags: u32,
    pub component_flags_mask: u32,
}

/// The description of Apple's default output unit, with no flags required.
pub fn default_output_description() -> (d: ComponentDescription)
    ensures
        d.component_type == four_char_code('a', 'u', 'o', 'u'),
        d.component_sub_type == four_char_code('d', 'e', 'f', ' '),
        d.component_manufacturer == four_char_code('a', 'p', 'p', 'l'),
        d.component_flags == 0,
        d.component_flags_mask == 0,
{
    ComponentDescription {
        component_type: COMPONENT_TYPE_OUTPUT,
        component_sub_type: COMPONENT_SUB_TYPE_DEFAULT_OUTPUT,
        component_manufacturer: AUDIO_UNIT_MANUFACTURER_APPLE,
        component_flags: 0,
        component_flags_mask: 0,
    }
}

} // verus!
