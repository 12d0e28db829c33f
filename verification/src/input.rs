//! Keyboard input as the host hands it over, turned into what the terminal takes.

use vstd::prelude::*;
use crate::types::{WEZTERM_MOD_ALT, WEZTERM_MOD_CTRL, WEZTERM_MOD_SHIFT, WEZTERM_MOD_SUPER};

verus! {

/// Bit of termwiz's `Modifiers::SHIFT`.
pub const TERMWIZ_SHIFT: u16 = 2;

/// Bit of termwiz's `Modifiers::ALT`.
pub const TERMWIZ_ALT: u16 = 4;

/// Bit of termwiz's `Modifiers::CTRL`.
pub const TERMWIZ_CTRL: u16 = 8;

/// Bit of termwiz's `Modifiers::SUPER`.
pub const TERMWIZ_SUPER: u16 = 16;

/// Every bit that termwiz's `Modifiers` defines (SHIFT through ENHANCED_KEY).
pub const TERMWIZ_ALL_MODIFIERS: u16 = 0x1ffe;

/// `termwiz::input::Modifiers::from_bits_truncate` followed by `bits()`:
/// the bits of the modifier set that keeps exactly the given bits that name a
/// termwiz modifier. The source (bitflags 1.3, as termwiz's input types use
/// it) computes `bits & all().bits`, and `all()` is the union of the defined
/// flags, `0x1ffe`.
#[verifier::external_body]
fn modifier_bits_truncate(bits: u16) -> (r: u16)
    ensures
        r == bits & TERMWIZ_ALL_MODIFIERS,
{
    termwiz::input::Modifiers::from_bits_truncate(bits).bits()
}

/// The termwiz modifier bits that a host's modifier mask stands for:
/// `WEZTERM_MOD_SHIFT`, `_ALT`, `_CTRL` and `_SUPER` each stand for the
/// termwiz modifier of the same name; other bits of the mask stand for none.
pub open spec fn spec_modifiers_to_termwiz(mods: u32) -> u16 {
    (if mods & WEZTERM_MOD_SHIFT != 0 { TERMWIZ_SHIFT } else { 0u16 })
    | (if mods & WEZTERM_MOD_ALT != 0 { TERMWIZ_ALT } else { 0u16 })
    | (if mods & WEZTERM_MOD_CTRL != 0 { TERMWIZ_CTRL } else { 0u16 })
    | (if mods & WEZTERM_MOD_SUPER != 0 { TERMWIZ_SUPER } else { 0u16 })
}

/// Turns a host modifier mask (a bitmask of `WEZTERM_MOD_*`) into the
/// bits of the matching termwiz `Modifiers` set.
pub fn modifiers_to_termwiz(mods: u32) -> (bits: u16)
    ensures
        bits == spec_modifiers_to_termwiz(mods),
{
    let s: u16 = if mods & WEZTERM_MOD_SHIFT != 0 { TERMWIZ_SHIFT } else { 0 };
    let a: u16 = if mods & WEZTERM_MOD_ALT != 0 { TERMWIZ_ALT } else { 0 };
    let c: u16 = if mods & WEZTERM_MOD_CTRL != 0 { TERMWIZ_CTRL } else { 0 };
    let u: u16 = if mods & WEZTERM_MOD_SUPER != 0 { TERMWIZ_SUPER } else { 0 };
    let b: u16 = s | a | c | u;
    let r = modifier_bits_truncate(b);
    assert(r == b) by (bit_vector)
        requires
            r == b & 0x1ffeu16,
            b == s | a | c | u,
            s == 0u16 || s == 2u16,
            a == 0u16 || a == 4u16,
            c == 0u16 || c == 8u16,
            u == 0u16 || u == 16u16,
    ;
    r
}

/// Whether `v` is a Unicode scalar value: at most `0x10FFFF` and not a
/// surrogate.
pub open spec fn is_scalar_value(v: u32) -> bool {
    v < 0xD800 || (0xE000 <= v && v <= 0x10FFFF)
}

/// `char::from_u32`: the character with code point `v`, or `None` where `v`
/// is not a Unicode scalar value, as std documents it.
#[verifier::external_body]
fn char_from_u32(v: u32) -> (c: Option<char>)
    ensures
        c is Some <==> is_scalar_value(v),
        c matches Some(ch) ==> ch as u32 == v,
{
    char::from_u32(v)
}

/// The character of a key press that the host reports by code point; `None`
/// where the code point is not a character, in which case the key press is
/// refused.
pub fn key_char(code_point: u32) -> (c: Option<char>)
    ensures
        c is Some <==> is_scalar_value(code_point),
        c matches Some(ch) ==> ch as u32 == code_point,
{
    char_from_u32(code_point)
}

} // verus!
