//! ANSI 256-color escape builders and the glyphs the segments are drawn with.
use vstd::prelude::*;
use crate::numfmt::dec_spec;
use crate::numfmt::push_dec;

verus! {

/// The solid powerline arrow that separates two segments.
pub open spec fn arrow() -> Seq<char> {
    "\u{e0b0}"@
}

/// The thin divider drawn between path components.
pub open spec fn thin_divider() -> Seq<char> {
    "\u{e0b1}"@
}

/// The version-control branch glyph.
pub open spec fn branch_icon() -> Seq<char> {
    "\u{e0a0}"@
}

/// The pencil glyph marking a dirty working tree.
pub open spec fn pencil_icon() -> Seq<char> {
    "\u{f040}"@
}

/// The SGR reset sequence that ends a rendered bar.
pub open spec fn reset() -> Seq<char> {
    "\u{1b}[0m"@
}

/// The escape sequence selecting palette entry `c` as the foreground color.
pub open spec fn fg_spec(c: nat) -> Seq<char> {
    "\u{1b}[38;5;"@ + dec_spec(c) + "m"@
}

/// The escape sequence selecting palette entry `c` as the background color.
pub open spec fn bg_spec(c: nat) -> Seq<char> {
    "\u{1b}[48;5;"@ + dec_spec(c) + "m"@
}

/// Builds the foreground escape for palette entry `color`.
pub fn fg(color: u8) -> (r: String)
    ensures
        r@ == fg_spec(color as nat),
{
    let mut out = String::from_str("\u{1b}[38;5;");
    push_dec(&mut out, color as u32);
    out.append("m");
    proof {
        assert(out@ =~= fg_spec(color as nat));
    }
    out
}

/// Builds the background escape for palette entry `color`.
pub fn bg(color: u8) -> (r: String)
    ensures
        r@ == bg_spec(color as nat),
{
    let mut out = String::from_str("\u{1b}[48;5;");
    push_dec(&mut out, color as u32);
    out.append("m");
    proof {
        assert(out@ =~= bg_spec(color as nat));
    }
    out
}

/// Appends the foreground escape for palette entry `color` to `out`.
pub fn push_fg(out: &mut String, color: u8)
    ensures
        final(out)@ == old(out)@ + fg_spec(color as nat),
{
    out.append("\u{1b}[38;5;");
    push_dec(out, color as u32);
    out.append("m");
    proof {
        assert(old(out)@ + fg_spec(color as nat) =~= ((old(out)@ + "\u{1b}[38;5;"@) + dec_spec(
            color as nat,
        )) + "m"@);
    }
}

/// Appends the background escape for palette entry `color` to `out`.
pub fn push_bg(out: &mut String, color: u8)
    ensures
        final(out)@ == old(out)@ + bg_spec(color as nat),
{
    out.append("\u{1b}[48;5;");
    push_dec(out, color as u32);
    out.append("m");
    proof {
        assert(old(out)@ + bg_spec(color as nat) =~= ((old(out)@ + "\u{1b}[48;5;"@) + dec_spec(
            color as nat,
        )) + "m"@);
    }
}

} // verus!
