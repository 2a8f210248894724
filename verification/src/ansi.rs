//! ANSI styling for diagnostic output.
//!
//! A styled segment is the plain text wrapped in the escape sequences that the
//! `owo_colors` crate emits for the same request: a foreground color opens with
//! `ESC [ <code> m` and closes with the default-foreground sequence, while bold
//! opens with `ESC [ 1 m` and closes with the generic style reset. When styling
//! is inactive the plain text is produced unchanged.

use vstd::prelude::*;
use vstd::string::StringExecFns;

verus! {

/// The semantic colors that diagnostic labels and highlights use.
#[derive(Debug, Clone, Copy, PartialEq, Eq, Structural)]
pub enum StatusColor {
    Red,
    Yellow,
    Cyan,
    Green,
}

/// The opening escape sequence for a foreground color.
pub open spec fn fg_open(c: StatusColor) -> Seq<char> {
    match c {
        StatusColor::Red => "\u{1b}[31m"@,
        StatusColor::Yellow => "\u{1b}[33m"@,
        StatusColor::Cyan => "\u{1b}[36m"@,
        StatusColor::Green => "\u{1b}[32m"@,
    }
}

/// The closing sequence that restores the default foreground color.
pub open spec fn fg_close() -> Seq<char> {
    "\u{1b}[39m"@
}

/// The opening escape sequence for bold text.
pub open spec fn bold_open() -> Seq<char> {
    "\u{1b}[1m"@
}

/// The closing sequence that resets every style attribute.
pub open spec fn style_close() -> Seq<char> {
    "\u{1b}[0m"@
}

/// The terminal "Erase in Line" control sequence.
pub open spec fn erase_line_seq() -> Seq<char> {
    "\u{1b}[K"@
}

/// `s` wrapped in bold, when styling is active.
pub open spec fn bolded(s: Seq<char>, active: bool) -> Seq<char> {
    if active {
        bold_open() + s + style_close()
    } else {
        s
    }
}

/// `s` wrapped in a foreground color, when styling is active.
pub open spec fn colored(s: Seq<char>, c: StatusColor, active: bool) -> Seq<char> {
    if active {
        fg_open(c) + s + fg_close()
    } else {
        s
    }
}

/// `s` both bold and colored: the bold wrap sits inside the color wrap.
pub open spec fn bold_colored(s: Seq<char>, c: StatusColor, active: bool) -> Seq<char> {
    colored(bolded(s, active), c, active)
}

fn fg_open_str(c: StatusColor) -> (r: &'static str)
    ensures
        r@ == fg_open(c),
{
    match c {
        StatusColor::Red => "\u{1b}[31m",
        StatusColor::Yellow => "\u{1b}[33m",
        StatusColor::Cyan => "\u{1b}[36m",
        StatusColor::Green => "\u{1b}[32m",
    }
}

/// Appends `s` to `out`, bold when `active`.
pub fn push_bolded(out: &mut String, s: &str, active: bool)
    ensures
        final(out)@ == old(out)@ + bolded(s@, active),
{
    if active {
        out.append("\u{1b}[1m");
        out.append(s);
        out.append("\u{1b}[0m");
        assert(out@ =~= old(out)@ + bolded(s@, active));
    } else {
        out.append(s);
    }
}

/// Appends `s` to `out`, colored when `active`.
pub fn push_colored(out: &mut String, s: &str, c: StatusColor, active: bool)
    ensures
        final(out)@ == old(out)@ + colored(s@, c, active),
{
    if active {
        out.append(fg_open_str(c));
        out.append(s);
        out.append("\u{1b}[39m");
        assert(out@ =~= old(out)@ + colored(s@, c, active));
    } else {
        out.append(s);
    }
}

/// Appends `s` to `out`, bold and colored when `active`.
pub fn push_bold_colored(out: &mut String, s: &str, c: StatusColor, active: bool)
    ensures
        final(out)@ == old(out)@ + bold_colored(s@, c, active),
{
    if active {
        out.append(fg_open_str(c));
        out.append("\u{1b}[1m");
        out.append(s);
        out.append("\u{1b}[0m");
        out.append("\u{1b}[39m");
        assert(out@ =~= old(out)@ + bold_colored(s@, c, active));
    } else {
        out.append(s);
    }
}

} // verus!
