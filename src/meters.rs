//! CPU and memory bars, and the clock's template.

use vstd::prelude::*;
use vstd::string::*;
use crate::render::Palette;
use crate::time_code::{decimal, digit_text};
use size_format::SizeFormatterBinary;

verus! {

/// `1024` raised to `d`.
pub open spec fn pow1024(d: nat) -> nat
    decreases d,
{
    if d == 0 {
        1
    } else {
        1024 * pow1024((d - 1) as nat)
    }
}

/// How many times `n` can be divided by `1024`.
pub open spec fn log1024(n: nat) -> nat
    decreases n,
{
    if n < 1024 {
        0
    } else {
        1 + log1024(n / 1024)
    }
}

/// The binary prefix for `d` divisions by `1024`.
pub open spec fn binary_prefix(d: nat) -> Seq<char> {
    if d == 1 {
        "Ki"@
    } else if d == 2 {
        "Mi"@
    } else if d == 3 {
        "Gi"@
    } else if d == 4 {
        "Ti"@
    } else if d == 5 {
        "Pi"@
    } else if d == 6 {
        "Ei"@
    } else if d == 7 {
        "Zi"@
    } else if d == 8 {
        "Yi"@
    } else {
        Seq::empty()
    }
}

/// A byte count with binary prefixes: below `1024` the plain number; above,
/// the whole part of the scaled value, a point, one truncated decimal digit,
/// and the prefix.
pub open spec fn binary_size_text(n: nat) -> Seq<char> {
    let d = log1024(n);
    let q = pow1024(d);
    if d == 0 {
        decimal(n)
    } else {
        decimal(n / q) + "."@ + digit_text((n % q) * 10 / q) + binary_prefix(d)
    }
}

/// Relies on size_format's `SizeFormatterBinary` display at its default
/// precision of one decimal digit.
#[verifier::external_body]
fn size_binary(n: u64) -> (r: String)
    ensures
        r@ == binary_size_text(n as nat),
{
    format!("{}", SizeFormatterBinary::new(n))
}

/// The glyphs of the first `count` cells of a bar filled up to `value`.
pub open spec fn bar_cells(value: int, count: nat, symbol: Seq<char>, empty: Seq<char>) -> Seq<char>
    decreases count,
{
    if count == 0 {
        Seq::empty()
    } else {
        bar_cells(value, (count - 1) as nat, symbol, empty) + if count - 1 < value {
            symbol
        } else {
            empty
        }
    }
}

/// The symbol to use: the configured one, or the default.
pub open spec fn symbol_or(s: Option<String>, default: Seq<char>) -> Seq<char> {
    match s {
        Some(v) => v@,
        None => default,
    }
}

/// The color of the bar: low below the low threshold, mid below the mid one,
/// high otherwise.
pub open spec fn tier_color(below_low: bool, below_mid: bool, p: Palette) -> Seq<char> {
    if below_low {
        p.color_low@
    } else if below_mid {
        p.color_mid@
    } else {
        p.color_high@
    }
}

/// The text of a bar.
pub open spec fn bar_text(
    value: int,
    max: int,
    below_low: bool,
    below_mid: bool,
    palette: Palette,
    symbol: Option<String>,
    empty: Option<String>,
) -> Seq<char> {
    let count: nat = if max > 0 {
        max as nat
    } else {
        0
    };
    tier_color(below_low, below_mid, palette) + bar_cells(
        value,
        count,
        symbol_or(symbol, "█"@),
        symbol_or(empty, " "@),
    ) + palette.color_end@ + "|"@
}

fn str_or<'a>(s: &'a Option<String>, default: &'a str) -> (r: &'a str)
    ensures
        r@ == symbol_or(*s, default@),
{
    match s {
        Some(v) => v.as_str(),
        None => default,
    }
}

/// Draws a bar of `max` cells, the first `value` of them filled, in the color
/// of its load tier, closed by the end token and `|`.
pub fn to_bar(
    value: i32,
    max: i32,
    below_low: bool,
    below_mid: bool,
    palette: &Palette,
    symbol: &Option<String>,
    empty: &Option<String>,
) -> (r: String)
    ensures
        r@ == bar_text(value as int, max as int, below_low, below_mid, *palette, *symbol, *empty),
{
    let mut out = if below_low {
        palette.color_low.clone()
    } else if below_mid {
        palette.color_mid.clone()
    } else {
        palette.color_high.clone()
    };
    let full = str_or(symbol, "█");
    let blank = str_or(empty, " ");
    let ghost head = out@;
    let mut i: i32 = 0;
    while i < max
        invariant
            0 <= i,
            max > 0 ==> i <= max,
            max <= 0 ==> i == 0,
            out@ == head + bar_cells(value as int, i as nat, full@, blank@),
        decreases max - i,
    {
        if i < value {
            out.append(full);
        } else {
            out.append(blank);
        }
        i += 1;
        assert(out@ =~= head + bar_cells(value as int, i as nat, full@, blank@));
    }
    out.append(palette.color_end.as_str());
    out.append("|");
    out
}

/// The memory summary after the bar: used and free sizes with binary prefixes.
pub open spec fn memory_text(used: nat, total: nat) -> Seq<char> {
    binary_size_text(used) + "/"@ + binary_size_text((total - used) as nat) + " #[default]"@
}

/// Formats used and free memory.
pub fn mem_summary(used: u64, total: u64) -> (r: String)
    requires
        used <= total,
    ensures
        r@ == memory_text(used as nat, total as nat),
{
    let mut out = size_binary(used);
    out.append("/");
    let free = size_binary(total - used);
    out.append(free.as_str());
    out.append(" #[default]");
    out
}

/// The clock's template: the configured one, or `%H:%M`.
pub fn time_template(format: Option<String>) -> (r: String)
    ensures
        r@ == symbol_or(format, "%H:%M"@),
{
    match format {
        Some(f) => f,
        None => String::from_str("%H:%M"),
    }
}

} // verus!
