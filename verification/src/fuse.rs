//! The burning fuse of beat mode: how the remaining time is drawn.
use vstd::prelude::*;

use crate::number::{seconds_tenths, spec_seconds_tenths};
use crate::style::Color;
use crate::text::{pad_left, push_char, spec_pad_left};

verus! {

/// The label drawn left of the fuse.
pub open spec fn fuse_prefix() -> Seq<char> {
    seq![' ', '[', '!', ']', ' ']
}

/// The spark drawn at animation tick `tick`; the spark cycles through eight
/// glyphs.
pub open spec fn spec_spark(tick: nat) -> char {
    let k = tick % 8;
    if k == 0 || k == 6 {
        '✸'
    } else if k == 1 {
        '✺'
    } else if k == 2 || k == 7 {
        '◈'
    } else if k == 3 {
        '*'
    } else if k == 4 {
        '✦'
    } else {
        '·'
    }
}

/// The spark glyph at tick `tick`.
pub fn spark(tick: usize) -> (c: char)
    ensures
        c == spec_spark(tick as nat),
{
    let k = tick % 8;
    if k == 0 || k == 6 {
        '✸'
    } else if k == 1 {
        '✺'
    } else if k == 2 || k == 7 {
        '◈'
    } else if k == 3 {
        '*'
    } else if k == 4 {
        '✦'
    } else {
        '·'
    }
}

/// The time text at the right end of the fuse: a space, the seconds left
/// with one decimal right-aligned in four characters, `s` and a space.
pub open spec fn spec_time_text(remaining_ms: nat) -> Seq<char> {
    seq![' '] + spec_pad_left(spec_seconds_tenths(remaining_ms), 4) + seq!['s', ' ']
}

/// Everything needed to draw the fuse on one row.
pub struct FuseLayout {
    /// Columns of the fuse between the label and the time text.
    pub fuse_w: usize,
    /// Columns of unburnt fuel, left of the spark.
    pub fuel_w: usize,
    /// Columns of ash, right of the spark.
    pub ash_w: usize,
    pub fuel_ch: char,
    pub spark_ch: char,
    pub fuel_color: Color,
    pub spark_color: Color,
    /// Whether the fuel is drawn bold (the last tenth of the time).
    pub fuel_bold: bool,
    pub bomb_color: Color,
    pub time_color: Color,
    pub time_text: String,
    /// Column of the first fuel cell.
    pub fuse_x: usize,
    /// Column of the spark.
    pub spark_x: usize,
    /// Column of the time text.
    pub time_x: usize,
}

/// Width of the fuse for a row of `width` columns: what the label and the
/// time text leave, but at least 3.
pub open spec fn spec_fuse_w(width: nat, time_len: nat) -> nat {
    let used = fuse_prefix().len() + time_len;
    if width >= used + 3 {
        (width - used) as nat
    } else {
        3
    }
}

/// Fuel columns: the remaining share of the fuse, rounded down, leaving at
/// least the spark's column.
pub open spec fn spec_fuel_w(remaining_ms: nat, limit_ms: nat, fuse_w: nat) -> nat {
    let share = remaining_ms * fuse_w / limit_ms;
    if share <= fuse_w - 1 {
        share
    } else {
        (fuse_w - 1) as nat
    }
}

/// The fuse for a row of `width` columns when `remaining_ms` of `limit_ms`
/// are left, at animation tick `tick`. More than half the time left burns
/// yellow, more than a quarter dark yellow, more than a tenth red with `≈`,
/// and the last tenth flickers between `≈` and `~` in bold. The bomb label
/// flashes red on even ticks in the last quarter.
pub open spec fn fuse_layout_ok(
    l: FuseLayout,
    width: nat,
    remaining_ms: nat,
    limit_ms: nat,
    tick: nat,
) -> bool {
    let r = remaining_ms;
    let t = limit_ms;
    let fuse_w = spec_fuse_w(width, spec_time_text(r).len());
    let fuel_w = spec_fuel_w(r, t, fuse_w);
    &&& l.time_text@ == spec_time_text(r)
    &&& l.fuse_w == fuse_w
    &&& l.fuel_w == fuel_w
    &&& l.ash_w == fuse_w - 1 - fuel_w
    &&& l.spark_ch == spec_spark(tick)
    &&& l.fuse_x == fuse_prefix().len()
    &&& l.spark_x == fuse_prefix().len() + fuel_w
    &&& l.time_x == fuse_prefix().len() + fuse_w
    &&& (l.fuel_color, l.spark_color, l.fuel_ch) == if 2 * r > t {
        (Color::Yellow, Color::Yellow, '━')
    } else if 4 * r > t {
        (Color::DarkYellow, Color::Yellow, '━')
    } else if 10 * r > t {
        (Color::Red, Color::Red, '≈')
    } else {
        (Color::Red, Color::Red, if tick % 2 == 0 { '≈' } else { '~' })
    }
    &&& l.fuel_bold == (10 * r <= t)
    &&& l.bomb_color == if 4 * r <= t && tick % 2 == 0 { Color::Red } else { Color::DarkGrey }
    &&& l.time_color == if 2 * r > t {
        Color::Green
    } else if 4 * r > t {
        Color::Yellow
    } else {
        Color::Red
    }
}

/// Lays out the fuse for a row of `width` columns with `remaining_ms` of
/// `limit_ms` left. More time left than the limit draws a full fuse.
pub fn fuse_layout(width: u16, remaining_ms: u64, limit_ms: u64, tick: usize) -> (l: FuseLayout)
    requires
        0 < limit_ms,
    ensures
        fuse_layout_ok(l, width as nat, remaining_ms as nat, limit_ms as nat, tick as nat),
{
    let secs = seconds_tenths(remaining_ms);
    let padded = pad_left(secs.as_str(), 4);
    let mut time_text = String::new();
    push_char(&mut time_text, ' ');
    time_text.append(padded.as_str());
    push_char(&mut time_text, 's');
    push_char(&mut time_text, ' ');
    assert(time_text@ =~= spec_time_text(remaining_ms as nat));
    let time_len = time_text.as_str().unicode_len();
    let w = width as usize;
    let fuse_w: usize = if time_len <= w && w - time_len >= 8 { w - time_len - 5 } else { 3 };
    assert(fuse_w <= 0xFFFF);
    let r = remaining_ms as u128;
    let t = limit_ms as u128;
    assert(r * fuse_w <= 0xFFFF_FFFF_FFFF_FFFFu128 * 0xFFFF) by (nonlinear_arith)
        requires r <= 0xFFFF_FFFF_FFFF_FFFFu128, fuse_w <= 0xFFFF;
    let share: u128 = r * (fuse_w as u128) / t;
    let fuel_w: usize = if share <= (fuse_w - 1) as u128 { share as usize } else { fuse_w - 1 };
    let ash_w: usize = fuse_w - 1 - fuel_w;
    let (fuel_color, spark_color, fuel_ch) = if 2 * r > t {
        (Color::Yellow, Color::Yellow, '━')
    } else if 4 * r > t {
        (Color::DarkYellow, Color::Yellow, '━')
    } else if 10 * r > t {
        (Color::Red, Color::Red, '≈')
    } else {
        (Color::Red, Color::Red, if tick % 2 == 0 { '≈' } else { '~' })
    };
    let bomb_color = if 4 * r <= t && tick % 2 == 0 { Color::Red } else { Color::DarkGrey };
    let time_color = if 2 * r > t {
        Color::Green
    } else if 4 * r > t {
        Color::Yellow
    } else {
        Color::Red
    };
    FuseLayout {
        fuse_w,
        fuel_w,
        ash_w,
        fuel_ch,
        spark_ch: spark(tick),
        fuel_color,
        spark_color,
        fuel_bold: 10 * r <= t,
        bomb_color,
        time_color,
        time_text,
        fuse_x: 5,
        spark_x: 5 + fuel_w,
        time_x: 5 + fuse_w,
    }
}

/// The fuse always has room for the spark, and fuel, spark and ash fill it
/// exactly.
pub proof fn law_fuse_fills_row(l: FuseLayout, width: nat, remaining_ms: nat, limit_ms: nat, tick: nat)
    requires
        0 < limit_ms,
        fuse_layout_ok(l, width, remaining_ms, limit_ms, tick),
    ensures
        l.fuse_w >= 3,
        l.fuel_w + 1 + l.ash_w == l.fuse_w,
        l.time_x == l.spark_x + 1 + l.ash_w,
{
}

/// As time runs out the fuel never grows: less time left, no more fuel.
pub proof fn law_fuse_burns_down(r1: nat, r2: nat, limit_ms: nat, fuse_w: nat)
    requires
        0 < limit_ms,
        r1 <= r2,
        fuse_w >= 1,
    ensures
        spec_fuel_w(r1, limit_ms, fuse_w) <= spec_fuel_w(r2, limit_ms, fuse_w),
{
    assert(r1 * fuse_w <= r2 * fuse_w) by (nonlinear_arith)
        requires r1 <= r2;
    vstd::arithmetic::div_mod::lemma_div_is_ordered((r1 * fuse_w) as int, (r2 * fuse_w) as int, limit_ms as int);
}

} // verus!
