use vstd::prelude::*;
use crate::rgb::Rgb;

verus! {

/// The fixed named colors of the lamp.
pub enum Colors {
    Black,
    Red,
    Orange,
    Yellow,
    Green,
    Cyan,
    Blue,
    Magenta,
    White,
    Off,
}

impl Colors {
    /// The channel values of each named color.
    pub open spec fn rgb_spec(self) -> Rgb {
        match self {
            Colors::Black => Rgb { r: 0x00, g: 0x00, b: 0x00 },
            Colors::Red => Rgb { r: 0x3f, g: 0x00, b: 0x00 },
            Colors::Orange => Rgb { r: 0x3f, g: 0x1f, b: 0x00 },
            Colors::Yellow => Rgb { r: 0x3f, g: 0x3f, b: 0x00 },
            Colors::Green => Rgb { r: 0x00, g: 0x3f, b: 0x00 },
            Colors::Cyan => Rgb { r: 0x00, g: 0x3f, b: 0x3f },
            Colors::Blue => Rgb { r: 0x00, g: 0x00, b: 0x3f },
            Colors::Magenta => Rgb { r: 0x3f, g: 0x00, b: 0x3f },
            Colors::White => Rgb { r: 0x3f, g: 0x3f, b: 0x3f },
            Colors::Off => Rgb { r: 0x00, g: 0x00, b: 0x00 },
        }
    }

    pub fn as_rgb(&self) -> (c: Rgb)
        ensures
            c == self.rgb_spec(),
    {
        match *self {
            Colors::Black => Rgb::new(0x00, 0x00, 0x00),
            Colors::Red => Rgb::new(0x3f, 0x00, 0x00),
            Colors::Orange => Rgb::new(0x3f, 0x1f, 0x00),
            Colors::Yellow => Rgb::new(0x3f, 0x3f, 0x00),
            Colors::Green => Rgb::new(0x00, 0x3f, 0x00),
            Colors::Cyan => Rgb::new(0x00, 0x3f, 0x3f),
            Colors::Blue => Rgb::new(0x00, 0x00, 0x3f),
            Colors::Magenta => Rgb::new(0x3f, 0x00, 0x3f),
            Colors::White => Rgb::new(0x3f, 0x3f, 0x3f),
            Colors::Off => Rgb::new(0x00, 0x00, 0x00),
        }
    }
}

/// The tint (hue selector, 0 = off, 1-6 = discrete hues) held in the high
/// nibble of a temperature byte.
pub open spec fn tint_of(temp: u8) -> u8 {
    (temp & 0xf0) >> 4
}

/// The level (intensity, 0-15) held in the low nibble of a temperature byte.
pub open spec fn level_of(temp: u8) -> u8 {
    temp & 0x0f
}

/// What `get_temperature` packs: a tint above 6 clamps to 0 (off), a level
/// above 15 clamps to 15, and the two nibbles join into one byte.
pub open spec fn pack_temperature(tint: u8, level: u8) -> u8 {
    let t = if tint > 6 { 0 } else { tint };
    let l = if level > 15 { 15 } else { level };
    (t & 0x0f) << 4 | (l & 0x0f)
}

/// Packs tint and level into a single temperature byte, clamping silently:
/// tint into the upper nibble, level into the lower.
pub fn get_temperature(tint: u8, level: u8) -> (temp: u8)
    ensures
        temp == pack_temperature(tint, level),
{
    let tint = if tint > 6 { 0 } else { tint };
    let level = if level > 15 { 15 } else { level };

    (tint & 0x0f) << 4 | (level & 0x0f)
}

/// What `adjust_temperature` returns: the level moves by `delta`; a result
/// below 1 extinguishes the byte entirely (tint lost), anything else is
/// re-packed with the original tint.
pub open spec fn adjust_spec(temp: u8, delta: i8) -> u8 {
    let level = level_of(temp) + delta;
    if level < 1 {
        0
    } else {
        pack_temperature(tint_of(temp), level as u8)
    }
}

/// Adjusts the intensity level of a temperature byte by a signed delta,
/// extinguishing it (all zero) when the new level would fall below 1.
pub fn adjust_temperature(temperature: u8, delta: i8) -> (r: u8)
    ensures
        r == adjust_spec(temperature, delta),
{
    let tint = (temperature & 0xf0) >> 4;
    assert(temperature & 0x0f <= 0x0f) by (bit_vector);
    // Widened, so the sum cannot overflow for any delta.
    let level = (temperature & 0x0f) as i16 + delta as i16;

    if level < 1 {
        return 0;
    }

    get_temperature(tint, level as u8)
}

/// What `get_color_bright` returns.  Tints 1-3 are pure red, green and blue
/// scaled by `bright * level / 15`; tints 4-6 are two-channel blends at half
/// that intensity; tint 0 (or anything the pack clamps away) is black.
pub open spec fn color_bright_spec(temp: u8, bright: u8) -> Rgb {
    let tint = tint_of(temp);
    let full = ((bright * level_of(temp)) / 15) as u8;
    let half = ((bright * level_of(temp)) / 30) as u8;
    if tint == 1 {
        Rgb { r: full, g: 0, b: 0 }
    } else if tint == 2 {
        Rgb { r: 0, g: full, b: 0 }
    } else if tint == 3 {
        Rgb { r: 0, g: 0, b: full }
    } else if tint == 4 {
        Rgb { r: half, g: 0, b: half }
    } else if tint == 5 {
        Rgb { r: half, g: half, b: 0 }
    } else if tint == 6 {
        Rgb { r: 0, g: half, b: half }
    } else {
        Rgb::black()
    }
}

/// Converts a temperature byte to a color: the tint picks the hue ramp and
/// the level scales the given brightness.
pub fn get_color_bright(temperature: u8, bright: u8) -> (c: Rgb)
    ensures
        c == color_bright_spec(temperature, bright),
{
    let tint = (temperature & 0xf0) >> 4;
    assert(temperature & 0x0f <= 0x0f) by (bit_vector);
    let lev = (temperature & 0x0f) as u32;
    assert(bright as int * lev as int <= 255 * 15) by (nonlinear_arith)
        requires
            bright as int <= 255,
            lev as int <= 15,
    ;
    let scaled = bright as u32 * lev;
    let full = (scaled / 15) as u8;
    let half = (scaled / 30) as u8;

    match tint {
        1 => Rgb::new(full, 0, 0),
        2 => Rgb::new(0, full, 0),
        3 => Rgb::new(0, 0, full),
        4 => Rgb::new(half, 0, half),
        5 => Rgb::new(half, half, 0),
        6 => Rgb::new(0, half, half),
        _ => Rgb::new(0, 0, 0),
    }
}

/// A temperature byte after `n` decay steps of one level each.
pub open spec fn decayed(temp: u8, n: nat) -> u8
    decreases n,
{
    if n == 0 {
        temp
    } else {
        adjust_spec(decayed(temp, (n - 1) as nat), -1i8)
    }
}

/// Round trip of the temperature byte: any tint and level inside their
/// domains survive a pack exactly.
pub proof fn lemma_temperature_round_trip(tint: u8, level: u8)
    requires
        tint <= 6,
        level <= 15,
    ensures
        tint_of(pack_temperature(tint, level)) == tint,
        level_of(pack_temperature(tint, level)) == level,
{
    assert(((((tint & 0x0f) << 4 | (level & 0x0f)) & 0xf0) >> 4) == tint
        && (((tint & 0x0f) << 4 | (level & 0x0f)) & 0x0f) == level) by (bit_vector)
        requires
            tint <= 6,
            level <= 15,
    ;
}

/// One decay step of a packed byte: the level drops by one with the tint
/// kept, and a byte at level 1 extinguishes entirely.
pub proof fn lemma_adjust_step(tint: u8, level: u8)
    requires
        tint <= 6,
        1 <= level <= 15,
    ensures
        adjust_spec(pack_temperature(tint, level), -1i8) == (if level >= 2 {
            pack_temperature(tint, (level - 1) as u8)
        } else {
            0u8
        }),
{
    lemma_temperature_round_trip(tint, level);
}

/// The extinguished byte is a floor: decaying it further changes nothing.
pub proof fn lemma_adjust_floor()
    ensures
        adjust_spec(0u8, -1i8) == 0u8,
{
    assert(0u8 & 0x0f == 0u8) by (bit_vector);
}

proof fn lemma_decayed_floor(n: nat)
    ensures
        decayed(0u8, n) == 0u8,
    decreases n,
{
    if n > 0 {
        lemma_decayed_floor((n - 1) as nat);
        lemma_adjust_floor();
    }
}

proof fn lemma_decayed_compose(temp: u8, a: nat, b: nat)
    ensures
        decayed(temp, a + b) == decayed(decayed(temp, a), b),
    decreases b,
{
    if b > 0 {
        lemma_decayed_compose(temp, a, (b - 1) as nat);
        assert(a + b - 1 == a + (b - 1));
    }
}

proof fn lemma_decay_from_level(tint: u8, level: u8, k: nat)
    requires
        tint <= 6,
        1 <= level <= 15,
        k < level,
    ensures
        decayed(pack_temperature(tint, level), k) == pack_temperature(tint, (level - k) as u8),
    decreases k,
{
    if k > 0 {
        lemma_decay_from_level(tint, level, (k - 1) as nat);
        lemma_adjust_step(tint, (level - (k - 1)) as u8);
    }
}

/// Law: monotonic decay of the temperature byte.  From level 15, fifteen
/// decay steps of one level reach the all-zero (extinguished) byte, and any
/// further decay stays there.
pub proof fn lemma_adjust_decay(tint: u8)
    requires
        tint <= 6,
    ensures
        decayed(pack_temperature(tint, 15), 15) == 0u8,
        forall|n: nat| n >= 15 ==> decayed(pack_temperature(tint, 15), n) == 0u8,
{
    lemma_decay_from_level(tint, 15, 14);
    lemma_adjust_step(tint, 1);
    assert(decayed(pack_temperature(tint, 15), 15) == adjust_spec(
        decayed(pack_temperature(tint, 15), 14),
        -1i8,
    ));
    assert forall|n: nat| n >= 15 implies decayed(pack_temperature(tint, 15), n) == 0u8 by {
        lemma_decayed_compose(pack_temperature(tint, 15), 15, (n - 15) as nat);
        lemma_decayed_floor((n - 15) as nat);
    }
}

} // verus!
