use vstd::prelude::*;
use crate::rgb::Rgb;
use crate::ticks::{ticks_elapsed, elapsed_ms};
use crate::light_ports::{LightPorts, LED_NUM};

verus! {

/// Ghost summary of the spiral effect: the write cursor, the palette index,
/// and how many pixels the current hue has written.
#[verifier::ext_equal]
pub struct SpiralView {
    pub spiral_index: usize,
    pub brightness: u8,
    pub delay_ms: u32,
    pub last_update: u32,
    pub cur_color: usize,
    pub cur_band_cnt: usize,
    pub color_band_size: usize,
    pub last_color: Option<Rgb>,
}

/// The six-hue palette of the spiral, at the effect's brightness: red,
/// green, blue, then the two-channel mixes; anything out of range falls
/// back to blue.
pub open spec fn palette(cur_color: int, b: u8) -> Rgb {
    if cur_color == 0 {
        Rgb { r: b, g: 0, b: 0 }
    } else if cur_color == 1 {
        Rgb { r: 0, g: b, b: 0 }
    } else if cur_color == 2 {
        Rgb { r: 0, g: 0, b: b }
    } else if cur_color == 3 {
        Rgb { r: b, g: 0, b: b }
    } else if cur_color == 4 {
        Rgb { r: b, g: b, b: 0 }
    } else if cur_color == 5 {
        Rgb { r: 0, g: b, b: b }
    } else {
        Rgb { r: 0, g: 0, b: b }
    }
}

impl SpiralView {
    pub open spec fn wf(self) -> bool {
        &&& self.spiral_index < LED_NUM
        &&& self.cur_color < 6
        &&& self.cur_band_cnt < self.color_band_size
    }

    /// The state a fresh spiral starts from: cursor at blade 0, red, a band
    /// as long as the whole strip.
    pub open spec fn initial(brightness: u8, delay_ms: u32) -> SpiralView {
        SpiralView {
            spiral_index: 0,
            brightness,
            delay_ms,
            last_update: 0,
            cur_color: 0,
            cur_band_cnt: 0,
            color_band_size: LED_NUM,
            last_color: None,
        }
    }

    /// Whether a tick at `now` is an active one (throttle elapsed).
    pub open spec fn steps(self, now: u32) -> bool {
        ticks_elapsed(now, self.last_update) >= self.delay_ms
    }

    /// The color an active tick emits: the current palette hue.
    pub open spec fn emitted(self) -> Rgb {
        palette(self.cur_color as int, self.brightness)
    }

    /// The band bookkeeping after one emitted pixel: the counter grows, and
    /// a full band advances the palette cyclically and resets it.
    pub open spec fn band_advanced(self) -> SpiralView {
        if self.cur_band_cnt + 1 >= self.color_band_size {
            SpiralView {
                cur_color: ((self.cur_color + 1) % 6) as usize,
                cur_band_cnt: 0,
                ..self
            }
        } else {
            SpiralView { cur_band_cnt: (self.cur_band_cnt + 1) as usize, ..self }
        }
    }

    /// The whole effect state after an active tick at `now`: one pixel
    /// emitted, the cursor moved cyclically to the next blade.
    pub open spec fn next_state(self, now: u32) -> SpiralView {
        SpiralView {
            spiral_index: ((self.spiral_index + 1) % (LED_NUM as int)) as usize,
            last_update: now,
            last_color: Some(self.emitted()),
            ..self.band_advanced()
        }
    }

    /// What an active tick does to the buffer colors: exactly one blade, at
    /// the cursor, takes the current palette hue.
    pub open spec fn next_leds(self, leds: Seq<Rgb>) -> Seq<Rgb> {
        leds.update(self.spiral_index as int, self.emitted())
    }

    /// What an active tick does to the blink flags: the written blade's
    /// flag clears.
    pub open spec fn next_blink(self, blink: Seq<bool>) -> Seq<bool> {
        blink.update(self.spiral_index as int, false)
    }
}

/// A single traveling pixel that walks the strip cyclically and changes hue
/// once per full revolution.
pub struct ShellSpiralEffect {
    pub spiral_index: usize,
    pub brightness: u8,
    pub delay_ms: u32,
    pub last_update: u32,
    pub cur_color: usize,
    pub cur_band_cnt: usize,
    pub color_band_size: usize,
    pub last_color: Option<Rgb>,
}

impl View for ShellSpiralEffect {
    type V = SpiralView;

    open spec fn view(&self) -> SpiralView {
        SpiralView {
            spiral_index: self.spiral_index,
            brightness: self.brightness,
            delay_ms: self.delay_ms,
            last_update: self.last_update,
            cur_color: self.cur_color,
            cur_band_cnt: self.cur_band_cnt,
            color_band_size: self.color_band_size,
            last_color: self.last_color,
        }
    }
}

impl ShellSpiralEffect {
    pub fn new(brightness: u8, delay_ms: u32) -> (e: ShellSpiralEffect)
        ensures
            e@ == SpiralView::initial(brightness, delay_ms),
            e@.wf(),
    {
        ShellSpiralEffect {
            spiral_index: 0,
            brightness,
            delay_ms,
            last_update: 0,
            cur_color: 0,
            cur_band_cnt: 0,
            // One full cycle of the strip before the hue changes.
            color_band_size: LED_NUM,
            last_color: None,
        }
    }

    /// Emits the current palette hue and advances the band bookkeeping for
    /// the next emission.
    fn get_next_color(&mut self) -> (color: Rgb)
        requires
            old(self)@.wf(),
        ensures
            color == old(self)@.emitted(),
            final(self)@ == old(self)@.band_advanced(),
            final(self)@.wf(),
    {
        let b = self.brightness;
        let color = match self.cur_color {
            0 => Rgb::new(b, 0, 0),
            1 => Rgb::new(0, b, 0),
            2 => Rgb::new(0, 0, b),
            3 => Rgb::new(b, 0, b),
            4 => Rgb::new(b, b, 0),
            5 => Rgb::new(0, b, b),
            _ => Rgb::new(0, 0, b),
        };

        // After returning the current hue, count the pixel and move to the
        // next hue when the band is complete.
        self.cur_band_cnt = self.cur_band_cnt + 1;
        if self.cur_band_cnt >= self.color_band_size {
            self.cur_color = (self.cur_color + 1) % 6;
            self.cur_band_cnt = 0;
        }

        color
    }

    /// One tick.  Before the throttle interval has elapsed nothing happens
    /// and `false` comes back; on an active tick the current hue is written
    /// to the blade at the cursor and the cursor advances cyclically.
    pub fn update(&mut self, lights: &mut LightPorts, now: u32) -> (changed: bool)
        requires
            old(self)@.wf(),
            old(lights)@.wf(),
        ensures
            changed == old(self)@.steps(now),
            !changed ==> *final(self) == *old(self) && *final(lights) == *old(lights),
            changed ==> final(self)@ == old(self)@.next_state(now),
            changed ==> final(lights)@.leds == old(self)@.next_leds(old(lights)@.leds),
            changed ==> final(lights)@.blink == old(self)@.next_blink(old(lights)@.blink),
            changed ==> final(lights)@.blink_on == old(lights)@.blink_on,
            changed ==> final(lights)@.blink_next == old(lights)@.blink_next,
            final(self)@.wf(),
            final(lights)@.wf(),
    {
        if elapsed_ms(now, self.last_update) < self.delay_ms {
            return false;
        }

        self.last_update = now;

        let this_color = self.get_next_color();

        // Set the current blade to the emitted hue.
        let _ = lights.set_blade(self.spiral_index as u8, this_color, false);

        // Move the cursor to the next blade.
        self.spiral_index = (self.spiral_index + 1) % LED_NUM;

        self.last_color = Some(this_color);

        assert(self@ =~= old(self)@.next_state(now));

        true
    }
}

} // verus!
