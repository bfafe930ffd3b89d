use vstd::prelude::*;
use crate::rgb::Rgb;
use crate::ticks::{ticks_elapsed, elapsed_ms};
use crate::rand::{lcg_step, next_random};
use crate::light_ports::{LightPorts, LED_NUM};

verus! {

/// Ghost summary of the fire effect: a 32-byte heat column (plain heat
/// units 0-12, not packed temperature bytes), its beat counter and the
/// generator state.
#[verifier::ext_equal]
pub struct FireView {
    pub temps: Seq<u8>,
    pub brightness: u8,
    pub delay_ms: u32,
    pub last_update: u32,
    pub fire_beat: u32,
    pub fire_spark_odds: u32,
    pub random_state: u32,
}

impl FireView {
    pub open spec fn wf(self) -> bool {
        self.temps.len() == LED_NUM && self.fire_spark_odds > 0
    }

    /// The state a fresh fire starts from: a descending heat ramp across
    /// the first ten blades, one spark in `fire_spark_odds` active ticks,
    /// and a fixed seed.
    pub open spec fn initial(brightness: u8, delay_ms: u32) -> FireView {
        FireView {
            temps: Seq::new(
                LED_NUM as nat,
                |i: int|
                    if i < 10 {
                        (6 - i / 2) as u8
                    } else {
                        0u8
                    },
            ),
            brightness,
            delay_ms,
            last_update: 0,
            fire_beat: 0,
            fire_spark_odds: 8,
            random_state: 0xDEADBEEF,
        }
    }

    /// Whether a tick at `now` is an active one (throttle elapsed).
    pub open spec fn steps(self, now: u32) -> bool {
        ticks_elapsed(now, self.last_update) >= self.delay_ms
    }

    /// The generator state after the active tick at `now`.
    pub open spec fn next_rand(self, now: u32) -> u32 {
        lcg_step(self.random_state, now)
    }

    /// Heat rising one blade: each blade takes the heat below it, losing
    /// one unit at every third blade; a blade with a cold neighbor below
    /// cools naturally by one.
    pub open spec fn shifted(t: Seq<u8>) -> Seq<u8> {
        Seq::new(
            LED_NUM as nat,
            |i: int|
                if i == 0 {
                    t[0]
                } else if t[i - 1] > 0 {
                    if i % 3 == 0 {
                        if t[i - 1] > 1 {
                            (t[i - 1] - 1) as u8
                        } else {
                            0u8
                        }
                    } else {
                        t[i - 1]
                    }
                } else {
                    if t[i] > 0 {
                        (t[i] - 1) as u8
                    } else {
                        0u8
                    }
                },
        )
    }

    /// The stochastic spark: one active tick in `odds` ignites a random
    /// blade within the first third of the strip to a heat of 8-12.
    pub open spec fn sparked(t: Seq<u8>, rs: u32, odds: u32) -> Seq<u8> {
        if rs % odds == 0 {
            t.update(((rs >> 8) % ((LED_NUM / 3) as u32)) as int, (((rs >> 16) % 5) + 8) as u8)
        } else {
            t
        }
    }

    /// Base-heat maintenance: one active tick in three picks a blade among
    /// the first five and, if it has cooled below 5, raises it back to 5
    /// plus a small random bonus.
    pub open spec fn base_heated(t: Seq<u8>, rs: u32) -> Seq<u8> {
        if (rs >> 20) % 3 == 0 {
            let pos = ((rs >> 12) % 5) as int;
            if t[pos] < 5 {
                t.update(pos, (5 + ((rs >> 18) % 3)) as u8)
            } else {
                t
            }
        } else {
            t
        }
    }

    /// The whole heat column after an active tick at `now`.
    pub open spec fn next_temps(self, now: u32) -> Seq<u8> {
        let rs = self.next_rand(now);
        Self::base_heated(Self::sparked(Self::shifted(self.temps), rs, self.fire_spark_odds), rs)
    }

    /// The whole effect state after an active tick at `now`.
    pub open spec fn next_state(self, now: u32) -> FireView {
        FireView {
            temps: self.next_temps(now),
            brightness: self.brightness,
            delay_ms: self.delay_ms,
            last_update: now,
            fire_beat: vstd::wrapping::u32_specs::wrapping_add(self.fire_beat, 1),
            fire_spark_odds: self.fire_spark_odds,
            random_state: self.next_rand(now),
        }
    }

    /// The per-blade flicker seed: the generator state mixed with a
    /// blade-dependent constant.
    pub open spec fn blade_seed(rs: u32, blade: int) -> u32 {
        vstd::wrapping::u32_specs::wrapping_add(rs, (blade * 7919) as u32)
    }

    /// The colors an active tick writes into the buffer: the new heat
    /// column rendered through the flickering fire ramp.
    pub open spec fn rendered(self, now: u32) -> Seq<Rgb> {
        let rs = self.next_rand(now);
        let t = self.next_temps(now);
        Seq::new(
            LED_NUM as nat,
            |i: int| fire_color(t[i], self.brightness, Self::blade_seed(rs, i)),
        )
    }
}

/// Green share of the fire ramp, in tenths: heat 1-9 maps to that many
/// tenths, anything hotter saturates at full green (toward near-white).
pub open spec fn green_tenths(temp: u8) -> u32 {
    if temp >= 10 {
        10
    } else {
        temp as u32
    }
}

/// Blue share of the fire ramp, in twentieths: nothing below heat 6, then
/// one twentieth more per unit, capped at a quarter intensity.
pub open spec fn blue_twentieths(temp: u8) -> u32 {
    if temp >= 10 {
        5
    } else if temp >= 6 {
        (temp - 5) as u32
    } else {
        0
    }
}

/// The fire ramp: black at heat 0, otherwise red at full flicker intensity
/// with green and blue shares growing with the heat (red, toward yellow,
/// toward near-white).  The flicker intensity is `brightness` scaled twice
/// by `(seed % 20) / 20`.
pub open spec fn fire_color(temp: u8, bright: u8, seed: u32) -> Rgb {
    if temp == 0 {
        Rgb::black()
    } else {
        let f = seed % 20;
        let flick = bright * f * f;
        Rgb {
            r: (flick / 400) as u8,
            g: ((flick * green_tenths(temp)) / 4000) as u8,
            b: ((flick * blue_twentieths(temp)) / 8000) as u8,
        }
    }
}

/// A heat column fed at its base: sparks and base heat are injected low,
/// heat rises and cools as it climbs, and every blade flickers.
pub struct ShellFireEffect {
    pub temperatures: [u8; LED_NUM],
    pub brightness: u8,
    pub delay_ms: u32,
    pub last_update: u32,
    pub fire_beat: u32,
    pub fire_spark_odds: u32,
    pub random_state: u32,
}

impl View for ShellFireEffect {
    type V = FireView;

    open spec fn view(&self) -> FireView {
        FireView {
            temps: self.temperatures@,
            brightness: self.brightness,
            delay_ms: self.delay_ms,
            last_update: self.last_update,
            fire_beat: self.fire_beat,
            fire_spark_odds: self.fire_spark_odds,
            random_state: self.random_state,
        }
    }
}

impl ShellFireEffect {
    pub fn new(brightness: u8, delay_ms: u32) -> (e: ShellFireEffect)
        ensures
            e@ == FireView::initial(brightness, delay_ms),
            e@.wf(),
    {
        // Seed the hot core: a descending heat ramp across the low blades.
        let mut temps = [0u8; 32];
        for i in 0..10usize
            invariant
                temps@.len() == LED_NUM,
                forall|j: int| 0 <= j < i ==> temps@[j] == (6 - j / 2) as u8,
                forall|j: int| i <= j < LED_NUM ==> temps@[j] == 0u8,
        {
            temps[i] = 6 - (i / 2) as u8;
        }

        let e = ShellFireEffect {
            temperatures: temps,
            brightness,
            delay_ms,
            last_update: 0,
            fire_beat: 0,
            fire_spark_odds: 8,
            random_state: 0xDEADBEEF,
        };
        assert(e@.temps =~= FireView::initial(brightness, delay_ms).temps);
        assert(e@ =~= FireView::initial(brightness, delay_ms));
        e
    }

    /// One blade of the fire ramp under the flicker drawn from `seed`.
    fn get_rand_temperature_color(&self, temperature: u8, seed: u32) -> (c: Rgb)
        ensures
            c == fire_color(temperature, self.brightness, seed),
    {
        // Black for a cold blade.
        if temperature == 0 {
            return Rgb::new(0, 0, 0);
        }

        let f = seed % 20;
        assert(self.brightness as int * f as int <= 255 * 19
            && self.brightness as int * f as int * f as int <= 255 * 19 * 19) by (nonlinear_arith)
            requires
                self.brightness as int <= 255,
                f as int <= 19,
        ;
        let flick = self.brightness as u32 * f * f;

        let gt = if temperature >= 10 {
            10
        } else {
            temperature as u32
        };
        let bt = if temperature >= 10 {
            5
        } else if temperature >= 6 {
            (temperature - 5) as u32
        } else {
            0
        };
        assert(flick as int * gt as int <= 92055 * 10 && flick as int * bt as int <= 92055 * 5)
            by (nonlinear_arith)
            requires
                flick as int <= 92055,
                gt as int <= 10,
                bt as int <= 5,
        ;

        Rgb::new(((flick / 400) as u8), ((flick * gt / 4000) as u8), ((flick * bt / 8000) as u8))
    }

    /// One tick.  Before the throttle interval has elapsed nothing happens
    /// and `false` comes back; on an active tick the generator advances,
    /// heat rises one blade with decay, a spark and base heat may be
    /// injected low, and the whole flickering column is rendered into the
    /// buffer.
    pub fn update(&mut self, lights: &mut LightPorts, now: u32) -> (changed: bool)
        requires
            old(self)@.wf(),
            old(lights)@.wf(),
        ensures
            changed == old(self)@.steps(now),
            !changed ==> *final(self) == *old(self) && *final(lights) == *old(lights),
            changed ==> final(self)@ == old(self)@.next_state(now),
            changed ==> final(lights)@.leds == old(self)@.rendered(now),
            changed ==> final(lights)@.blink == Seq::new(LED_NUM as nat, |i: int| false),
            changed ==> final(lights)@.blink_on == old(lights)@.blink_on,
            changed ==> final(lights)@.blink_next == old(lights)@.blink_next,
            final(self)@.wf(),
            final(lights)@.wf(),
    {
        if elapsed_ms(now, self.last_update) < self.delay_ms {
            return false;
        }

        self.last_update = now;
        self.fire_beat = self.fire_beat.wrapping_add(1);

        // Advance the generator, mixing in the current tick.
        self.random_state = next_random(self.random_state, now);

        let ghost pre = old(self)@.temps;
        let ghost rs = old(self)@.next_rand(now);

        // A beat interval of one: the animation step runs on every active
        // tick.
        if self.fire_beat % 1 == 0 {
            // Heat rises: process from high to low so each blade still reads
            // the unshifted value below it.
            let mut blade: usize = LED_NUM - 1;
            while blade >= 1
                invariant
                    blade < LED_NUM,
                    self.temperatures@.len() == LED_NUM,
                    pre.len() == LED_NUM,
                    self.brightness == old(self).brightness,
                    self.delay_ms == old(self).delay_ms,
                    self.last_update == now,
                    self.fire_beat == vstd::wrapping::u32_specs::wrapping_add(
                        old(self).fire_beat,
                        1,
                    ),
                    self.fire_spark_odds == old(self).fire_spark_odds,
                    self.random_state == rs,
                    forall|j: int| 0 <= j <= blade ==> self.temperatures@[j] == pre[j],
                    forall|j: int|
                        blade < j < LED_NUM ==> self.temperatures@[j] == FireView::shifted(pre)[j],
                decreases blade,
            {
                if self.temperatures[blade - 1] > 0 {
                    // One unit of decay at every third blade, so heat
                    // travels further before it dies.
                    let decay: u8 = if blade % 3 == 0 {
                        1
                    } else {
                        0
                    };
                    self.temperatures[blade] = if self.temperatures[blade - 1] > decay {
                        self.temperatures[blade - 1] - decay
                    } else {
                        0
                    };
                } else {
                    // Natural cooling for a blade with no heat below it.
                    self.temperatures[blade] = if self.temperatures[blade] > 0 {
                        self.temperatures[blade] - 1
                    } else {
                        0
                    };
                }
                blade = blade - 1;
            }
            assert(self.temperatures@ =~= FireView::shifted(pre));

            // Random spark anywhere in the first third of the strip.
            let rand_val = self.random_state % self.fire_spark_odds;
            if rand_val == 0 {
                let spark_pos = ((self.random_state >> 8) % ((LED_NUM / 3) as u32)) as usize;
                // A higher starting heat, 8-12.
                let spark_temp = (((self.random_state >> 16) % 5) + 8) as u8;
                self.temperatures[spark_pos] = spark_temp;
            }
            assert(self.temperatures@ =~= FireView::sparked(
                FireView::shifted(pre),
                rs,
                old(self).fire_spark_odds,
            ));

            // Keep the core hot: maintain some heat at the base.
            let base_heat_val = (self.random_state >> 20) % 3;
            if base_heat_val == 0 {
                let base_pos = ((self.random_state >> 12) % 5) as usize;
                if self.temperatures[base_pos] < 5 {
                    self.temperatures[base_pos] = 5 + ((self.random_state >> 18) % 3) as u8;
                }
            }
            assert(self.temperatures@ =~= old(self)@.next_temps(now));
        }

        // Flicker the fire.
        let ghost temps = old(self)@.next_temps(now);
        for blade in 0..LED_NUM
            invariant
                self.temperatures@ == temps,
                temps.len() == LED_NUM,
                self.brightness == old(self).brightness,
                self.delay_ms == old(self).delay_ms,
                self.last_update == now,
                self.fire_beat == vstd::wrapping::u32_specs::wrapping_add(old(self).fire_beat, 1),
                self.fire_spark_odds == old(self).fire_spark_odds,
                self.random_state == rs,
                lights@.wf(),
                lights@.blink_on == old(lights)@.blink_on,
                lights@.blink_next == old(lights)@.blink_next,
                forall|j: int|
                    0 <= j < blade ==> lights@.leds[j] == fire_color(
                        temps[j],
                        old(self).brightness,
                        FireView::blade_seed(rs, j),
                    ),
                forall|j: int| 0 <= j < blade ==> lights@.blink[j] == false,
                forall|j: int| blade <= j < LED_NUM ==> lights@.leds[j] == old(lights)@.leds[j],
                forall|j: int| blade <= j < LED_NUM ==> lights@.blink[j] == old(lights)@.blink[j],
        {
            let flicker_seed = self.random_state.wrapping_add(blade as u32 * 7919);
            let color = self.get_rand_temperature_color(self.temperatures[blade], flicker_seed);
            let _ = lights.set_blade(blade as u8, color, false);
        }
        assert(lights@.leds =~= old(self)@.rendered(now));
        assert(lights@.blink =~= Seq::new(LED_NUM as nat, |i: int| false));
        assert(self@ =~= old(self)@.next_state(now));

        true
    }
}

} // verus!
