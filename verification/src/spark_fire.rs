use vstd::prelude::*;
use crate::rgb::Rgb;
use crate::pallet::{
    pack_temperature, adjust_spec, color_bright_spec, get_temperature, adjust_temperature,
    get_color_bright, lemma_adjust_step, lemma_adjust_floor,
};
use crate::ticks::{ticks_elapsed, elapsed_ms};
use crate::rand::{lcg_step, next_random};
use crate::light_ports::{LightPorts, LED_NUM};

verus! {

/// Ghost summary of the spark fire effect: a 32-byte temperature trail,
/// fixed brightness and throttle, the last active tick and the generator
/// state.
#[verifier::ext_equal]
pub struct SparkFireView {
    pub temps: Seq<u8>,
    pub brightness: u8,
    pub delay_ms: u32,
    pub last_update: u32,
    pub spark_odds: u32,
    pub random_state: u32,
}

impl SparkFireView {
    pub open spec fn wf(self) -> bool {
        self.temps.len() == LED_NUM && self.spark_odds > 0
    }

    /// The state a fresh spark fire effect starts from: a cold trail, one
    /// ignition in `spark_odds` active ticks, and a fixed seed.
    pub open spec fn initial(brightness: u8, delay_ms: u32) -> SparkFireView {
        SparkFireView {
            temps: Seq::new(LED_NUM as nat, |i: int| 0u8),
            brightness,
            delay_ms,
            last_update: 0,
            spark_odds: 30,
            random_state: 0x12345678,
        }
    }

    /// Whether a tick at `now` is an active one: the throttle interval has
    /// elapsed since the last active tick (wraparound-safe).
    pub open spec fn steps(self, now: u32) -> bool {
        ticks_elapsed(now, self.last_update) >= self.delay_ms
    }

    /// The generator state after the active tick at `now`.
    pub open spec fn next_rand(self, now: u32) -> u32 {
        lcg_step(self.random_state, now)
    }

    /// The trail after the ignition draw: one active tick in `spark_odds`
    /// ignites blade 0 with a random tint in 1-6 at maximum level.
    pub open spec fn ignited_temps(self, now: u32) -> Seq<u8> {
        let rs = self.next_rand(now);
        if rs % self.spark_odds == 0 {
            self.temps.update(0, pack_temperature((((rs >> 16) % 6) + 1) as u8, 15))
        } else {
            self.temps
        }
    }

    /// One animation move of the trail: every value shifts one blade toward
    /// the tail, and the head decays by one level.
    pub open spec fn shifted(t: Seq<u8>) -> Seq<u8> {
        Seq::new(
            LED_NUM as nat,
            |i: int|
                if i == 0 {
                    adjust_spec(t[0], -1i8)
                } else {
                    t[i - 1]
                },
        )
    }

    /// The whole effect state after an active tick at `now`.
    pub open spec fn next_state(self, now: u32) -> SparkFireView {
        SparkFireView {
            temps: Self::shifted(self.ignited_temps(now)),
            brightness: self.brightness,
            delay_ms: self.delay_ms,
            last_update: now,
            spark_odds: self.spark_odds,
            random_state: self.next_rand(now),
        }
    }

    /// The colors an active tick writes into the buffer: the ignited trail,
    /// rendered through the temperature model before it shifts.
    pub open spec fn rendered(self, now: u32) -> Seq<Rgb> {
        let t = self.ignited_temps(now);
        Seq::new(LED_NUM as nat, |i: int| color_bright_spec(t[i], self.brightness))
    }
}

/// A spark born at the head of the strip propagates toward the tail, fading
/// by one level per active tick until it extinguishes.
pub struct ShellSparkFireEffect {
    pub temperatures: [u8; LED_NUM],
    pub brightness: u8,
    pub delay_ms: u32,
    pub last_update: u32,
    pub spark_odds: u32,
    pub random_state: u32,
}

impl View for ShellSparkFireEffect {
    type V = SparkFireView;

    open spec fn view(&self) -> SparkFireView {
        SparkFireView {
            temps: self.temperatures@,
            brightness: self.brightness,
            delay_ms: self.delay_ms,
            last_update: self.last_update,
            spark_odds: self.spark_odds,
            random_state: self.random_state,
        }
    }
}

impl ShellSparkFireEffect {
    pub fn new(brightness: u8, delay_ms: u32) -> (e: ShellSparkFireEffect)
        ensures
            e@ == SparkFireView::initial(brightness, delay_ms),
            e@.wf(),
    {
        let temps = [0u8; 32];

        let e = ShellSparkFireEffect {
            temperatures: temps,
            brightness,
            delay_ms,
            last_update: 0,
            spark_odds: 30,
            random_state: 0x12345678,
        };
        assert(e@ =~= SparkFireView::initial(brightness, delay_ms));
        e
    }

    /// One tick.  Before the throttle interval has elapsed nothing happens
    /// and `false` comes back; on an active tick the generator advances,
    /// blade 0 may ignite, the ignited trail is rendered into the buffer,
    /// then the trail shifts toward the tail and the head decays.
    pub fn update(&mut self, lights: &mut LightPorts, now: u32) -> (changed: bool)
        requires
            old(self)@.wf(),
            old(lights)@.wf(),
        ensures
            changed == old(self)@.steps(now),
            !changed ==> *final(self) == *old(self) && *final(lights) == *old(lights),
            changed ==> final(self)@ == old(self)@.next_state(now),
            changed ==> final(lights)@.leds == old(self)@.rendered(now),
            changed ==> final(lights)@.blink == Seq::new(LED_NUM as nat, |i: int| false),
            changed ==> final(lights)@.blink_on == old(lights)@.blink_on,
            changed ==> final(lights)@.blink_next == old(lights)@.blink_next,
            final(self)@.wf(),
            final(lights)@.wf(),
    {
        if elapsed_ms(now, self.last_update) < self.delay_ms {
            return false;
        }

        self.last_update = now;

        // Advance the generator, mixing in the current tick.
        self.random_state = next_random(self.random_state, now);

        // Random spark at the head of the strip.
        let rand_val = self.random_state % self.spark_odds;
        if rand_val == 0 {
            // A different part of the state picks the tint.
            let tint = ((self.random_state >> 16) % 6) as u8 + 1;
            self.temperatures[0] = get_temperature(tint, 15);
        }
        let ghost ignited = old(self)@.ignited_temps(now);
        assert(self.temperatures@ =~= ignited);

        // Render every blade of the trail into the buffer.
        for blade in 0..LED_NUM
            invariant
                self.temperatures@ == ignited,
                ignited.len() == LED_NUM,
                self.brightness == old(self).brightness,
                self.delay_ms == old(self).delay_ms,
                self.last_update == now,
                self.spark_odds == old(self).spark_odds,
                self.random_state == old(self)@.next_rand(now),
                lights@.wf(),
                lights@.blink_on == old(lights)@.blink_on,
                lights@.blink_next == old(lights)@.blink_next,
                forall|j: int|
                    0 <= j < blade ==> lights@.leds[j] == color_bright_spec(
                        ignited[j],
                        old(self).brightness,
                    ),
                forall|j: int| 0 <= j < blade ==> lights@.blink[j] == false,
                forall|j: int| blade <= j < LED_NUM ==> lights@.leds[j] == old(lights)@.leds[j],
                forall|j: int| blade <= j < LED_NUM ==> lights@.blink[j] == old(lights)@.blink[j],
        {
            let color = get_color_bright(self.temperatures[blade], self.brightness);
            let _ = lights.set_blade(blade as u8, color, false);
        }
        assert(lights@.leds =~= old(self)@.rendered(now));
        assert(lights@.blink =~= Seq::new(LED_NUM as nat, |i: int| false));

        // Animate the trail: shift toward the tail, decay the head.
        let mut blade: usize = LED_NUM - 1;
        while blade >= 1
            invariant
                blade < LED_NUM,
                self.temperatures@.len() == LED_NUM,
                ignited.len() == LED_NUM,
                self.brightness == old(self).brightness,
                self.delay_ms == old(self).delay_ms,
                self.last_update == now,
                self.spark_odds == old(self).spark_odds,
                self.random_state == old(self)@.next_rand(now),
                forall|j: int| 0 <= j <= blade ==> self.temperatures@[j] == ignited[j],
                forall|j: int|
                    blade < j < LED_NUM ==> self.temperatures@[j] == ignited[j - 1],
            decreases blade,
        {
            self.temperatures[blade] = self.temperatures[blade - 1];
            blade = blade - 1;
        }
        self.temperatures[0] = adjust_temperature(self.temperatures[0], -1);
        assert(self.temperatures@ =~= SparkFireView::shifted(ignited));
        assert(self@ =~= old(self)@.next_state(now));

        true
    }
}

/// The trail after `n` animation moves.
pub open spec fn shifted_n(t: Seq<u8>, n: nat) -> Seq<u8>
    decreases n,
{
    if n == 0 {
        t
    } else {
        SparkFireView::shifted(shifted_n(t, (n - 1) as nat))
    }
}

/// The effect after a sequence of ticks, one state move per tick.
pub open spec fn run(v: SparkFireView, nows: Seq<u32>) -> SparkFireView
    decreases nows.len(),
{
    if nows.len() == 0 {
        v
    } else {
        run(v.next_state(nows[0]), nows.drop_first())
    }
}

/// A run of ticks on which the effect always animates (each throttle has
/// elapsed) and the ignition draw never fires.
pub open spec fn quiet_run(v: SparkFireView, nows: Seq<u32>) -> bool
    decreases nows.len(),
{
    nows.len() == 0 || {
        &&& v.steps(nows[0])
        &&& v.next_rand(nows[0]) % v.spark_odds != 0
        &&& quiet_run(v.next_state(nows[0]), nows.drop_first())
    }
}

/// What one blade of a lone propagating spark holds, by the age of the
/// value that reached it: the ignition level less one per move since the
/// value left the head, down to the extinguished byte — and nothing at all
/// on blades the spark has not reached or has already left past the tail.
pub open spec fn trail_val(tint: u8, age: int) -> u8 {
    if age < 0 {
        0u8
    } else if age <= 14 {
        pack_temperature(tint, (15 - age) as u8)
    } else {
        0u8
    }
}

proof fn lemma_shifted_n_commute(t: Seq<u8>, k: nat)
    ensures
        shifted_n(SparkFireView::shifted(t), k) == shifted_n(t, k + 1),
    decreases k,
{
    if k == 0 {
        assert(shifted_n(SparkFireView::shifted(t), 0) == SparkFireView::shifted(t));
        assert(shifted_n(t, 1) == SparkFireView::shifted(shifted_n(t, 0)));
    } else {
        lemma_shifted_n_commute(t, (k - 1) as nat);
        assert(shifted_n(SparkFireView::shifted(t), k) == SparkFireView::shifted(
            shifted_n(SparkFireView::shifted(t), (k - 1) as nat),
        ));
        assert(shifted_n(t, k + 1) == SparkFireView::shifted(shifted_n(t, k)));
    }
}

proof fn lemma_quiet_run_is_shift(v: SparkFireView, nows: Seq<u32>)
    requires
        v.wf(),
        quiet_run(v, nows),
    ensures
        run(v, nows).temps == shifted_n(v.temps, nows.len()),
        run(v, nows).wf(),
    decreases nows.len(),
{
    if nows.len() > 0 {
        let v1 = v.next_state(nows[0]);
        assert(v1.temps == SparkFireView::shifted(v.temps));
        lemma_quiet_run_is_shift(v1, nows.drop_first());
        lemma_shifted_n_commute(v.temps, (nows.len() - 1) as nat);
    }
}

proof fn lemma_shifted_trail(t: Seq<u8>, tint: u8, n: nat)
    requires
        t.len() == LED_NUM,
        tint <= 6,
        t[0] == pack_temperature(tint, 15),
        forall|j: int| 1 <= j < LED_NUM ==> t[j] == 0u8,
    ensures
        forall|j: int| 0 <= j < LED_NUM ==> shifted_n(t, n)[j] == trail_val(tint, n - j),
    decreases n,
{
    if n == 0 {
        assert(forall|j: int| 0 <= j < LED_NUM ==> shifted_n(t, n)[j] == trail_val(tint, -j));
    } else {
        lemma_shifted_trail(t, tint, (n - 1) as nat);
        let prev = shifted_n(t, (n - 1) as nat);
        assert(prev[0] == trail_val(tint, n - 1));
        if n - 1 <= 13 {
            lemma_adjust_step(tint, (15 - (n - 1)) as u8);
        } else if n - 1 == 14 {
            lemma_adjust_step(tint, 1);
        } else {
            lemma_adjust_floor();
        }
        assert(shifted_n(t, n)[0] == adjust_spec(prev[0], -1i8));
        assert(shifted_n(t, n)[0] == trail_val(tint, n as int));
    }
}

/// Law: spark trail propagation.  Ignite the head at level 15, then run the
/// effect through ticks on which it always animates and never ignites
/// again: after `N` such ticks the value that left the head on move `N-j`
/// sits at blade `j` with the tint kept and the level worn down one step
/// per move since ignition — so the head reads level `15-N` until it
/// extinguishes, the spark's front carries down the strip, and every value
/// vanishes once it shifts past the last blade.
pub proof fn lemma_spark_trail(v: SparkFireView, tint: u8, nows: Seq<u32>)
    requires
        v.wf(),
        1 <= tint <= 6,
        v.temps[0] == pack_temperature(tint, 15),
        forall|j: int| 1 <= j < LED_NUM ==> v.temps[j] == 0u8,
        quiet_run(v, nows),
    ensures
        forall|j: int|
            0 <= j < LED_NUM ==> run(v, nows).temps[j] == trail_val(tint, nows.len() - j),
{
    lemma_quiet_run_is_shift(v, nows);
    lemma_shifted_trail(v.temps, tint, nows.len());
}

} // verus!
