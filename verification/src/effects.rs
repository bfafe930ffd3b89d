use vstd::prelude::*;
use crate::rgb::Rgb;
use crate::ticks::{ticks_elapsed, elapsed_ms};
use crate::light_ports::{LightPorts, LightsView, LED_NUM};
use crate::spark_fire::{ShellSparkFireEffect, SparkFireView};
use crate::fire::{ShellFireEffect, FireView};
use crate::spiral::{ShellSpiralEffect, SpiralView};

verus! {

/// The closed set of effects the manager rotates through.
pub enum Effect {
    ShellFire(ShellFireEffect),
    ShellSparkFire(ShellSparkFireEffect),
    ShellSpiral(ShellSpiralEffect),
}

/// Ghost summary of whichever effect is active.
#[verifier::ext_equal]
pub enum EffectView {
    ShellFire(FireView),
    ShellSparkFire(SparkFireView),
    ShellSpiral(SpiralView),
}

impl View for Effect {
    type V = EffectView;

    open spec fn view(&self) -> EffectView {
        match self {
            Effect::ShellFire(e) => EffectView::ShellFire(e@),
            Effect::ShellSparkFire(e) => EffectView::ShellSparkFire(e@),
            Effect::ShellSpiral(e) => EffectView::ShellSpiral(e@),
        }
    }
}

impl EffectView {
    pub open spec fn wf(self) -> bool {
        match self {
            EffectView::ShellFire(e) => e.wf(),
            EffectView::ShellSparkFire(e) => e.wf(),
            EffectView::ShellSpiral(e) => e.wf(),
        }
    }

    /// Whether the active effect's throttle has elapsed at `now`.
    pub open spec fn steps(self, now: u32) -> bool {
        match self {
            EffectView::ShellFire(e) => e.steps(now),
            EffectView::ShellSparkFire(e) => e.steps(now),
            EffectView::ShellSpiral(e) => e.steps(now),
        }
    }

    /// The active effect's state after an active tick at `now`.
    pub open spec fn next_state(self, now: u32) -> EffectView {
        match self {
            EffectView::ShellFire(e) => EffectView::ShellFire(e.next_state(now)),
            EffectView::ShellSparkFire(e) => EffectView::ShellSparkFire(e.next_state(now)),
            EffectView::ShellSpiral(e) => EffectView::ShellSpiral(e.next_state(now)),
        }
    }

    /// What an active tick leaves in the buffer colors: the fire effects
    /// repaint the whole strip, the spiral repaints one blade.
    pub open spec fn next_leds(self, now: u32, leds: Seq<Rgb>) -> Seq<Rgb> {
        match self {
            EffectView::ShellFire(e) => e.rendered(now),
            EffectView::ShellSparkFire(e) => e.rendered(now),
            EffectView::ShellSpiral(e) => e.next_leds(leds),
        }
    }

    /// What an active tick leaves in the blink flags.
    pub open spec fn next_blink(self, blink: Seq<bool>) -> Seq<bool> {
        match self {
            EffectView::ShellFire(_) => Seq::new(LED_NUM as nat, |i: int| false),
            EffectView::ShellSparkFire(_) => Seq::new(LED_NUM as nat, |i: int| false),
            EffectView::ShellSpiral(e) => e.next_blink(blink),
        }
    }
}

/// The fixed parameter set each rotation slot instantiates: slot 0 the
/// fire, slot 1 the spiral, every other slot the spark fire.
pub open spec fn fresh_effect(index: int) -> EffectView {
    if index == 0 {
        EffectView::ShellFire(FireView::initial(120, 60))
    } else if index == 1 {
        EffectView::ShellSpiral(SpiralView::initial(80, 50))
    } else {
        EffectView::ShellSparkFire(SparkFireView::initial(100, 50))
    }
}

/// The buffer right after a rotation's clear step: every blade black and
/// not blinking, the blink phase and deadline untouched.
pub open spec fn cleared(lights: LightsView) -> LightsView {
    LightsView {
        leds: Seq::new(LED_NUM as nat, |i: int| Rgb::black()),
        blink: Seq::new(LED_NUM as nat, |i: int| false),
        blink_on: lights.blink_on,
        blink_next: lights.blink_next,
    }
}

/// Ghost summary of the manager: the active effect, its rotation slot, the
/// fixed per-effect duration and when the active effect began.
#[verifier::ext_equal]
pub struct ManagerView {
    pub current_effect: EffectView,
    pub effect_index: usize,
    pub effect_duration_sec: u32,
    pub effect_start_time: u32,
}

impl ManagerView {
    pub open spec fn wf(self) -> bool {
        self.current_effect.wf() && self.effect_index < 3
    }

    /// Whether the active effect's time is up at `now`: whole seconds
    /// elapsed since it began (wraparound-safe) have reached the fixed
    /// duration.
    pub open spec fn rotates(self, now: u32) -> bool {
        ticks_elapsed(now, self.effect_start_time) / 1000 >= self.effect_duration_sec
    }

    /// The rotation itself: the slot advances cyclically, the next effect
    /// is built fresh from its fixed parameters, and its clock starts now.
    pub open spec fn rotated(self, now: u32) -> ManagerView {
        ManagerView {
            current_effect: fresh_effect(((self.effect_index + 1) % 3) as int),
            effect_index: ((self.effect_index + 1) % 3) as usize,
            effect_duration_sec: self.effect_duration_sec,
            effect_start_time: now,
        }
    }

    /// One manager tick over the whole system: a due rotation first clears
    /// every blade to black and swaps the effect, then the (possibly fresh)
    /// active effect takes the tick.
    pub open spec fn step(self, lights: LightsView, now: u32) -> (ManagerView, LightsView, bool) {
        let m1 = if self.rotates(now) {
            self.rotated(now)
        } else {
            self
        };
        let l1 = if self.rotates(now) {
            cleared(lights)
        } else {
            lights
        };
        if m1.current_effect.steps(now) {
            (
                ManagerView { current_effect: m1.current_effect.next_state(now), ..m1 },
                LightsView {
                    leds: m1.current_effect.next_leds(now, l1.leds),
                    blink: m1.current_effect.next_blink(l1.blink),
                    blink_on: l1.blink_on,
                    blink_next: l1.blink_next,
                },
                true,
            )
        } else {
            (m1, l1, false)
        }
    }
}

/// Owns exactly one active effect and rotates among the three on a fixed
/// schedule; every tick is delegated to the active effect.
pub struct EffectManager {
    pub current_effect: Effect,
    pub effect_index: usize,
    pub effect_duration_sec: u32,
    pub effect_start_time: u32,
}

impl View for EffectManager {
    type V = ManagerView;

    open spec fn view(&self) -> ManagerView {
        ManagerView {
            current_effect: self.current_effect@,
            effect_index: self.effect_index,
            effect_duration_sec: self.effect_duration_sec,
            effect_start_time: self.effect_start_time,
        }
    }
}

impl EffectManager {
    /// The manager as it comes up: the spark fire in slot 2, sixty seconds
    /// per effect, the clock started at `now`.
    pub fn new(now: u32) -> (m: EffectManager)
        ensures
            m@ == (ManagerView {
                current_effect: EffectView::ShellSparkFire(SparkFireView::initial(100, 50)),
                effect_index: 2,
                effect_duration_sec: 60,
                effect_start_time: now,
            }),
            m@.wf(),
    {
        EffectManager {
            current_effect: Effect::ShellSparkFire(ShellSparkFireEffect::new(100, 50)),
            effect_index: 2,
            effect_duration_sec: 60,
            effect_start_time: now,
        }
    }

    /// One tick of the whole system: rotate if the active effect's time is
    /// up (clearing the strip), then let the active effect animate.
    pub fn update(&mut self, lights: &mut LightPorts, now: u32) -> (changed: bool)
        requires
            old(self)@.wf(),
            old(lights)@.wf(),
        ensures
            ({
                let stepped = old(self)@.step(old(lights)@, now);
                &&& final(self)@ == stepped.0
                &&& final(lights)@ == stepped.1
                &&& changed == stepped.2
            }),
            final(self)@.wf(),
            final(lights)@.wf(),
    {
        // Check whether it is time to switch to the next effect.
        let elapsed = elapsed_ms(now, self.effect_start_time) / 1000;
        if elapsed >= self.effect_duration_sec {
            self.clear_all_blades(lights);
            self.next_effect(now);
        }

        // Run the current effect.
        let changed = match &mut self.current_effect {
            Effect::ShellFire(effect) => effect.update(lights, now),
            Effect::ShellSparkFire(effect) => effect.update(lights, now),
            Effect::ShellSpiral(effect) => effect.update(lights, now),
        };
        proof {
            let stepped = old(self)@.step(old(lights)@, now);
            assert(self@ =~= stepped.0);
            assert(lights@ =~= stepped.1);
        }
        changed
    }

    /// Advances the rotation slot cyclically and instantiates the next
    /// effect with its fixed parameter set, starting its clock at `now`.
    fn next_effect(&mut self, now: u32)
        requires
            old(self)@.wf(),
        ensures
            final(self)@ == old(self)@.rotated(now),
            final(self)@.wf(),
    {
        self.effect_index = (self.effect_index + 1) % 3;

        self.current_effect = match self.effect_index {
            0 => Effect::ShellFire(ShellFireEffect::new(120, 60)),
            1 => Effect::ShellSpiral(ShellSpiralEffect::new(80, 50)),
            _ => Effect::ShellSparkFire(ShellSparkFireEffect::new(100, 50)),
        };

        self.effect_start_time = now;
        assert(self@ =~= old(self)@.rotated(now));
    }

    /// Writes black, not blinking, to every blade; the blink phase and its
    /// deadline stay as they are.
    fn clear_all_blades(&self, lights: &mut LightPorts)
        requires
            old(lights)@.wf(),
        ensures
            final(lights)@.leds == Seq::new(LED_NUM as nat, |i: int| Rgb::black()),
            final(lights)@.blink == Seq::new(LED_NUM as nat, |i: int| false),
            final(lights)@.blink_on == old(lights)@.blink_on,
            final(lights)@.blink_next == old(lights)@.blink_next,
            final(lights)@.wf(),
    {
        for blade in 0..LED_NUM
            invariant
                lights@.wf(),
                lights@.blink_on == old(lights)@.blink_on,
                lights@.blink_next == old(lights)@.blink_next,
                forall|j: int| 0 <= j < blade ==> lights@.leds[j] == Rgb::black(),
                forall|j: int| 0 <= j < blade ==> lights@.blink[j] == false,
                forall|j: int| blade <= j < LED_NUM ==> lights@.leds[j] == old(lights)@.leds[j],
                forall|j: int| blade <= j < LED_NUM ==> lights@.blink[j] == old(lights)@.blink[j],
        {
            let _ = lights.set_blade(blade as u8, Rgb::new(0, 0, 0), false);
        }
        assert(lights@.leds =~= Seq::new(LED_NUM as nat, |i: int| Rgb::black()));
        assert(lights@.blink =~= Seq::new(LED_NUM as nat, |i: int| false));
    }
}

/// Law: when the active effect's time is up, one tick performs exactly one
/// rotation — the slot advances cyclically to the next effect of the fixed
/// cycle, every blade reads black right after the clear step, the new
/// effect's clock starts at `now` — and the rotated manager's time is not
/// up again at the same tick.
pub proof fn lemma_rotation(m: ManagerView, lights: LightsView, now: u32)
    requires
        m.wf(),
        lights.wf(),
        m.rotates(now),
        m.effect_duration_sec > 0,
    ensures
        ({
            let m1 = m.rotated(now);
            &&& m1.effect_index == (m.effect_index + 1) % 3
            &&& m1.current_effect == fresh_effect(((m.effect_index + 1) % 3) as int)
            &&& m1.effect_start_time == now
            &&& !m1.rotates(now)
            &&& m.step(lights, now).0.effect_index == m1.effect_index
        }),
        forall|i: int| 0 <= i < LED_NUM ==> #[trigger] cleared(lights).leds[i] == Rgb::black(),
{
}

} // verus!
