use vstd::prelude::*;
use crate::rgb::Rgb;
use crate::ticks::{time_after, is_after};

verus! {

/// Number of blades (addressable LED positions) on the strip.
pub const LED_NUM: usize = 32;

/// Half-period of the blink overlay: flagged blades toggle between their
/// color and black every this many milliseconds.
pub const BLINK_MSEC: u32 = 200;

/// The one recoverable error of the frame buffer.
#[derive(Clone, Copy, PartialEq, Eq, Structural, Debug)]
pub enum LightError {
    IndexOutOfRange,
}

/// Ghost summary of the frame buffer: the authoritative colors, the blink
/// flags, the current blink phase and the next blink-flip deadline.
#[verifier::ext_equal]
pub struct LightsView {
    pub leds: Seq<Rgb>,
    pub blink: Seq<bool>,
    pub blink_on: bool,
    pub blink_next: u32,
}

impl LightsView {
    pub open spec fn wf(self) -> bool {
        self.leds.len() == LED_NUM && self.blink.len() == LED_NUM
    }

    /// What a write to one blade stores: its color and blink flag, nothing
    /// else.
    pub open spec fn set_spec(self, blade: int, color: Rgb, blink: bool) -> LightsView {
        LightsView {
            leds: self.leds.update(blade, color),
            blink: self.blink.update(blade, blink),
            blink_on: self.blink_on,
            blink_next: self.blink_next,
        }
    }

    /// The frame a refresh composes: every blade whose blink flag is set
    /// shows black while the blink phase is off, all others their stored
    /// color.
    pub open spec fn composed_frame(self) -> Seq<Rgb> {
        Seq::new(
            LED_NUM as nat,
            |i: int|
                if self.blink[i] && !self.blink_on {
                    Rgb::black()
                } else {
                    self.leds[i]
                },
        )
    }

    /// One refresh: when `now` has passed the blink deadline the phase
    /// flips, the deadline advances by one blink period and a transmission
    /// is forced; otherwise a frame goes out only when the caller reports a
    /// content change, and a refresh with nothing changed transmits nothing.
    pub open spec fn refresh_step(self, updated: bool, now: u32) -> (LightsView, Option<Seq<Rgb>>) {
        let flip = time_after(now, self.blink_next);
        let next = if flip {
            LightsView {
                leds: self.leds,
                blink: self.blink,
                blink_on: !self.blink_on,
                blink_next: vstd::wrapping::u32_specs::wrapping_add(self.blink_next, BLINK_MSEC),
            }
        } else {
            self
        };
        if flip || updated {
            (next, Some(next.composed_frame()))
        } else {
            (next, None)
        }
    }
}

/// The colors a returned frame holds, as a sequence.
pub open spec fn frame_view(frame: Option<[Rgb; LED_NUM]>) -> Option<Seq<Rgb>> {
    match frame {
        Some(f) => Some(f@),
        None => None,
    }
}

/// The frame buffer and blink overlay: the authoritative per-blade state
/// written by the effects, and the logic that decides what frame, if any,
/// is worth handing to the strip driver.
pub struct LightPorts {
    pub led_data: [Rgb; LED_NUM],
    pub blink_mask: [bool; LED_NUM],
    pub blink_on: bool,
    pub blink_next: u32,
}

impl View for LightPorts {
    type V = LightsView;

    open spec fn view(&self) -> LightsView {
        LightsView {
            leds: self.led_data@,
            blink: self.blink_mask@,
            blink_on: self.blink_on,
            blink_next: self.blink_next,
        }
    }
}

impl LightPorts {
    /// A fresh buffer: every blade black, nothing blinking, the blink phase
    /// off and the first blink deadline at the current time.
    pub fn new(now: u32) -> (l: LightPorts)
        ensures
            l@.wf(),
            forall|i: int| 0 <= i < LED_NUM ==> l@.leds[i] == Rgb::black(),
            forall|i: int| 0 <= i < LED_NUM ==> l@.blink[i] == false,
            l@.blink_on == false,
            l@.blink_next == now,
    {
        LightPorts {
            led_data: [Rgb { r: 0, g: 0, b: 0 }; 32],
            blink_mask: [false; 32],
            blink_on: false,
            blink_next: now,
        }
    }

    /// The deadline of the blink flip after the one that just passed: one
    /// blink period later, on the wrapping clock.
    fn get_next_blink(&self) -> (t: u32)
        ensures
            t == vstd::wrapping::u32_specs::wrapping_add(self.blink_next, BLINK_MSEC),
    {
        self.blink_next.wrapping_add(BLINK_MSEC)
    }

    /// Stores one blade's color and blink flag without transmitting.
    /// Rejects a blade index beyond the strip and then changes nothing.
    pub fn set_blade(&mut self, blade: u8, color: Rgb, blink: bool) -> (r: Result<(), LightError>)
        ensures
            blade < LED_NUM ==> r == Ok::<(), LightError>(())
                && final(self)@ == old(self)@.set_spec(blade as int, color, blink),
            blade >= LED_NUM ==> r == Err::<(), LightError>(LightError::IndexOutOfRange)
                && *final(self) == *old(self),
    {
        let blade = blade as usize;
        if blade >= LED_NUM {
            return Err(LightError::IndexOutOfRange);
        }

        self.led_data[blade] = color;
        self.blink_mask[blade] = blink;

        Ok(())
    }

    /// One refresh tick: flips the blink phase when its deadline has
    /// passed, elides the transmission when nothing changed, and otherwise
    /// returns the composed 32-color frame for the strip driver.
    pub fn refresh(&mut self, updated: bool, now: u32) -> (frame: Option<[Rgb; LED_NUM]>)
        ensures
            final(self)@ == old(self)@.refresh_step(updated, now).0,
            frame_view(frame) == old(self)@.refresh_step(updated, now).1,
    {
        let mut updated = updated;
        if is_after(now, self.blink_next) {
            self.blink_next = self.get_next_blink();
            self.blink_on = !self.blink_on;
            updated = true;
        }
        if !updated {
            return None;
        }

        let mut current_leds = self.led_data;
        if !self.blink_on {
            for i in 0..LED_NUM
                invariant
                    current_leds@.len() == LED_NUM,
                    !self.blink_on,
                    forall|j: int|
                        0 <= j < i ==> current_leds@[j] == (if self.blink_mask@[j] {
                            Rgb::black()
                        } else {
                            self.led_data@[j]
                        }),
                    forall|j: int| i <= j < LED_NUM ==> current_leds@[j] == self.led_data@[j],
            {
                if self.blink_mask[i] {
                    current_leds[i] = Rgb::new(0, 0, 0);
                }
            }
        }
        assert(current_leds@ =~= self@.composed_frame());

        Some(current_leds)
    }
}

/// Law: a color written to a blade comes back exactly from the next
/// refresh — or black, when the blade's blink flag is set while the blink
/// phase ends up off.  (A refresh reported as a content change always
/// transmits.)
pub proof fn lemma_set_then_refresh(
    l: LightsView,
    blade: int,
    color: Rgb,
    blink: bool,
    now: u32,
)
    requires
        l.wf(),
        0 <= blade < LED_NUM,
    ensures
        ({
            let stepped = l.set_spec(blade, color, blink).refresh_step(true, now);
            stepped.1 matches Some(frame) && frame[blade] == (if blink && !stepped.0.blink_on {
                Rgb::black()
            } else {
                color
            })
        }),
{
}

/// Law: a refresh before the blink deadline with no content change
/// transmits nothing and leaves the buffer exactly as it was.
pub proof fn lemma_refresh_elision(l: LightsView, now: u32)
    requires
        l.wf(),
        !time_after(now, l.blink_next),
    ensures
        l.refresh_step(false, now) == (l, None::<Seq<Rgb>>),
{
}

/// Law: while a blade's blink flag stays set, refreshes that cross two
/// successive blink deadlines transmit opposite phases for that blade —
/// its stored color in the "on" phase and black in the "off" phase.
pub proof fn lemma_blink_alternates(l: LightsView, blade: int, upd1: bool, upd2: bool, now1: u32, now2: u32)
    requires
        l.wf(),
        0 <= blade < LED_NUM,
        l.blink[blade],
        time_after(now1, l.blink_next),
        time_after(
            now2,
            vstd::wrapping::u32_specs::wrapping_add(l.blink_next, BLINK_MSEC),
        ),
    ensures
        ({
            let first = l.refresh_step(upd1, now1);
            let second = first.0.refresh_step(upd2, now2);
            &&& first.0.blink_on == !l.blink_on
            &&& second.0.blink_on == l.blink_on
            &&& first.1 == Some(first.0.composed_frame())
            &&& second.1 == Some(second.0.composed_frame())
            &&& first.0.composed_frame()[blade] == (if first.0.blink_on {
                l.leds[blade]
            } else {
                Rgb::black()
            })
            &&& second.0.composed_frame()[blade] == (if second.0.blink_on {
                l.leds[blade]
            } else {
                Rgb::black()
            })
        }),
{
}

} // verus!
