//! The countdown: a target time of day, the two spinners that set it, and
//! the texts it shows.
use vstd::prelude::*;
use vstd::string::StringExecFns;

use crate::slider_number::{Point, SliderModel, SliderNumber};
use crate::utils::{
    duration_text, format_duration, format_hm, hm_text, remaining_secs, remaining_until,
    LocalTime, TimeSpan,
};

verus! {

/// Name of the hour spinner, which its drags carry.
pub open spec fn hour_id() -> Seq<char> {
    "hour"@
}

/// Name of the minute spinner, which its drags carry.
pub open spec fn minute_id() -> Seq<char> {
    "minute"@
}

/// The two spinners carry different names.
pub proof fn lemma_ids_differ()
    ensures
        hour_id() != minute_id(),
{
    reveal_strlit("hour");
    reveal_strlit("minute");
    assert(hour_id().len() != minute_id().len());
}

/// What a `Countdown` holds, as mathematical values.
pub ghost struct CountdownModel {
    pub hour: int,
    pub minute: int,
    pub hour_slider: SliderModel,
    pub minute_slider: SliderModel,
}

impl CountdownModel {
    /// The target is a valid time of day, and each spinner covers its range,
    /// carries its name and shows the field it is bound to.
    pub open spec fn wf(self) -> bool {
        &&& 0 <= self.hour <= 23
        &&& 0 <= self.minute <= 59
        &&& self.hour_slider.wf()
        &&& self.hour_slider.id == hour_id()
        &&& self.hour_slider.min == 0
        &&& self.hour_slider.max == 23
        &&& self.hour_slider.value == self.hour
        &&& self.minute_slider.wf()
        &&& self.minute_slider.id == minute_id()
        &&& self.minute_slider.min == 0
        &&& self.minute_slider.max == 59
        &&& self.minute_slider.value == self.minute
    }
}

/// A countdown to `hour:minute`, set by dragging its two spinners.
pub struct Countdown {
    hour: u32,
    minute: u32,
    hour_slider: SliderNumber,
    minute_slider: SliderNumber,
}

impl View for Countdown {
    type V = CountdownModel;

    closed spec fn view(&self) -> CountdownModel {
        CountdownModel {
            hour: self.hour as int,
            minute: self.minute as int,
            hour_slider: self.hour_slider@,
            minute_slider: self.minute_slider@,
        }
    }
}

/// A spinner named `id` over `[min, max]` starting at `value`.
fn build_slider(id: &str, value: u32, min: u32, max: u32) -> (r: SliderNumber)
    requires
        min <= value <= max,
    ensures
        r@.wf(),
        r@.id == id@,
        r@.value == value,
        r@.min == min,
        r@.max == max,
        !r@.dragging(),
{
    SliderNumber::new(String::from_str(id), value, min, max)
}

impl Countdown {
    /// A countdown to `hour:minute`, with no drag in progress.
    pub fn new(hour: u32, minute: u32) -> (r: Self)
        requires
            hour <= 23,
            minute <= 59,
        ensures
            r@.wf(),
            r@.hour == hour,
            r@.minute == minute,
            !r@.hour_slider.dragging(),
            !r@.minute_slider.dragging(),
    {
        let hour_slider = build_slider("hour", hour, 0, 23);
        let minute_slider = build_slider("minute", minute, 0, 59);
        Countdown { hour, minute, hour_slider, minute_slider }
    }

    pub fn hour(&self) -> (r: u32)
        ensures
            r == self@.hour,
    {
        self.hour
    }

    pub fn minute(&self) -> (r: u32)
        ensures
            r == self@.minute,
    {
        self.minute
    }

    pub fn hour_slider(&self) -> (r: &SliderNumber)
        ensures
            r@ == self@.hour_slider,
    {
        &self.hour_slider
    }

    pub fn minute_slider(&self) -> (r: &SliderNumber)
        ensures
            r@ == self@.minute_slider,
    {
        &self.minute_slider
    }

    /// The target as a time of day carrying the seconds of `now`.
    pub fn get_time(&self, now: &LocalTime) -> (r: LocalTime)
        ensures
            r == (LocalTime { hour: self@.hour as u32, minute: self@.minute as u32, second: now.second }),
    {
        LocalTime { hour: self.hour, minute: self.minute, second: now.second }
    }

    /// The time left from `now` until the target next comes round.
    pub fn get_duration(&self, now: &LocalTime) -> (r: TimeSpan)
        requires
            self@.wf(),
            now.wf(),
        ensures
            r.seconds == remaining_secs(self@.hour as nat, self@.minute as nat, *now),
    {
        remaining_until(self.hour, self.minute, now)
    }

    /// The remaining time as `HH:MM`.
    pub fn remaining_text(&self, now: &LocalTime) -> (r: String)
        requires
            self@.wf(),
            now.wf(),
        ensures
            r@ == duration_text(
                TimeSpan { seconds: remaining_secs(self@.hour as nat, self@.minute as nat, *now) as u64 },
            ),
    {
        let d = self.get_duration(now);
        format_duration(&d)
    }

    /// The target as `HH:MM`.
    pub fn target_text(&self) -> (r: String)
        ensures
            r@ == hm_text(self@.hour as nat, self@.minute as nat),
    {
        format_hm(self.hour, self.minute)
    }

    /// A drag begins on the spinner named `drag_id`, with the pointer at
    /// `position`; a name that is neither spinner's changes nothing.
    pub fn on_drag_begin(&mut self, drag_id: &String, position: Point)
        requires
            old(self)@.wf(),
        ensures
            final(self)@.wf(),
            final(self)@ == (if drag_id@ == hour_id() {
                CountdownModel { hour_slider: old(self)@.hour_slider.begun(position), ..old(self)@ }
            } else if drag_id@ == minute_id() {
                CountdownModel {
                    minute_slider: old(self)@.minute_slider.begun(position),
                    ..old(self)@
                }
            } else {
                old(self)@
            }),
    {
        if *drag_id == *self.hour_slider.id() {
            self.hour_slider.on_drag_handler(position);
        } else if *drag_id == *self.minute_slider.id() {
            self.minute_slider.on_drag_handler(position);
        }
    }

    /// A drag-move under the drag named `drag_id` reaches both spinners; each
    /// acts only on its own drag, and a change it reports is written into the
    /// field the spinner is bound to. Returns whether the target changed.
    pub fn on_drag_move(&mut self, drag_id: &String, position: Point) -> (r: bool)
        requires
            old(self)@.wf(),
        ensures
            final(self)@.wf(),
            final(self)@.hour_slider == old(self)@.hour_slider.moved(drag_id@, position),
            final(self)@.minute_slider == old(self)@.minute_slider.moved(drag_id@, position),
            final(self)@.hour == final(self)@.hour_slider.value,
            final(self)@.minute == final(self)@.minute_slider.value,
            r == (final(self)@.hour != old(self)@.hour || final(self)@.minute != old(self)@.minute),
    {
        let mut changed = false;
        if let Some(v) = self.hour_slider.on_drag_move_handler(drag_id, position) {
            self.hour = v;
            changed = true;
        }
        if let Some(v) = self.minute_slider.on_drag_move_handler(drag_id, position) {
            self.minute = v;
            changed = true;
        }
        changed
    }

    /// The drag named `drag_id` ends; values stay where it left them.
    pub fn on_drag_end(&mut self, drag_id: &String)
        requires
            old(self)@.wf(),
        ensures
            final(self)@.wf(),
            final(self)@.hour == old(self)@.hour,
            final(self)@.minute == old(self)@.minute,
            final(self)@.hour_slider.dragging() == (old(self)@.hour_slider.dragging() && drag_id@
                != hour_id()),
            final(self)@.minute_slider.dragging() == (old(self)@.minute_slider.dragging()
                && drag_id@ != minute_id()),
    {
        proof {
            lemma_ids_differ();
        }
        if *drag_id == *self.hour_slider.id() {
            self.hour_slider.on_drag_end();
        } else if *drag_id == *self.minute_slider.id() {
            self.minute_slider.on_drag_end();
        }
    }
}

} // verus!
