//! A bounded integer changed by dragging the pointer up or down.
use vstd::prelude::*;

use crate::utils::decimal;

verus! {

/// Vertical pointer travel, in pixels, that moves the value by one.
pub const STEP: i64 = 10;

/// A pointer position in whole pixels.
#[derive(Clone, Copy, Debug, PartialEq, Eq)]
pub struct Point {
    pub x: i32,
    pub y: i32,
}

/// `v` limited to the range `[min, max]`.
pub open spec fn clamp(v: int, min: int, max: int) -> int {
    if v < min {
        min
    } else if v > max {
        max
    } else {
        v
    }
}

/// Whole steps in a vertical travel of `dy` pixels, whatever its direction.
pub open spec fn steps_of(dy: int) -> int {
    if dy >= 0 {
        dy / (STEP as int)
    } else {
        (-dy) / (STEP as int)
    }
}

/// The value a drag reaches from `start` after a vertical travel of `dy`
/// pixels: downward (positive `dy`) adds one per step, upward takes one per
/// step but never goes below zero, and the result is held to `[min, max]`.
pub open spec fn drag_target(start: int, min: int, max: int, dy: int) -> int {
    let steps = steps_of(dy);
    if dy >= 0 {
        clamp(start + steps, min, max)
    } else {
        clamp(start - (if steps < start { steps } else { start }), min, max)
    }
}

/// What a `SliderNumber` holds, as mathematical values.
pub ghost struct SliderModel {
    pub id: Seq<char>,
    pub value: int,
    pub min: int,
    pub max: int,
    pub start_value: int,
    pub start_position: Option<Point>,
}

impl SliderModel {
    /// The bounds are ordered and both the value and its snapshot lie within them.
    pub open spec fn wf(self) -> bool {
        &&& 0 <= self.min <= self.max
        &&& self.min <= self.value <= self.max
        &&& self.min <= self.start_value <= self.max
    }

    /// A drag of this widget is in progress.
    pub open spec fn dragging(self) -> bool {
        self.start_position is Some
    }

    /// The model after a drag begins with the pointer at `position`.
    pub open spec fn begun(self, position: Point) -> SliderModel {
        SliderModel { start_value: self.value, start_position: Some(position), ..self }
    }

    /// The model after a drag-move to `position` under the drag `drag_id`.
    pub open spec fn moved(self, drag_id: Seq<char>, position: Point) -> SliderModel {
        if drag_id == self.id && self.dragging() {
            SliderModel {
                value: drag_target(
                    self.start_value,
                    self.min,
                    self.max,
                    position.y - self.start_position.unwrap().y,
                ),
                ..self
            }
        } else {
            self
        }
    }
}

/// A spinner: an integer in `[min, max]` that a vertical drag changes.
pub struct SliderNumber {
    id: String,
    value: u32,
    min: u32,
    max: u32,
    start_value: u32,
    start_position: Option<Point>,
}

impl View for SliderNumber {
    type V = SliderModel;

    closed spec fn view(&self) -> SliderModel {
        SliderModel {
            id: self.id@,
            value: self.value as int,
            min: self.min as int,
            max: self.max as int,
            start_value: self.start_value as int,
            start_position: self.start_position,
        }
    }
}

impl SliderNumber {
    /// A spinner named `id` over `[min, max]`, showing `value` held to those
    /// bounds, with no drag in progress.
    pub fn new(id: String, value: u32, min: u32, max: u32) -> (r: Self)
        requires
            min <= max,
        ensures
            r@.wf(),
            r@.id == id@,
            r@.value == clamp(value as int, min as int, max as int),
            r@.min == min,
            r@.max == max,
            !r@.dragging(),
    {
        let v = if value < min {
            min
        } else if value > max {
            max
        } else {
            value
        };
        SliderNumber { id, value: v, min, max, start_value: min, start_position: None }
    }

    pub fn id(&self) -> (r: &String)
        ensures
            r@ == self@.id,
    {
        &self.id
    }

    pub fn value(&self) -> (r: u32)
        ensures
            r == self@.value,
    {
        self.value
    }

    pub fn min(&self) -> (r: u32)
        ensures
            r == self@.min,
    {
        self.min
    }

    pub fn max(&self) -> (r: u32)
        ensures
            r == self@.max,
    {
        self.max
    }

    pub fn start_value(&self) -> (r: u32)
        ensures
            r == self@.start_value,
    {
        self.start_value
    }

    pub fn start_position(&self) -> (r: Option<Point>)
        ensures
            r == self@.start_position,
    {
        self.start_position
    }

    pub fn is_dragging(&self) -> (r: bool)
        ensures
            r == self@.dragging(),
    {
        self.start_position.is_some()
    }

    /// Begins a drag with the pointer at `position`: snapshots the value and
    /// the position.
    pub fn on_drag_handler(&mut self, position: Point)
        requires
            old(self)@.wf(),
        ensures
            final(self)@ == old(self)@.begun(position),
    {
        self.start_value = self.value;
        self.start_position = Some(position);
    }

    /// Handles a drag-move with the pointer at `position`, under the drag
    /// named `drag_id`. A drag of another widget, or a move with no drag in
    /// progress, changes nothing. Otherwise the value becomes the drag
    /// target for the vertical travel since the drag began. Returns the new
    /// value exactly when it changed, for the change callback.
    pub fn on_drag_move_handler(&mut self, drag_id: &String, position: Point) -> (r: Option<u32>)
        requires
            old(self)@.wf(),
        ensures
            final(self)@ == old(self)@.moved(drag_id@, position),
            final(self)@.wf(),
            r == (if final(self)@.value != old(self)@.value {
                Some(final(self)@.value as u32)
            } else {
                None::<u32>
            }),
    {
        if *drag_id != self.id {
            return None;
        }
        let start = match self.start_position {
            Some(p) => p,
            None => {
                return None;
            },
        };
        let dy: i64 = position.y as i64 - start.y as i64;
        let steps: u64 = if dy >= 0 {
            (dy / STEP) as u64
        } else {
            ((-dy) / STEP) as u64
        };
        let start_value = self.start_value as u64;
        let raw: u64 = if dy >= 0 {
            start_value + steps
        } else if steps < start_value {
            start_value - steps
        } else {
            0
        };
        let new_value: u32 = if raw < self.min as u64 {
            self.min
        } else if raw > self.max as u64 {
            self.max
        } else {
            raw as u32
        };
        let old_value = self.value;
        self.value = new_value;
        if new_value != old_value {
            Some(new_value)
        } else {
            None
        }
    }

    /// Ends the drag; the value stays where the drag left it.
    pub fn on_drag_end(&mut self)
        requires
            old(self)@.wf(),
        ensures
            final(self)@ == (SliderModel { start_position: None, ..old(self)@ }),
    {
        self.start_position = None;
    }

    /// The value in plain decimal, as shown when no formatter is set.
    pub fn text(&self) -> (r: String)
        ensures
            r@ == decimal(self@.value as nat),
    {
        let mut s = String::new();
        crate::utils::push_decimal(&mut s, self.value as u64);
        s
    }
}

/// A drag never takes the value out of its bounds.
pub proof fn lemma_drag_within_bounds(start: int, min: int, max: int, dy: int)
    requires
        0 <= min <= start <= max,
    ensures
        min <= drag_target(start, min, max, dy) <= max,
{
}

/// Dragging down never lowers the value, and dragging up never raises it.
pub proof fn lemma_drag_direction(start: int, min: int, max: int, dy: int)
    requires
        0 <= min <= start <= max,
    ensures
        dy >= 0 ==> drag_target(start, min, max, dy) >= start,
        dy <= 0 ==> drag_target(start, min, max, dy) <= start,
{
}

/// Travel shorter than one step leaves the value as it was; travel shorter
/// than two steps moves it by at most one.
pub proof fn lemma_drag_step_quantum(start: int, min: int, max: int, dy: int)
    requires
        0 <= min <= start <= max,
    ensures
        -STEP < dy < STEP ==> drag_target(start, min, max, dy) == start,
        -2 * STEP < dy < 2 * STEP ==> start - 1 <= drag_target(start, min, max, dy) <= start
            + 1,
{
}

/// From zero, with zero as the lower bound, an upward drag stays at zero:
/// the value never wraps around.
pub proof fn lemma_drag_no_underflow(max: int, dy: int)
    requires
        0 <= max,
        dy < 0,
    ensures
        drag_target(0, 0, max, dy) == 0,
{
}

/// Beginning a drag twice in a row snapshots the same value, and a
/// following move depends only on the later snapshot.
pub proof fn lemma_begin_twice(m: SliderModel, first: Point, second: Point, drag_id: Seq<char>, to: Point)
    requires
        m.wf(),
    ensures
        m.begun(first).begun(second).start_value == m.begun(first).start_value,
        m.begun(first).begun(second).moved(drag_id, to) == m.begun(second).moved(drag_id, to),
{
}

} // verus!
