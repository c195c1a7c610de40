use vstd::prelude::*;

verus! {

/// The direction along which a slider's track runs.
#[derive(Debug, Clone, Copy, PartialEq, Eq, Structural)]
pub enum Axis {
    Horizontal,
    Vertical,
}

impl Axis {
    /// Whether the track runs left to right.
    pub fn is_horizontal(&self) -> (b: bool)
        ensures
            b <==> *self == Axis::Horizontal,
    {
        match self {
            Axis::Horizontal => true,
            Axis::Vertical => false,
        }
    }

    /// Whether the track runs bottom to top.
    pub fn is_vertical(&self) -> (b: bool)
        ensures
            b <==> *self == Axis::Vertical,
    {
        match self {
            Axis::Horizontal => false,
            Axis::Vertical => true,
        }
    }
}

/// Which pointer handlers a slider attaches when it is drawn, and which
/// thumbs it shows. The end thumb is always shown.
#[derive(Debug, Clone, Copy, PartialEq, Eq, Structural)]
pub struct PointerWiring {
    /// A mouse-up over the slider ends the gesture.
    pub release_inside: bool,
    /// A mouse-up anywhere else ends the gesture too.
    pub release_outside: bool,
    /// A mouse-down on the track jumps the nearer thumb there.
    pub press_track: bool,
    /// Dragging the track itself moves the value.
    pub drag_track: bool,
    /// The thumbs can be dragged.
    pub drag_thumbs: bool,
    /// A start thumb is shown beside the end thumb.
    pub start_thumb: bool,
}

/// The wiring of a slider that is `disabled` or not and holds a range or a
/// single value: a disabled slider takes no pointer input at all; an enabled
/// one ends a gesture on a mouse-up inside and outside it, jumps to a press
/// on the track and lets its thumbs be dragged; the track itself can be
/// dragged only for a single value, and a start thumb is shown only for a
/// range.
pub open spec fn wiring(disabled: bool, is_range: bool) -> PointerWiring {
    PointerWiring {
        release_inside: !disabled,
        release_outside: !disabled,
        press_track: !disabled,
        drag_track: !disabled && !is_range,
        drag_thumbs: !disabled,
        start_thumb: is_range,
    }
}

/// Where a drag lands: a drag that began on the slider `source` and holds
/// the start thumb or not moves that thumb of the slider `this` when both are
/// the same slider, and is ignored by any other slider.
pub open spec fn drag_target_spec(source: u64, holds_start: bool, this: u64) -> Option<bool> {
    if source == this {
        Some(holds_start)
    } else {
        None
    }
}

/// Where a drag lands, as [`drag_target_spec`] says: `Some(holds_start)`
/// when the drag began on this slider, `None` when it began on another.
pub fn drag_target(source: u64, holds_start: bool, this: u64) -> (r: Option<bool>)
    ensures
        r == drag_target_spec(source, holds_start, this),
{
    if source == this {
        Some(holds_start)
    } else {
        None
    }
}

/// A disabled slider attaches no pointer handler.
pub proof fn lemma_disabled_takes_no_input(is_range: bool)
    ensures
        ({
            let w = wiring(true, is_range);
            !w.release_inside && !w.release_outside && !w.press_track && !w.drag_track
                && !w.drag_thumbs
        }),
{
}

/// Every gesture a slider lets begin can end: whenever a press or a drag is
/// handled, a mouse-up both inside and outside the slider is handled too.
pub proof fn lemma_every_gesture_can_end(disabled: bool, is_range: bool)
    ensures
        ({
            let w = wiring(disabled, is_range);
            (w.press_track || w.drag_track || w.drag_thumbs) ==> (w.release_inside
                && w.release_outside)
        }),
{
}

/// A start thumb is shown exactly for a range, and the track itself is
/// dragged only for a single value.
pub proof fn lemma_thumbs_follow_shape(disabled: bool, is_range: bool)
    ensures
        wiring(disabled, is_range).start_thumb == is_range,
        wiring(disabled, is_range).drag_track ==> !is_range,
{
}

/// A drag never moves a slider other than the one it began on.
pub proof fn lemma_drag_stays_on_its_slider(source: u64, holds_start: bool, this: u64)
    ensures
        drag_target_spec(source, holds_start, this) is Some <==> source == this,
        drag_target_spec(this, holds_start, this) == Some(holds_start),
{
}

/// A slider element, bound to the state it shows (`E`, a handle to it) and
/// carrying its style refinement (`S`).
pub struct Slider<E, S> {
    state: E,
    axis: Axis,
    style: S,
    disabled: bool,
}

impl<E, S> Slider<E, S> {
    /// The handle to the state this slider shows.
    pub closed spec fn state_spec(self) -> E {
        self.state
    }

    /// The direction of the track.
    pub closed spec fn axis_spec(self) -> Axis {
        self.axis
    }

    /// The style refinement.
    pub closed spec fn style_spec(self) -> S {
        self.style
    }

    /// Whether the slider ignores the pointer.
    pub closed spec fn disabled_spec(self) -> bool {
        self.disabled
    }

    /// Create a new slider bound to `state`: horizontal, enabled, with the
    /// default style.
    pub fn new(state: &E) -> (s: Self)
        where
            E: Clone,
            S: Default,
        ensures
            call_ensures(E::clone, (state,), s.state_spec()),
            s.axis_spec() == Axis::Horizontal,
            call_ensures(S::default, (), s.style_spec()),
            !s.disabled_spec(),
    {
        Slider { axis: Axis::Horizontal, state: state.clone(), style: S::default(), disabled: false }
    }

    /// As a horizontal slider.
    pub fn horizontal(self) -> (s: Self)
        ensures
            s.axis_spec() == Axis::Horizontal,
            s.state_spec() == self.state_spec(),
            s.style_spec() == self.style_spec(),
            s.disabled_spec() == self.disabled_spec(),
    {
        let mut s = self;
        s.axis = Axis::Horizontal;
        s
    }

    /// As a vertical slider.
    pub fn vertical(self) -> (s: Self)
        ensures
            s.axis_spec() == Axis::Vertical,
            s.state_spec() == self.state_spec(),
            s.style_spec() == self.style_spec(),
            s.disabled_spec() == self.disabled_spec(),
    {
        let mut s = self;
        s.axis = Axis::Vertical;
        s
    }

    /// Set the disabled state of the slider.
    pub fn disabled(self, disabled: bool) -> (s: Self)
        ensures
            s.disabled_spec() == disabled,
            s.state_spec() == self.state_spec(),
            s.axis_spec() == self.axis_spec(),
            s.style_spec() == self.style_spec(),
    {
        let mut s = self;
        s.disabled = disabled;
        s
    }

    /// The handle to the state this slider shows.
    pub fn state(&self) -> (e: &E)
        ensures
            *e == self.state_spec(),
    {
        &self.state
    }

    /// The direction of the track.
    pub fn axis(&self) -> (a: Axis)
        ensures
            a == self.axis_spec(),
    {
        self.axis
    }

    /// The style refinement.
    pub fn style(&self) -> (st: &S)
        ensures
            *st == self.style_spec(),
    {
        &self.style
    }

    /// The style refinement, to be refined in place.
    pub fn style_mut(&mut self) -> (st: &mut S)
        ensures
            *st == old(self).style_spec(),
            final(self).style_spec() == *final(st),
            final(self).state_spec() == old(self).state_spec(),
            final(self).axis_spec() == old(self).axis_spec(),
            final(self).disabled_spec() == old(self).disabled_spec(),
    {
        &mut self.style
    }

    /// Whether the slider ignores the pointer.
    pub fn is_disabled(&self) -> (b: bool)
        ensures
            b == self.disabled_spec(),
    {
        self.disabled
    }

    /// Which pointer handlers this slider attaches and which thumbs it shows,
    /// for a value that is a range or not.
    pub fn pointer_wiring(&self, is_range: bool) -> (w: PointerWiring)
        ensures
            w == wiring(self.disabled_spec(), is_range),
    {
        let enabled = !self.disabled;
        PointerWiring {
            release_inside: enabled,
            release_outside: enabled,
            press_track: enabled,
            drag_track: enabled && !is_range,
            drag_thumbs: enabled,
            start_thumb: is_range,
        }
    }

    /// Put a slider together from its state handle, axis, style and disabled
    /// flag.
    pub fn from_parts(state: E, axis: Axis, style: S, disabled: bool) -> (s: Self)
        ensures
            s.state_spec() == state,
            s.axis_spec() == axis,
            s.style_spec() == style,
            s.disabled_spec() == disabled,
    {
        Slider { state, axis, style, disabled }
    }

    /// Take the slider apart into its state handle, axis, style and disabled
    /// flag.
    pub fn into_parts(self) -> (parts: (E, Axis, S, bool))
        ensures
            parts == (self.state_spec(), self.axis_spec(), self.style_spec(), self.disabled_spec()),
    {
        (self.state, self.axis, self.style, self.disabled)
    }
}

} // verus!
