use vstd::prelude::*;

use crate::value::{SliderEvent, SliderValue};

verus! {

/// Bookkeeping of a pointer gesture on a slider: whether the user is pressing
/// it, and the anchor of the drag in progress.
///
/// The anchor is whatever the caller needs to continue a drag relative to
/// where it began (the pointer position and track length when the press
/// happened); this type only keeps it, and decides when it is used, renewed
/// and dropped.
pub struct DragState<A> {
    dragging: bool,
    anchor: Option<A>,
}

/// The abstract state of a gesture.
pub struct DragModel<A> {
    /// The user has moved the value since the last release.
    pub dragging: bool,
    /// Where the drag in progress began, if this slider saw it begin.
    pub anchor: Option<A>,
}

/// How to handle a pointer move during a drag.
#[derive(Clone, Copy, Debug, PartialEq)]
pub enum DragPlan<A> {
    /// No anchor: the drag began somewhere this state never saw, so read the
    /// pointer absolutely, as a press.
    Press,
    /// Continue relative to the anchor taken when the drag began.
    Continue(A),
}

impl<A> DragModel<A> {
    /// A slider nobody has touched yet.
    pub open spec fn initial() -> DragModel<A> {
        DragModel { dragging: false, anchor: None }
    }

    /// After a press that records `anchor`.
    pub open spec fn pressed(self, anchor: A) -> DragModel<A> {
        DragModel { dragging: self.dragging, anchor: Some(anchor) }
    }

    /// After the user moved the value.
    pub open spec fn moved(self) -> DragModel<A> {
        DragModel { dragging: true, anchor: self.anchor }
    }

    /// After the pointer was released, inside or outside the slider.
    pub open spec fn released(self) -> DragModel<A> {
        DragModel { dragging: false, anchor: None }
    }

    /// What a release announces, the slider holding `value`.
    pub open spec fn release_event<T>(self, value: SliderValue<T>) -> Option<SliderEvent<T>> {
        if self.dragging {
            Some(SliderEvent::Release(value))
        } else {
            None
        }
    }

    /// How the next pointer move of a drag is handled.
    pub open spec fn plan(self) -> DragPlan<A> {
        match self.anchor {
            Some(a) => DragPlan::Continue(a),
            None => DragPlan::Press,
        }
    }
}

impl<A> View for DragState<A> {
    type V = DragModel<A>;

    closed spec fn view(&self) -> DragModel<A> {
        DragModel { dragging: self.dragging, anchor: self.anchor }
    }
}

impl<A> DragState<A> {
    /// A gesture state for a slider nobody has touched yet.
    pub fn new() -> (s: Self)
        ensures
            s@ == DragModel::<A>::initial(),
    {
        DragState { dragging: false, anchor: None }
    }

    /// Whether the user has moved the value since the last release.
    pub fn is_dragging(&self) -> (b: bool)
        ensures
            b == self@.dragging,
    {
        self.dragging
    }

    /// Begin a drag: remember where it started.
    pub fn press(&mut self, anchor: A)
        ensures
            final(self)@ == old(self)@.pressed(anchor),
    {
        self.anchor = Some(anchor);
    }

    /// The user moved the slider to `value`: mark the gesture as a real
    /// interaction and give the event that announces the change.
    pub fn moved<T>(&mut self, value: SliderValue<T>) -> (e: SliderEvent<T>)
        ensures
            final(self)@ == old(self)@.moved(),
            e == SliderEvent::Change(value),
    {
        self.dragging = true;
        SliderEvent::Change(value)
    }

    /// The pointer was released, the slider holding `value`.
    ///
    /// The anchor is dropped whether or not a drag was in progress, so the
    /// next drag is not relative to where the last one started. A release is
    /// announced only after a real press or drag.
    pub fn release<T>(&mut self, value: SliderValue<T>) -> (e: Option<SliderEvent<T>>)
        ensures
            final(self)@ == old(self)@.released(),
            e == old(self)@.release_event(value),
    {
        self.anchor = None;
        if !self.dragging {
            return None;
        }
        self.dragging = false;
        Some(SliderEvent::Release(value))
    }
}

impl<A: Copy> DragState<A> {
    /// How to handle the next pointer move of a drag.
    pub fn plan(&self) -> (p: DragPlan<A>)
        ensures
            p == self@.plan(),
    {
        match self.anchor {
            Some(a) => DragPlan::Continue(a),
            None => DragPlan::Press,
        }
    }
}

/// A release clears the gesture: no anchor is kept and nothing counts as
/// dragging any more, whatever the state before.
pub proof fn lemma_release_clears<A>(m: DragModel<A>)
    ensures
        m.released().anchor is None,
        !m.released().dragging,
        m.released() == DragModel::<A>::initial(),
{
}

/// A release is announced only after a real press or drag: never on an
/// untouched slider, and never twice for one gesture.
pub proof fn lemma_release_only_after_interaction<A, T>(m: DragModel<A>, v: SliderValue<T>)
    ensures
        DragModel::<A>::initial().release_event(v) is None,
        m.released().release_event(v) is None,
        m.release_event(v) is Some <==> m.dragging,
{
}

/// After the user moved the value, the release announces the value held at
/// the release.
pub proof fn lemma_release_after_move<A, T>(m: DragModel<A>, v: SliderValue<T>)
    ensures
        m.moved().release_event(v) == Some(SliderEvent::Release(v)),
{
}

/// A drag continues relative to the anchor of the latest press, however the
/// value moved since; after a release, the next drag starts afresh from the
/// pointer.
pub proof fn lemma_drag_follows_latest_press<A>(m: DragModel<A>, a: A)
    ensures
        m.pressed(a).plan() == DragPlan::Continue(a),
        m.pressed(a).moved().plan() == DragPlan::Continue(a),
        m.released().plan() == DragPlan::<A>::Press,
        DragModel::<A>::initial().plan() == DragPlan::<A>::Press,
{
}

} // verus!
