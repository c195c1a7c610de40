use vstd::prelude::*;

verus! {

/// The value of a slider: a single value, or a range of values.
///
/// The value type is a parameter: a slider over numbers of type `T` holds a
/// `SliderValue<T>`. A single value reads as a range that starts and ends at
/// that value.
#[derive(Clone, Copy, Debug, PartialEq)]
pub enum SliderValue<T> {
    Single(T),
    Range(T, T),
}

/// Events emitted by a slider.
#[derive(Clone, Copy, Debug, PartialEq)]
pub enum SliderEvent<T> {
    /// Emitted continuously while the value is being changed by the user.
    Change(SliderValue<T>),
    /// Emitted once when the user releases the slider after a drag or click.
    Release(SliderValue<T>),
}

/// A bare value is treated as a single value.
impl<T> From<T> for SliderValue<T> {
    fn from(value: T) -> (r: SliderValue<T>)
        ensures
            r == SliderValue::Single(value),
    {
        SliderValue::Single(value)
    }
}

impl<T> vstd::std_specs::convert::FromSpecImpl<T> for SliderValue<T> {
    open spec fn obeys_from_spec() -> bool {
        true
    }

    open spec fn from_spec(v: T) -> SliderValue<T> {
        SliderValue::Single(v)
    }
}

/// A pair `(start, end)` is treated as a range.
impl<T> From<(T, T)> for SliderValue<T> {
    fn from(value: (T, T)) -> (r: SliderValue<T>)
        ensures
            r == SliderValue::Range(value.0, value.1),
    {
        SliderValue::Range(value.0, value.1)
    }
}

impl<T> vstd::std_specs::convert::FromSpecImpl<(T, T)> for SliderValue<T> {
    open spec fn obeys_from_spec() -> bool {
        true
    }

    open spec fn from_spec(v: (T, T)) -> SliderValue<T> {
        SliderValue::Range(v.0, v.1)
    }
}

/// A half-open range `start..end` is treated as a range.
impl<T> From<core::ops::Range<T>> for SliderValue<T> {
    fn from(value: core::ops::Range<T>) -> (r: SliderValue<T>)
        ensures
            r == SliderValue::Range(value.start, value.end),
    {
        SliderValue::Range(value.start, value.end)
    }
}

impl<T> vstd::std_specs::convert::FromSpecImpl<core::ops::Range<T>> for SliderValue<T> {
    open spec fn obeys_from_spec() -> bool {
        true
    }

    open spec fn from_spec(v: core::ops::Range<T>) -> SliderValue<T> {
        SliderValue::Range(v.start, v.end)
    }
}

/// The default value is a single value at the value type's default (zero for
/// numbers).
impl<T: Default> Default for SliderValue<T> {
    fn default() -> (r: SliderValue<T>)
        ensures
            r matches SliderValue::Single(v) && call_ensures(T::default, (), v),
    {
        SliderValue::Single(T::default())
    }
}

impl<T> SliderValue<T> {
    /// The first end of the value: the value itself for a single value.
    pub open spec fn start_spec(self) -> T {
        match self {
            SliderValue::Single(v) => v,
            SliderValue::Range(s, _) => s,
        }
    }

    /// The second end of the value: the value itself for a single value.
    pub open spec fn end_spec(self) -> T {
        match self {
            SliderValue::Single(v) => v,
            SliderValue::Range(_, e) => e,
        }
    }

    /// Check if the value is a single value.
    pub fn is_single(&self) -> (b: bool)
        ensures
            b <==> *self is Single,
    {
        match self {
            SliderValue::Single(_) => true,
            SliderValue::Range(_, _) => false,
        }
    }

    /// Check if the value is a range of values.
    pub fn is_range(&self) -> (b: bool)
        ensures
            b <==> *self is Range,
    {
        match self {
            SliderValue::Single(_) => false,
            SliderValue::Range(_, _) => true,
        }
    }
}

impl<T: Copy> SliderValue<T> {
    /// Get the start value.
    pub fn start(&self) -> (v: T)
        ensures
            v == self.start_spec(),
    {
        match self {
            SliderValue::Single(value) => *value,
            SliderValue::Range(start, _) => *start,
        }
    }

    /// Get the end value.
    pub fn end(&self) -> (v: T)
        ensures
            v == self.end_spec(),
    {
        match self {
            SliderValue::Single(value) => *value,
            SliderValue::Range(_, end) => *end,
        }
    }
}

/// Every value is exactly one of a single value and a range.
pub proof fn lemma_value_exactly_one_shape<T>(v: SliderValue<T>)
    ensures
        (v is Single) != (v is Range),
{
}

/// A single value starts and ends at itself.
pub proof fn lemma_single_starts_and_ends_at_itself<T>(x: T)
    ensures
        SliderValue::Single(x).start_spec() == x,
        SliderValue::Single(x).end_spec() == x,
{
}

} // verus!
