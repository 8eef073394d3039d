//! The values that the parameters of the device take.
//!
//! Every value stands for one integer. A ranged value is tagged valid or
//! invalid by whether the integer lies in its range; a mode or style is one
//! of the names that are known, or the integer itself where it has no name.
//! Either way nothing is lost: the integer that went in comes out again.

use crate::device::parameter::ParameterValue;
use vstd::prelude::*;

verus! {

/// A value of a device parameter: it stands for an integer, and the device
/// holds a fixed number of bytes of it.
pub trait IntoParameterValue: Copy {
    /// The integer that the value stands for.
    spec fn raw(self) -> i32;

    /// The value that stands for an integer.
    spec fn of_raw(raw: i32) -> Self;

    /// The number of bytes that the device holds of such a value.
    spec fn wire_size() -> usize;

    /// The number of bytes that the device holds of such a value.
    fn size() -> (size: usize)
        ensures
            size == Self::wire_size(),
    ;

    /// The integer that the value stands for.
    fn to_i32(self) -> (raw: i32)
        ensures
            raw == self.raw(),
    ;

    /// The value that stands for an integer.
    fn from_i32(raw: i32) -> (value: Self)
        ensures
            value == Self::of_raw(raw),
    ;

    /// Whether two values are the same, tag and number.
    fn same(self, other: Self) -> (same: bool)
        ensures
            same == (self == other),
    ;

    /// An integer that is turned into a value and back is unchanged.
    proof fn lemma_round_trip(raw: i32)
        ensures
            Self::of_raw(raw).raw() == raw,
    ;

    /// The size is one that the device knows.
    proof fn lemma_wire_size()
        ensures
            Self::wire_size() == 1 || Self::wire_size() == 2 || Self::wire_size() == 4,
    ;
}

/// What a value is on the wire: its integer and its size.
pub open spec fn wire_value<V: IntoParameterValue>(value: V) -> ParameterValue {
    ParameterValue { value: value.raw(), size: V::wire_size() }
}

/// Lays a value out for the wire.
pub fn into_parameter_value<V: IntoParameterValue>(value: V) -> (parameter: ParameterValue)
    ensures
        parameter == wire_value(value),
        parameter.has_wire_size(),
{
    proof {
        V::lemma_wire_size();
    }
    ParameterValue::new(value.to_i32(), V::size())
}

} // verus!
