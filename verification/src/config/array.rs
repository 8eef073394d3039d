//! Putting the eight channels of a device together, one by one.
//!
//! The channels are gathered in an `arrayvec::ArrayVec`, which hands out a
//! fixed array once it is full.

use crate::config::group::GroupConfig;
use crate::config::group::GroupConfigView;
use crate::config::plan::read_groups;
use arrayvec::ArrayVec;
use vstd::pervasive::unreached;
use vstd::prelude::*;

verus! {

/// `arrayvec::ArrayVec`, a vector of bounded length that lives in an array.
#[verifier::external_type_specification]
#[verifier::external_body]
#[verifier::reject_recursive_types(T)]
pub struct ExArrayVec<T, const CAP: usize>(ArrayVec<T, CAP>);

/// The channels that an `ArrayVec` holds, first to last.
pub uninterp spec fn gathered(groups: ArrayVec<GroupConfig, 8>) -> Seq<GroupConfig>;

/// `ArrayVec::new`: a vector that holds nothing.
#[verifier::external_body]
fn new_array_vec() -> (groups: ArrayVec<GroupConfig, 8>)
    ensures
        gathered(groups) == Seq::<GroupConfig>::empty(),
{
    ArrayVec::new()
}

/// `ArrayVec::push`: the element is added behind the last. The call panics
/// on a vector that is full.
#[verifier::external_body]
fn push(groups: &mut ArrayVec<GroupConfig, 8>, group: GroupConfig)
    requires
        gathered(*old(groups)).len() < 8,
    ensures
        gathered(*final(groups)) == gathered(*old(groups)).push(group),
{
    groups.push(group)
}

/// `ArrayVec::into_inner`: the array of the elements if the vector is full,
/// the vector itself if it is not.
#[verifier::external_body]
fn into_inner(groups: ArrayVec<GroupConfig, 8>) -> (array: Result<
    [GroupConfig; 8],
    ArrayVec<GroupConfig, 8>,
>)
    ensures
        gathered(groups).len() == 8 ==> array is Ok && array->Ok_0@ == gathered(groups),
        gathered(groups).len() < 8 ==> array is Err && array->Err_0 == groups,
{
    groups.into_inner()
}

/// What a run of channels holds, channel by channel.
pub open spec fn groups_view(groups: Seq<GroupConfig>) -> Seq<GroupConfigView> {
    Seq::new(groups.len(), |group: int| groups[group]@)
}

/// The eight channels from the 120 integers that the device gave for their
/// parameters.
pub fn read_all(values: &[i32]) -> (groups: [GroupConfig; 8])
    requires
        values@.len() == 120,
    ensures
        groups_view(groups@) == read_groups(values@),
{
    let mut groups = new_array_vec();
    let mut index: usize = 0;
    while index < 8
        invariant
            index <= 8,
            values@.len() == 120,
            gathered(groups).len() == index,
            forall|group: int|
                0 <= group < index ==> (#[trigger] gathered(groups)[group])@ == GroupConfigView::read(
                    group as u32,
                    values@.subrange(15 * group, 15 * group + 15),
                ),
        decreases 8 - index,
    {
        let group = GroupConfig::get_group_configuration(index as u32, values, 15 * index);
        push(&mut groups, group);
        index += 1;
    }
    match into_inner(groups) {
        Ok(array) => {
            assert(groups_view(array@) =~= read_groups(values@));
            array
        },
        Err(_) => unreached(),
    }
}

} // verus!
