//! The order of the 120 parameters of a device.
//!
//! A position is a place in that order: channel 0 with its 15 slots first,
//! then channel 1, and so on to channel 7. Reading asks for every position in
//! turn; committing visits every position in turn and writes where a change
//! waits.

use crate::config::group::lemma_committed_at;
use crate::config::group::lemma_read_settled;
use crate::config::group::GroupConfigView;
use crate::config::parameter::parameter_address;
use crate::device::parameter::ParameterValue;
use vstd::prelude::*;

verus! {

/// The number of channels of a device.
pub const GROUPS: usize = 8;

/// The number of parameters of a channel.
pub const SLOTS: usize = 15;

/// The number of parameters of a device.
pub const POSITIONS: usize = 120;

/// The address that a read asks for at `position`.
pub open spec fn read_address(position: int) -> u16 {
    GroupConfigView::address((position / 15) as u32, position % 15)
}

/// The addresses that a read asks for, in order.
pub open spec fn read_plan() -> Seq<u16> {
    Seq::new(120, |position: int| read_address(position))
}

/// The eight channels as the device describes them by the 120 integers that
/// it gave for the positions.
pub open spec fn read_groups(values: Seq<i32>) -> Seq<GroupConfigView> {
    Seq::new(8, |group: int| GroupConfigView::read(group as u32, values.subrange(15 * group, 15 * group + 15)))
}

/// Whether channel `g` of `groups` holds the parameters of channel `g`, for
/// each of them.
pub open spec fn indexed(groups: Seq<GroupConfigView>) -> bool {
    forall|group: int| 0 <= group < groups.len() ==> (#[trigger] groups[group]).indexed(group as u32)
}

/// Whether nothing waits to be written in any channel.
pub open spec fn settled(groups: Seq<GroupConfigView>) -> bool {
    forall|group: int| 0 <= group < groups.len() ==> (#[trigger] groups[group]).settled()
}

/// The address of the parameter at `position`.
pub open spec fn address_at(groups: Seq<GroupConfigView>, position: int) -> u16 {
    groups[position / 15].address_at(position % 15)
}

/// The change that waits to be written at `position`, if any.
pub open spec fn update_at(groups: Seq<GroupConfigView>, position: int) -> Option<ParameterValue> {
    groups[position / 15].update_at(position % 15)
}

/// The channels after the change at `position` was written.
pub open spec fn committed_at(groups: Seq<GroupConfigView>, position: int) -> Seq<GroupConfigView> {
    groups.update(position / 15, groups[position / 15].committed_at(position % 15))
}

/// The first position from `from` on at which a change waits; 120 if there
/// is none.
pub open spec fn next_update(groups: Seq<GroupConfigView>, from: int) -> int
    decreases 120 - from,
{
    if from >= 120 {
        120
    } else if update_at(groups, from) is Some {
        from
    } else {
        next_update(groups, from + 1)
    }
}

/// The positions from `from` on at which a change waits, in order.
pub open spec fn update_positions(groups: Seq<GroupConfigView>, from: int) -> Seq<int>
    decreases 120 - from,
{
    if from >= 120 {
        Seq::empty()
    } else if update_at(groups, from) is Some {
        seq![from] + update_positions(groups, from + 1)
    } else {
        update_positions(groups, from + 1)
    }
}

/// One write to the device: an address and the value to set there.
pub ghost struct Write {
    pub address: u16,
    pub value: ParameterValue,
}

/// The write that the change at `position` asks for.
pub open spec fn write_at(groups: Seq<GroupConfigView>, position: int) -> Write {
    Write { address: address_at(groups, position), value: update_at(groups, position)->Some_0 }
}

/// The writes that a commit makes from `from` on, in order: one for each
/// position at which a change waits, none for the others.
pub open spec fn writes(groups: Seq<GroupConfigView>, from: int) -> Seq<Write> {
    update_positions(groups, from).map_values(|position: int| write_at(groups, position))
}

/// A read asks for 120 parameters: channel by channel, and within a channel
/// for the seven of the fader, then for the eight of the button.
pub proof fn lemma_read_plan(group: int, slot: int)
    requires
        0 <= group < 8,
        0 <= slot < 15,
    ensures
        read_plan().len() == 120,
        slot < 7 ==> read_plan()[15 * group + slot] == parameter_address(
            group as u32,
            (0x2001 + slot) as u16,
        ),
        slot >= 7 ==> read_plan()[15 * group + slot] == parameter_address(
            group as u32,
            (0x4001 + slot - 7) as u16,
        ),
{
    let position = 15 * group + slot;
    assert(position / 15 == group && position % 15 == slot);
}

/// What was read belongs to the channels in order, and nothing waits in it.
pub proof fn lemma_read_groups(values: Seq<i32>)
    ensures
        read_groups(values).len() == 8,
        indexed(read_groups(values)),
        settled(read_groups(values)),
        forall|position: int| 0 <= position < 120 ==> update_at(read_groups(values), position) is None,
        update_positions(read_groups(values), 0) == Seq::<int>::empty(),
{
    let groups = read_groups(values);
    assert forall|group: int| 0 <= group < 8 implies (#[trigger] groups[group]).indexed(group as u32)
        && groups[group].settled() by {
        lemma_read_settled(group as u32, values.subrange(15 * group, 15 * group + 15));
    }
    assert forall|position: int| 0 <= position < 120 implies update_at(groups, position) is None by {
        let group = position / 15;
        lemma_read_settled(group as u32, values.subrange(15 * group, 15 * group + 15));
    }
    lemma_no_update(groups, 0);
}

/// Where the channels are in order, the parameter at a position has the
/// address that a read asks for at that position.
pub proof fn lemma_indexed_address(groups: Seq<GroupConfigView>, position: int)
    requires
        groups.len() == 8,
        indexed(groups),
        0 <= position < 120,
    ensures
        address_at(groups, position) == read_address(position),
{
    let group = position / 15;
    assert(groups[group].indexed(group as u32));
}

/// The first position at which a change waits lies at or behind `from`;
/// nothing waits between the two; and a change waits there, unless it is 120.
pub proof fn lemma_next_update(groups: Seq<GroupConfigView>, from: int)
    requires
        0 <= from <= 120,
    ensures
        from <= next_update(groups, from) <= 120,
        next_update(groups, from) < 120 ==> update_at(groups, next_update(groups, from)) is Some,
        forall|position: int|
            from <= position < next_update(groups, from) ==> update_at(groups, position) is None,
    decreases 120 - from,
{
    if from < 120 && update_at(groups, from) is None {
        lemma_next_update(groups, from + 1);
    }
}

/// Positions at which nothing waits add no write.
pub proof fn lemma_skip(groups: Seq<GroupConfigView>, from: int, to: int)
    requires
        0 <= from <= to <= 120,
        forall|position: int| from <= position < to ==> update_at(groups, position) is None,
    ensures
        update_positions(groups, from) == update_positions(groups, to),
        writes(groups, from) == writes(groups, to),
    decreases to - from,
{
    if from < to {
        lemma_skip(groups, from + 1, to);
    }
}

/// Where nothing waits from `from` on, nothing is written.
pub proof fn lemma_no_update(groups: Seq<GroupConfigView>, from: int)
    requires
        0 <= from <= 120,
        forall|position: int| from <= position < 120 ==> update_at(groups, position) is None,
    ensures
        update_positions(groups, from) == Seq::<int>::empty(),
        writes(groups, from) == Seq::<Write>::empty(),
        next_update(groups, from) == 120,
{
    lemma_skip(groups, from, 120);
    lemma_next_update(groups, from);
}

/// A commit writes first where the first change waits, and goes on behind
/// that position.
pub proof fn lemma_writes_unfold(groups: Seq<GroupConfigView>, from: int)
    requires
        0 <= from <= 120,
    ensures
        next_update(groups, from) == 120 ==> writes(groups, from) == Seq::<Write>::empty(),
        next_update(groups, from) < 120 ==> writes(groups, from) == seq![
            write_at(groups, next_update(groups, from)),
        ] + writes(groups, next_update(groups, from) + 1),
{
    let next = next_update(groups, from);
    lemma_next_update(groups, from);
    lemma_skip(groups, from, next);
    if next < 120 {
        let rest = update_positions(groups, next + 1);
        assert(update_positions(groups, next) == seq![next] + rest);
        assert(writes(groups, next) =~= seq![write_at(groups, next)] + writes(groups, next + 1));
    }
}

/// The minimal write: a commit writes exactly where a change waits, once
/// each, in the order of the positions.
pub proof fn lemma_update_positions(groups: Seq<GroupConfigView>, from: int)
    requires
        0 <= from <= 120,
    ensures
        writes(groups, from).len() == update_positions(groups, from).len(),
        update_positions(groups, from).len() <= 120 - from,
        forall|i: int|
            0 <= i < update_positions(groups, from).len() ==> from <= (
            #[trigger] update_positions(groups, from)[i]) < 120 && update_at(
                groups,
                update_positions(groups, from)[i],
            ) is Some && writes(groups, from)[i] == write_at(
                groups,
                update_positions(groups, from)[i],
            ),
        forall|i: int, j: int|
            0 <= i < j < update_positions(groups, from).len() ==> (
            #[trigger] update_positions(groups, from)[i]) < (#[trigger] update_positions(
                groups,
                from,
            )[j]),
        forall|position: int|
            from <= position < 120 && update_at(groups, position) is Some ==> update_positions(
                groups,
                from,
            ).contains(position),
    decreases 120 - from,
{
    if from < 120 {
        lemma_update_positions(groups, from + 1);
        let here = update_positions(groups, from);
        let rest = update_positions(groups, from + 1);
        if update_at(groups, from) is Some {
            assert(here == seq![from] + rest);
            assert forall|position: int|
                from <= position < 120 && update_at(groups, position) is Some implies here.contains(
                position,
            ) by {
                if position == from {
                    assert(here[0] == from);
                } else {
                    assert(rest.contains(position));
                    let i = choose|i: int| 0 <= i < rest.len() && rest[i] == position;
                    assert(here[i + 1] == position);
                }
            }
            assert forall|i: int, j: int| 0 <= i < j < here.len() implies (#[trigger] here[i]) < (
            #[trigger] here[j]) by {
                if i > 0 {
                    assert(here[i] == rest[i - 1] && here[j] == rest[j - 1]);
                } else {
                    assert(here[j] == rest[j - 1]);
                }
            }
            assert forall|i: int| 0 <= i < here.len() implies from <= (#[trigger] here[i]) < 120
                && update_at(groups, here[i]) is Some && writes(groups, from)[i] == write_at(
                groups,
                here[i],
            ) by {
                if i > 0 {
                    assert(here[i] == rest[i - 1]);
                }
            }
        }
    }
}

/// Where changes wait at exactly three positions, a commit makes exactly
/// three writes, those of the three positions in their order.
pub proof fn lemma_three_updates(groups: Seq<GroupConfigView>, a: int, b: int, c: int)
    requires
        0 <= a < b < c < 120,
        forall|position: int|
            0 <= position < 120 ==> (update_at(groups, position) is Some <==> (position == a
                || position == b || position == c)),
    ensures
        writes(groups, 0) == seq![write_at(groups, a), write_at(groups, b), write_at(groups, c)],
{
    lemma_skip(groups, 0, a);
    lemma_skip(groups, a + 1, b);
    lemma_skip(groups, b + 1, c);
    lemma_no_update(groups, c + 1);
    assert(update_positions(groups, c) =~= seq![c]);
    assert(update_positions(groups, b) =~= seq![b, c]);
    assert(update_positions(groups, a) =~= seq![a, b, c]);
    assert(writes(groups, 0) =~= seq![
        write_at(groups, a),
        write_at(groups, b),
        write_at(groups, c),
    ]);
}

/// Writing the change at a position leaves every other position as it was:
/// its address, and what waits there. At the position itself nothing waits
/// any more.
pub proof fn lemma_committed(groups: Seq<GroupConfigView>, position: int, other: int)
    requires
        groups.len() == 8,
        0 <= position < 120,
        0 <= other < 120,
    ensures
        committed_at(groups, position).len() == 8,
        address_at(committed_at(groups, position), other) == address_at(groups, other),
        update_at(committed_at(groups, position), other) == (if other == position {
            None
        } else {
            update_at(groups, other)
        }),
        indexed(groups) ==> indexed(committed_at(groups, position)),
{
    let group = position / 15;
    let slot = position % 15;
    lemma_committed_at(groups[group], slot, other % 15);
    let after = committed_at(groups, position);
    if indexed(groups) {
        assert forall|g: int| 0 <= g < after.len() implies (#[trigger] after[g]).indexed(g as u32) by {
            assert(groups[g].indexed(g as u32));
            lemma_committed_at(groups[g], slot, 0);
        }
    }
}

/// The writes behind a position do not depend on whether the change at that
/// position, or at one before it, was written already.
pub proof fn lemma_writes_after_commit(groups: Seq<GroupConfigView>, position: int, from: int)
    requires
        groups.len() == 8,
        0 <= position < from <= 120,
    ensures
        update_positions(committed_at(groups, position), from) == update_positions(groups, from),
        writes(committed_at(groups, position), from) == writes(groups, from),
        next_update(committed_at(groups, position), from) == next_update(groups, from),
    decreases 120 - from,
{
    let after = committed_at(groups, position);
    if from < 120 {
        lemma_writes_after_commit(groups, position, from + 1);
        lemma_committed(groups, position, from);
    }
    lemma_update_positions(groups, from);
    lemma_update_positions(after, from);
    assert forall|i: int| 0 <= i < update_positions(groups, from).len() implies write_at(
        after,
        #[trigger] update_positions(groups, from)[i],
    ) == write_at(groups, update_positions(groups, from)[i]) by {
        lemma_committed(groups, position, update_positions(groups, from)[i]);
    }
    assert(writes(after, from) =~= writes(groups, from));
}

/// Once every change was written, nothing waits any more.
pub proof fn lemma_settled(groups: Seq<GroupConfigView>)
    requires
        groups.len() == 8,
        forall|position: int| 0 <= position < 120 ==> update_at(groups, position) is None,
    ensures
        settled(groups),
{
    assert forall|group: int| 0 <= group < 8 implies (#[trigger] groups[group]).settled() by {
        assert forall|slot: int| 0 <= slot < 15 implies groups[group].update_at(slot) is None by {
            let position = 15 * group + slot;
            assert(position / 15 == group && position % 15 == slot);
            assert(update_at(groups, position) is None);
        }
        let g = groups[group];
        assert(g.update_at(0) is None);
        assert(g.update_at(1) is None);
        assert(g.update_at(2) is None);
        assert(g.update_at(3) is None);
        assert(g.update_at(4) is None);
        assert(g.update_at(5) is None);
        assert(g.update_at(6) is None);
        assert(g.update_at(7) is None);
        assert(g.update_at(8) is None);
        assert(g.update_at(9) is None);
        assert(g.update_at(10) is None);
        assert(g.update_at(11) is None);
        assert(g.update_at(12) is None);
        assert(g.update_at(13) is None);
        assert(g.update_at(14) is None);
    }
}

} // verus!
