//! The padded layout in which correction parameters are handed to a renderer.
//!
//! The parameters of one timestamp are rows of nine scalars. The renderer's
//! buffer takes the first eight scalars as they are, and every later group of
//! three scalars at the start of a block of four slots, whose last slot is left
//! alone.

use vstd::prelude::*;

verus! {

/// The scalar at position `i` of the rows laid end to end.
pub open spec fn flat_value<T>(rows: Seq<[T; 9]>, i: int) -> T {
    rows[i / 9]@[i % 9]
}

/// The slot that the scalar at position `i` goes to. Position 8, the last
/// scalar of the first row, goes nowhere.
pub open spec fn padded_slot(i: int) -> int {
    if i < 8 {
        i
    } else {
        (i / 3 - 1) * 4 + i % 3
    }
}

/// The position whose scalar goes to slot `j`, if any does: the first eight
/// slots take the first eight scalars, and of every later block of four slots
/// the first three take a group of three.
pub open spec fn slot_source(j: int) -> Option<int> {
    if j < 0 {
        None
    } else if j < 8 {
        Some(j)
    } else if j % 4 == 3 {
        None
    } else {
        Some((j / 4 + 1) * 3 + j % 4)
    }
}

/// The number of slots that a buffer must have to take `rows` rows: as many
/// as there are scalars, and enough for the last padded block.
pub open spec fn required_capacity(rows: int) -> int {
    if 12 * rows - 5 > 9 * rows {
        12 * rows - 5
    } else {
        9 * rows
    }
}

/// Whether `rows` rows can be packed into `capacity` slots: there is at least
/// one row, and the buffer has the slots that the rows require.
pub open spec fn fits(rows: int, capacity: int) -> bool {
    rows >= 1 && required_capacity(rows) <= capacity
}

/// The buffer after the scalars at positions below `limit` have been packed
/// into it: a slot whose source lies below `limit` holds that scalar, and
/// every other slot holds what it held.
pub open spec fn packed_upto<T>(buffer: Seq<T>, rows: Seq<[T; 9]>, limit: int) -> Seq<T> {
    Seq::new(
        buffer.len(),
        |j: int|
            match slot_source(j) {
                Some(i) => if i < limit {
                    flat_value(rows, i)
                } else {
                    buffer[j]
                },
                None => buffer[j],
            },
    )
}

/// The buffer after all rows have been packed into it.
pub open spec fn packed<T>(buffer: Seq<T>, rows: Seq<[T; 9]>) -> Seq<T> {
    packed_upto(buffer, rows, 9 * (rows.len() as int))
}

/// A scalar's slot leads back to the scalar, and a slot's source leads back to
/// the slot: no two scalars share a slot.
pub proof fn lemma_slots_are_distinct(i: int, j: int)
    requires
        0 <= i,
        i != 8,
    ensures
        slot_source(padded_slot(i)) == Some(i),
        slot_source(j) == Some(i) ==> j == padded_slot(i),
        0 <= padded_slot(i),
{
}

/// The last slot that packing `rows` rows writes lies below the required
/// capacity.
pub proof fn lemma_slots_fit(rows: int, i: int)
    requires
        rows >= 1,
        0 <= i < 9 * rows,
        i != 8,
    ensures
        padded_slot(i) < required_capacity(rows),
{
}

/// Packs the rows into the buffer, if they fit.
///
/// Returns whether they did. If not, the buffer is left as it was; no slot
/// beyond the buffer is ever written.
pub fn pack_padded<T: Copy>(rows: &Vec<[T; 9]>, buffer: &mut [T]) -> (done: bool)
    ensures
        done == fits(rows@.len() as int, old(buffer)@.len() as int),
        done ==> final(buffer)@ == packed(old(buffer)@, rows@),
        !done ==> final(buffer)@ == old(buffer)@,
{
    let count: usize = rows.len();
    let capacity: usize = buffer.len();
    if count == 0 {
        return false;
    }
    let scalars: u128 = 9 * (count as u128);
    let padded: u128 = 12 * (count as u128) - 5;
    if scalars > capacity as u128 || padded > capacity as u128 {
        return false;
    }
    let total: usize = scalars as usize;
    let mut i: usize = 0;
    assert(buffer@ =~= packed_upto(old(buffer)@, rows@, 0));
    while i < total
        invariant
            i <= total,
            total == 9 * rows@.len(),
            rows@.len() >= 1,
            required_capacity(rows@.len() as int) <= buffer@.len(),
            buffer@.len() == old(buffer)@.len(),
            buffer@.len() == capacity,
            buffer@ == packed_upto(old(buffer)@, rows@, i as int),
        decreases total - i,
    {
        if i != 8 {
            let row: &[T; 9] = &rows[i / 9];
            let value: T = row[i % 9];
            proof {
                lemma_slots_fit(rows@.len() as int, i as int);
            }
            let slot: usize = if i < 8 {
                i
            } else {
                (i / 3 - 1) * 4 + i % 3
            };
            proof {
                assert forall|j: int| #![auto] slot_source(j) == Some(i as int) implies j
                    == slot as int by {
                    lemma_slots_are_distinct(i as int, j);
                }
                lemma_slots_are_distinct(i as int, slot as int);
            }
            buffer[slot] = value;
            assert(buffer@ =~= packed_upto(old(buffer)@, rows@, i as int + 1));
        } else {
            assert(forall|j: int| slot_source(j) != Some(8int));
            assert(buffer@ =~= packed_upto(old(buffer)@, rows@, i as int + 1));
        }
        i = i + 1;
    }
    true
}

} // verus!
