//! The host's per-connection client array, seen as a snapshot of its slots.
//! Clients are numbered from 1; a slot holds the address of its client, or
//! zero when nobody is connected there.

use vstd::prelude::*;

verus! {

/// A fixed-capacity snapshot of the client slots. The addresses are borrowed
/// from the host and must not be kept past the current operation.
pub struct ClientArray {
    slots: Vec<u64>,
}

/// The client numbered `index` in `slots`, if that number is in range and
/// its slot is occupied.
pub open spec fn client_at(slots: Seq<u64>, index: int) -> Option<u64> {
    if 1 <= index <= slots.len() && slots[index - 1] != 0 {
        Some(slots[index - 1])
    } else {
        None
    }
}

/// Address of element `index` (numbered from 1) of an array of `stride`-byte
/// elements at `base`: `base + (index - 1) * stride`.
pub open spec fn slot_address_of(base: u64, index: u64, stride: u64) -> Option<u64> {
    if 1 <= index && base + (index - 1) * stride <= u64::MAX {
        Some((base + (index - 1) * stride) as u64)
    } else {
        None
    }
}

/// Computes where element `index` of a host array lies; `None` for index 0
/// or when the address would leave the address space.
pub fn slot_address(base: u64, index: u64, stride: u64) -> (r: Option<u64>)
    ensures
        r == slot_address_of(base, index, stride),
{
    if index == 0 {
        return None;
    }
    let k = index - 1;
    match k.checked_mul(stride) {
        Some(offset) => base.checked_add(offset),
        None => {
            proof {
                assert(k * stride >= 0) by (nonlinear_arith)
                    requires
                        k >= 0,
                        stride >= 0,
                ;
            }
            None
        },
    }
}

impl View for ClientArray {
    type V = Seq<u64>;

    closed spec fn view(&self) -> Seq<u64> {
        self.slots@
    }
}

impl ClientArray {
    /// Wraps the slot values read from the host; the capacity is their count.
    pub fn new(slots: Vec<u64>) -> (r: ClientArray)
        ensures
            r@ == slots@,
    {
        ClientArray { slots }
    }

    /// The largest client number.
    pub fn capacity(&self) -> (r: usize)
        ensures
            r == self@.len(),
    {
        self.slots.len()
    }

    /// The client numbered `index`: `None` for 0, for a number past the
    /// capacity, and for an empty slot.
    pub fn client_by_index(&self, index: usize) -> (r: Option<u64>)
        ensures
            r == client_at(self@, index as int),
    {
        if index == 0 || index > self.slots.len() {
            None
        } else if self.slots[index - 1] == 0 {
            None
        } else {
            Some(self.slots[index - 1])
        }
    }

    /// The numbers of all occupied slots, in increasing order.
    pub fn occupied(&self) -> (r: Vec<usize>)
        ensures
            forall|k: int| 0 <= k < r@.len() ==> client_at(self@, r@[k] as int) is Some,
            forall|i: int| 1 <= i <= self@.len() && client_at(self@, i) is Some ==> r@.contains(
                i as usize,
            ),
            forall|a: int, b: int| 0 <= a < b < r@.len() ==> r@[a] < r@[b],
    {
        let mut out: Vec<usize> = Vec::new();
        let mut i: usize = 0;
        while i < self.slots.len()
            invariant
                0 <= i <= self@.len(),
                forall|k: int| 0 <= k < out@.len() ==> client_at(self@, out@[k] as int) is Some,
                forall|k: int| 0 <= k < out@.len() ==> out@[k] <= i,
                forall|j: int| 1 <= j <= i && client_at(self@, j) is Some ==> out@.contains(
                    j as usize,
                ),
                forall|a: int, b: int| 0 <= a < b < out@.len() ==> out@[a] < out@[b],
            decreases self@.len() - i,
        {
            let ghost prev = out@;
            if self.slots[i] != 0 {
                out.push(i + 1);
                assert(out@[out@.len() - 1] == i + 1);
            }
            proof {
                assert forall|j: int| 1 <= j <= i + 1 && client_at(self@, j) is Some implies out@.contains(
                    j as usize,
                ) by {
                    if j <= i {
                        let w = choose|w: int| 0 <= w < prev.len() && prev[w] == j as usize;
                        assert(out@[w] == j as usize);
                    } else {
                        assert(out@[out@.len() - 1] == j as usize);
                    }
                }
            }
            i = i + 1;
        }
        out
    }
}

/// A client number outside `1..=capacity` never names a client, so neither
/// 0 nor one past the capacity can reach past the array.
pub proof fn lemma_out_of_range_has_no_client(clients: &ClientArray, index: int)
    requires
        index <= 0 || index > clients@.len(),
    ensures
        client_at(clients@, index) is None,
{
}

} // verus!
