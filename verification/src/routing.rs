//! The routing table: for each destination the hops that lead to it.

use vstd::prelude::*;

verus! {

/// The number of destinations that the fabric addresses.
pub const DEST_COUNT: usize = 256;

/// The number of hops in one row of the table.
pub const MAX_HOPS: usize = 32;

/// One row per destination, each an ordered list of hops from the master. A
/// first hop of 0 marks a destination local to the master; a first hop `h`
/// other than 0 names link `h - 1`.
#[derive(Debug, PartialEq, Eq)]
pub struct RoutingTable {
    pub rows: Vec<Vec<u8>>,
}

impl RoutingTable {
    /// The table has a full row for every destination.
    pub open spec fn wf(&self) -> bool {
        &&& self.rows@.len() == DEST_COUNT
        &&& forall|i: int| 0 <= i < self.rows@.len() ==> (#[trigger] self.rows@[i])@.len() == MAX_HOPS
    }

    /// The first hop towards `destination`.
    pub open spec fn hop(&self, destination: u8) -> u8 {
        self.rows@[destination as int]@[0]
    }

    /// Whether the table has a full row for every destination.
    pub fn is_well_formed(&self) -> (ok: bool)
        ensures
            ok == self.wf(),
    {
        if self.rows.len() != DEST_COUNT {
            return false;
        }
        let mut i: usize = 0;
        while i < DEST_COUNT
            invariant
                i <= DEST_COUNT,
                self.rows@.len() == DEST_COUNT,
                forall|j: int| 0 <= j < i ==> (#[trigger] self.rows@[j])@.len() == MAX_HOPS,
            decreases DEST_COUNT - i,
        {
            if self.rows[i].len() != MAX_HOPS {
                return false;
            }
            i += 1;
        }
        true
    }

    /// The first hop towards `destination`.
    pub fn first_hop(&self, destination: u8) -> (hop: u8)
        requires
            self.wf(),
        ensures
            hop == self.hop(destination),
    {
        self.rows[destination as usize][0]
    }

    /// A copy of the row of `destination`.
    pub fn hops(&self, destination: u8) -> (row: Vec<u8>)
        requires
            self.wf(),
        ensures
            row@ == self.rows@[destination as int]@,
    {
        let source = &self.rows[destination as usize];
        let mut row: Vec<u8> = Vec::new();
        let mut i: usize = 0;
        while i < source.len()
            invariant
                i <= source@.len(),
                row@ == source@.take(i as int),
            decreases source@.len() - i,
        {
            row.push(source[i]);
            i += 1;
            assert(row@ =~= source@.take(i as int));
        }
        assert(source@.take(i as int) =~= source@);
        row
    }
}

} // verus!
