//! Resolving a named group parameter's 1-based slot from the header's
//! contiguously numbered parameter-name keys.

use vstd::prelude::*;
use crate::error::ExtractError;

verus! {

/// The ordered parameter-name table of a source header, indexed 1-based by
/// declaration order.
///
/// The table is grown one key at a time by `feed`, in ascending key-number
/// order, and is complete once the first absent key is seen: the header's
/// numbering is assumed contiguous, so a gap ends the scan and any name
/// declared past the gap stays out of the table.
pub struct ParameterTable {
    names: Vec<String>,
}

impl ParameterTable {
    /// The scanned names, in declaration order (0-based here; slot numbers
    /// are 1-based).
    pub closed spec fn keys(self) -> Seq<Seq<char>> {
        Seq::new(self.names@.len() as nat, |i: int| self.names@[i]@)
    }

    /// An empty table, ready to scan from key number 1.
    pub fn new() -> (table: ParameterTable)
        ensures
            table.keys().len() == 0,
    {
        ParameterTable { names: Vec::new() }
    }

    /// The key number to query next: one past the keys scanned so far.
    pub fn next_key_number(&self) -> (n: usize)
        requires
            self.keys().len() < usize::MAX,
        ensures
            n == self.keys().len() + 1,
    {
        self.names.len() + 1
    }

    /// Records the header's answer for the next key number: a present key
    /// extends the table and the scan goes on; an absent key leaves the
    /// table as it is and ends the scan.
    pub fn feed(&mut self, entry: Option<String>) -> (more: bool)
        ensures
            entry matches Some(name) ==> {
                &&& more
                &&& final(self).keys() == old(self).keys().push(name@)
            },
            entry is None ==> {
                &&& !more
                &&& final(self).keys() == old(self).keys()
            },
    {
        match entry {
            Some(name) => {
                self.names.push(name);
                proof {
                    assert(self.keys() =~= old(self).keys().push(self.names@.last()@));
                }
                true
            },
            None => false,
        }
    }

    /// The 1-based slot of the first scanned key equal to `target`, or
    /// `Format` if no scanned key matches. Later duplicates are ignored; a
    /// name that the scan never reached (beyond a numbering gap) is not
    /// found.
    pub fn resolve(&self, target: &String) -> (r: Result<usize, ExtractError>)
        ensures
            r is Ok <==> exists|j: int| 0 <= j < self.keys().len() && self.keys()[j] == target@,
            r matches Ok(slot) ==> {
                &&& 1 <= slot <= self.keys().len()
                &&& self.keys()[slot - 1] == target@
                &&& forall|j: int| 0 <= j < slot - 1 ==> self.keys()[j] != target@
            },
            r is Err ==> r == Err::<usize, ExtractError>(ExtractError::Format),
    {
        let n = self.names.len();
        let mut j: usize = 0;
        while j < n
            invariant
                j <= n,
                n == self.keys().len(),
                forall|jj: int| 0 <= jj < j ==> self.keys()[jj] != target@,
            decreases n - j,
        {
            if self.names[j] == *target {
                proof {
                    assert(self.keys()[j as int] == target@);
                }
                return Ok(j + 1);
            }
            j += 1;
        }
        Err(ExtractError::Format)
    }
}

} // verus!
