//! The abstract contract both map layouts satisfy. A consumer reads a map
//! only through this interface: site count, raw and usable hit counts,
//! slot decoding, and the between-executions reset.

use vstd::prelude::*;
use crate::values::{CmpLogError, CmpValues};

verus! {

/// A fixed-size comparison map: one header and one payload region per site,
/// filled by a producer during an execution and drained by a consumer
/// afterwards.
///
/// The model of a map is given by its spec functions: how many sites it has,
/// how often each was hit, how many slots of a site may be read, and what
/// each readable slot decodes to. `reset` clears every hit counter and
/// leaves the payload untouched.
pub trait CmpMap: Sized {
    /// The structural invariant of the map.
    spec fn wf(&self) -> bool;

    /// Number of sites.
    spec fn sites(&self) -> nat;

    /// Raw hit count of a site this execution; it may exceed the capacity.
    spec fn hits_of(&self, site: int) -> nat;

    /// Slot capacity of a site, by its recorded kind.
    spec fn capacity_of(&self, site: int) -> nat;

    /// Whether the site's header admits decoding: its shape code is one the
    /// layout recognizes. A site that fails this was filled by broken
    /// instrumentation.
    spec fn decodable(&self, site: int) -> bool;

    /// Whether the site carries an instruction comparison of an unsupported
    /// wide width (16, 32 or 64 bytes): recognized, but decoded to no value.
    spec fn wide_at(&self, site: int) -> bool;

    /// What a slot of a site decodes to.
    spec fn decoded(&self, site: int, slot: int) -> Option<CmpValues>;

    /// True when every header is the all-zero header.
    spec fn cleared(&self) -> bool;

    /// True when both maps hold the same payload store, byte for byte.
    spec fn same_payload(&self, other: &Self) -> bool;

    /// A cleared map reports no hits anywhere.
    proof fn lemma_cleared_no_hits(&self)
        requires
            self.wf(),
            self.cleared(),
        ensures
            forall|site: int| 0 <= site < self.sites() ==> self.hits_of(site) == 0,
    ;

    /// The fixed site count.
    fn len(&self) -> (n: usize)
        requires
            self.wf(),
        ensures
            n == self.sites(),
    ;

    /// Raw hit count of a site.
    fn executions_for(&self, idx: usize) -> (n: usize)
        requires
            self.wf(),
            (idx as nat) < self.sites(),
        ensures
            n == self.hits_of(idx as int),
    ;

    /// How many slots of a site the consumer may decode: the raw hit count,
    /// capped at the capacity of the site's kind.
    fn usable_executions_for(&self, idx: usize) -> (n: usize)
        requires
            self.wf(),
            (idx as nat) < self.sites(),
        ensures
            n == if self.hits_of(idx as int) <= self.capacity_of(idx as int) {
                self.hits_of(idx as int)
            } else {
                self.capacity_of(idx as int)
            },
            n <= self.capacity_of(idx as int),
    ;

    /// Decode one slot of a site. Slots at and beyond the usable count are
    /// out of contract, as is a site whose shape code is not recognized.
    fn values_of(&self, idx: usize, execution: usize) -> (r: Option<CmpValues>)
        requires
            self.wf(),
            (idx as nat) < self.sites(),
            (execution as nat) < self.hits_of(idx as int),
            (execution as nat) < self.capacity_of(idx as int),
            self.decodable(idx as int),
        ensures
            r == self.decoded(idx as int, execution as int),
            self.wide_at(idx as int) ==> r is None,
    ;

    /// Clear every header between executions; the payload store is left as
    /// it is. Clearing a fixed-size table cannot fail, so the result is
    /// always `Ok`.
    fn reset(&mut self) -> (r: Result<(), CmpLogError>)
        requires
            old(self).wf(),
        ensures
            r is Ok,
            final(self).wf(),
            final(self).sites() == old(self).sites(),
            final(self).cleared(),
            final(self).same_payload(old(self)),
    ;
}

} // verus!
