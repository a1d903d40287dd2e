//! The data-flow graph in static single assignment form, as far as analyses
//! consume it: every instruction has a slot for each location it reads and
//! for each location it writes, several slots may stand for one value, and a
//! value may carry data that an analysis recorded for it.
//!
//! Analyses look slots up and read or update the data of the value behind
//! them. Which slots exist, and which of them share a value, is decided by
//! whoever builds the graph.

use vstd::prelude::*;

verus! {

/// Whether an instruction reads or writes a location.
#[derive(Debug, PartialEq, Eq, Copy, Clone, Structural)]
pub enum Direction {
    Read,
    Write,
}

/// A location type whose values can be compared when slots are looked up.
pub trait SlotLocation: Sized {
    /// Whether the two locations are the same.
    fn same_location(&self, other: &Self) -> (same: bool)
        ensures
            same == (*self == *other),
    ;
}

/// One slot: the instruction at `address` accesses `location` in
/// `direction`, and the value it sees or produces has the index `value`.
pub struct Slot<L> {
    pub address: u64,
    pub location: L,
    pub direction: Direction,
    pub value: usize,
}

/// The key under which a slot is found.
pub type SlotKey<L> = (u64, L, Direction);

/// A reference to one value of a data-flow graph.
#[derive(Debug, PartialEq, Eq, Copy, Clone, Structural)]
pub struct DFGRef {
    pub index: usize,
}

/// A data-flow graph with locations of type `L` and recorded data of type `D`.
pub struct SSA<L, D> {
    slots: Vec<Slot<L>>,
    values: Vec<Option<D>>,
}

/// The slots that a sequence of bindings amounts to: a later binding of a key
/// replaces an earlier one.
pub open spec fn bound_slots<L>(bindings: Seq<Slot<L>>) -> Map<SlotKey<L>, int>
    decreases bindings.len(),
{
    if bindings.len() == 0 {
        Map::empty()
    } else {
        let last = bindings.last();
        bound_slots(bindings.drop_last()).insert(
            (last.address, last.location, last.direction),
            last.value as int,
        )
    }
}

/// The last binding of `key` decides the slot.
proof fn lemma_bound_slots_found<L>(bindings: Seq<Slot<L>>, key: SlotKey<L>, i: int)
    requires
        0 <= i < bindings.len(),
        (bindings[i].address, bindings[i].location, bindings[i].direction) == key,
        forall|j: int|
            i < j < bindings.len() ==> (
            bindings[j].address,
            bindings[j].location,
            bindings[j].direction,
        ) != key,
    ensures
        bound_slots(bindings).contains_key(key),
        bound_slots(bindings)[key] == bindings[i].value,
    decreases bindings.len(),
{
    if i < bindings.len() - 1 {
        let rest = bindings.drop_last();
        assert forall|j: int| i < j < rest.len() implies (
            rest[j].address,
            rest[j].location,
            rest[j].direction,
        ) != key by {
            assert(rest[j] == bindings[j]);
        }
        lemma_bound_slots_found(rest, key, i);
    }
}

/// A key that no binding names has no slot.
proof fn lemma_bound_slots_missing<L>(bindings: Seq<Slot<L>>, key: SlotKey<L>)
    requires
        forall|j: int|
            0 <= j < bindings.len() ==> (
            bindings[j].address,
            bindings[j].location,
            bindings[j].direction,
        ) != key,
    ensures
        !bound_slots(bindings).contains_key(key),
    decreases bindings.len(),
{
    if bindings.len() > 0 {
        let rest = bindings.drop_last();
        assert forall|j: int| 0 <= j < rest.len() implies (
            rest[j].address,
            rest[j].location,
            rest[j].direction,
        ) != key by {
            assert(rest[j] == bindings[j]);
        }
        lemma_bound_slots_missing(rest, key);
    }
}

impl DFGRef {
    /// The index of the value that the reference stands for.
    pub open spec fn view(&self) -> int {
        self.index as int
    }
}

impl<L: SlotLocation, D> SSA<L, D> {
    /// The slots of the graph: for each key the index of the value behind it.
    pub closed spec fn slots(&self) -> Map<SlotKey<L>, int> {
        bound_slots(self.slots@)
    }

    /// The values of the graph, each with the data recorded for it, if any.
    pub closed spec fn values(&self) -> Seq<Option<D>> {
        self.values@
    }

    /// Every slot stands for a value of the graph.
    pub open spec fn wf(&self) -> bool {
        forall|key: SlotKey<L>| #[trigger]
            self.slots().contains_key(key) ==> 0 <= self.slots()[key] < self.values().len()
    }

    /// The value behind the slot of `key`, if the slot exists.
    pub open spec fn slot(&self, key: SlotKey<L>) -> Option<DFGRef> {
        if self.slots().contains_key(key) && 0 <= self.slots()[key] <= usize::MAX {
            Some(DFGRef { index: self.slots()[key] as usize })
        } else {
            None
        }
    }

    /// The data recorded for the value that `value` refers to. A reference
    /// to no value of this graph has no data.
    pub open spec fn data(&self, value: DFGRef) -> Option<D> {
        if value@ < self.values().len() {
            self.values()[value@]
        } else {
            None
        }
    }

    /// The data of the graph's values once `data` is recorded for `value`.
    pub open spec fn updated(&self, value: DFGRef, data: D) -> Seq<Option<D>> {
        if value@ < self.values().len() {
            self.values().update(value@, Some(data))
        } else {
            self.values()
        }
    }

    /// The data recorded for the value behind the slot of `key`.
    pub open spec fn slot_data(&self, key: SlotKey<L>) -> Option<D> {
        match self.slot(key) {
            Some(value) => self.data(value),
            None => None,
        }
    }

    /// A graph without slots and values.
    pub fn new() -> (graph: Self)
        ensures
            graph.wf(),
            graph.slots() == Map::<SlotKey<L>, int>::empty(),
            graph.values() == Seq::<Option<D>>::empty(),
    {
        SSA { slots: Vec::new(), values: Vec::new() }
    }

    /// Adds a value, with the data recorded for it so far, and returns the
    /// reference to it.
    pub fn add_value(&mut self, data: Option<D>) -> (value: DFGRef)
        ensures
            old(self).wf() ==> final(self).wf(),
            final(self).slots() == old(self).slots(),
            final(self).values() == old(self).values().push(data),
            value@ == old(self).values().len(),
    {
        let index = self.values.len();
        self.values.push(data);
        proof {
            if old(self).wf() {
                assert forall|key: SlotKey<L>| #[trigger]
                    self.slots().contains_key(key) implies 0 <= self.slots()[key]
                    < self.values().len() by {
                    assert(old(self).slots().contains_key(key));
                }
            }
        }
        DFGRef { index }
    }

    /// Makes the slot of the given key stand for `value`, in place of what it
    /// stood for before, and says whether it did: a reference to no value of
    /// this graph is refused, and nothing changes.
    pub fn bind(&mut self, address: u64, location: L, direction: Direction, value: DFGRef) -> (bound:
        bool)
        ensures
            bound == (value@ < old(self).values().len()),
            final(self).slots() == if bound {
                old(self).slots().insert((address, location, direction), value@)
            } else {
                old(self).slots()
            },
            final(self).values() == old(self).values(),
            old(self).wf() ==> final(self).wf(),
    {
        if value.index >= self.values.len() {
            return false;
        }
        let ghost before = self.slots@;
        self.slots.push(Slot { address, location, direction, value: value.index });
        proof {
            assert(self.slots@.drop_last() =~= before);
            if old(self).wf() {
                assert forall|key: SlotKey<L>| #[trigger]
                    self.slots().contains_key(key) implies 0 <= self.slots()[key]
                    < self.values().len() by {
                    if key != (address, location, direction) {
                        assert(old(self).slots().contains_key(key));
                    }
                }
            }
        }
        true
    }

    fn lookup(&self, address: u64, location: &L, direction: Direction) -> (found: Option<DFGRef>)
        ensures
            found == self.slot((address, *location, direction)),
    {
        let ghost key = (address, *location, direction);
        let mut i = self.slots.len();
        while i > 0
            invariant
                i <= self.slots.len(),
                key == (address, *location, direction),
                forall|j: int|
                    i <= j < self.slots@.len() ==> (
                    self.slots@[j].address,
                    self.slots@[j].location,
                    self.slots@[j].direction,
                ) != key,
            decreases i,
        {
            i -= 1;
            let slot = &self.slots[i];
            if slot.address == address && slot.direction == direction
                && slot.location.same_location(location) {
                proof {
                    lemma_bound_slots_found(self.slots@, key, i as int);
                }
                return Some(DFGRef { index: slot.value });
            }
        }
        proof {
            lemma_bound_slots_missing(self.slots@, key);
        }
        None
    }

    /// The value that the instruction at `address` reads from `location`, if
    /// the graph has a slot for that read.
    pub fn get_use(&self, address: u64, location: &L) -> (value: Option<DFGRef>)
        ensures
            value == self.slot((address, *location, Direction::Read)),
    {
        self.lookup(address, location, Direction::Read)
    }

    /// The value that the instruction at `address` writes to `location`, if
    /// the graph has a slot for that write.
    pub fn get_def(&self, address: u64, location: &L) -> (value: Option<DFGRef>)
        ensures
            value == self.slot((address, *location, Direction::Write)),
    {
        self.lookup(address, location, Direction::Write)
    }

    /// The data recorded for a value.
    pub fn get_data(&self, value: DFGRef) -> (data: Option<&D>)
        ensures
            match data {
                Some(d) => self.data(value) == Some(*d),
                None => self.data(value) is None,
            },
    {
        if value.index < self.values.len() {
            self.values[value.index].as_ref()
        } else {
            None
        }
    }

    /// Records `data` for a value, in place of what was recorded before.
    /// A reference to no value of this graph changes nothing.
    pub fn update(&mut self, value: DFGRef, data: D)
        ensures
            final(self).slots() == old(self).slots(),
            final(self).values() == old(self).updated(value, data),
            old(self).wf() ==> final(self).wf(),
    {
        if value.index < self.values.len() {
            self.values.set(value.index, Some(data));
        }
    }
}

} // verus!
