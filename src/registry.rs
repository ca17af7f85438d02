use vstd::prelude::*;
use crate::record::{ServiceRecord, RecordView};

verus! {

/// A one-step move of the selection.
#[derive(Clone, Copy, Debug, PartialEq, Eq)]
pub enum Direction {
    Up,
    Down,
}

/// The discovered services in discovery order, and which one is selected.
/// Records are only ever appended; the selection only moves by one step.
pub struct ServiceRegistry {
    records: Vec<ServiceRecord>,
    index: usize,
}

pub struct RegistryView {
    pub records: Seq<RecordView>,
    pub index: nat,
}

impl View for ServiceRegistry {
    type V = RegistryView;

    closed spec fn view(&self) -> RegistryView {
        RegistryView {
            records: self.records@.map_values(|r: ServiceRecord| r@),
            index: self.index as nat,
        }
    }
}

impl RegistryView {
    /// The selection points at a record, or is zero while there is none.
    pub open spec fn wf(self) -> bool {
        if self.records.len() == 0 {
            self.index == 0
        } else {
            self.index < self.records.len()
        }
    }
}

/// Where the selection goes after one move among `len` records: one step,
/// unless that would leave the records (or there are none).
pub open spec fn moved_index(index: nat, len: nat, d: Direction) -> nat {
    match d {
        Direction::Up => if index > 0 { (index - 1) as nat } else { index },
        Direction::Down => if index + 1 < len { index + 1 } else { index },
    }
}

/// The registry after `rs` are appended one by one, in order.
pub open spec fn after_appends(v: RegistryView, rs: Seq<RecordView>) -> RegistryView
    decreases rs.len(),
{
    if rs.len() == 0 {
        v
    } else {
        let p = after_appends(v, rs.drop_last());
        RegistryView { records: p.records.push(rs.last()), index: p.index }
    }
}

/// The registry after the selection moves by each of `ds`, in order.
pub open spec fn after_moves(v: RegistryView, ds: Seq<Direction>) -> RegistryView
    decreases ds.len(),
{
    if ds.len() == 0 {
        v
    } else {
        let p = after_moves(v, ds.drop_last());
        RegistryView { records: p.records, index: moved_index(p.index, p.records.len(), ds.last()) }
    }
}

/// Appends keep what was there and add the new records behind it, in call
/// order; the selection stays where it was.
pub proof fn lemma_appends_extend(v: RegistryView, rs: Seq<RecordView>)
    requires
        v.wf(),
    ensures
        after_appends(v, rs).wf(),
        after_appends(v, rs).records == v.records + rs,
        after_appends(v, rs).index == v.index,
    decreases rs.len(),
{
    if rs.len() > 0 {
        lemma_appends_extend(v, rs.drop_last());
        assert(v.records + rs =~= (v.records + rs.drop_last()).push(rs.last()));
    } else {
        assert(v.records + rs =~= v.records);
    }
}

/// After N appends to an empty registry there are N records, the i-th being
/// the i-th appended.
pub proof fn lemma_appends_keep_order(rs: Seq<RecordView>)
    ensures
        after_appends(RegistryView { records: Seq::empty(), index: 0 }, rs).records.len() == rs.len(),
        forall|i: int| 0 <= i < rs.len() ==>
            #[trigger] after_appends(RegistryView { records: Seq::empty(), index: 0 }, rs).records[i]
                == rs[i],
{
    let e = RegistryView { records: Seq::empty(), index: 0 };
    lemma_appends_extend(e, rs);
    assert(e.records + rs =~= rs);
}

/// Whatever moves are made on a non-empty registry, the selection stays on a
/// record and the records stay as they were.
pub proof fn lemma_moves_stay_in_range(v: RegistryView, ds: Seq<Direction>)
    requires
        v.wf(),
        v.records.len() > 0,
    ensures
        after_moves(v, ds).records == v.records,
        0 <= after_moves(v, ds).index < v.records.len(),
    decreases ds.len(),
{
    if ds.len() > 0 {
        lemma_moves_stay_in_range(v, ds.drop_last());
    }
}

/// Up from the first record and Down from the last one leave the selection
/// where it is.
pub proof fn lemma_moves_stop_at_ends(len: nat)
    requires
        len > 0,
    ensures
        moved_index(0, len, Direction::Up) == 0,
        moved_index((len - 1) as nat, len, Direction::Down) == len - 1,
{
}

impl ServiceRegistry {
    pub open spec fn wf(&self) -> bool {
        self@.wf()
    }

    /// An empty registry, selection at zero.
    pub fn new() -> (r: ServiceRegistry)
        ensures
            r.wf(),
            r@.records.len() == 0,
            r@.index == 0,
    {
        ServiceRegistry { records: Vec::new(), index: 0 }
    }

    /// Adds a record at the end. The selection does not move.
    pub fn append(&mut self, record: ServiceRecord)
        requires
            old(self).wf(),
        ensures
            final(self).wf(),
            final(self)@.records == old(self)@.records.push(record@),
            final(self)@.index == old(self)@.index,
            final(self)@ == after_appends(old(self)@, seq![record@]),
    {
        let ghost before = self@;
        self.records.push(record);
        assert(self@.records =~= before.records.push(record@));
        proof {
            assert(seq![record@].drop_last() =~= Seq::<RecordView>::empty());
            reveal_with_fuel(after_appends, 2);
        }
    }

    /// A copy of the record at `i`, or `None` past the end.
    pub fn get(&self, i: usize) -> (r: Option<ServiceRecord>)
        ensures
            i < self@.records.len() ==> r is Some && r->0@ == self@.records[i as int],
            i >= self@.records.len() ==> r is None,
    {
        if i < self.records.len() {
            Some(self.records[i].duplicate())
        } else {
            None
        }
    }

    /// How many records there are.
    pub fn length(&self) -> (r: usize)
        ensures
            r == self@.records.len(),
    {
        self.records.len()
    }

    pub fn is_empty(&self) -> (r: bool)
        ensures
            r == (self@.records.len() == 0),
    {
        self.records.len() == 0
    }

    /// The selected position.
    pub fn index(&self) -> (r: usize)
        ensures
            r == self@.index,
    {
        self.index
    }

    /// Moves the selection one step; stays put at either end and while empty.
    pub fn move_selection(&mut self, d: Direction)
        requires
            old(self).wf(),
        ensures
            final(self).wf(),
            final(self)@.records == old(self)@.records,
            final(self)@.index == moved_index(old(self)@.index, old(self)@.records.len(), d),
            final(self)@ == after_moves(old(self)@, seq![d]),
    {
        proof {
            assert(seq![d].drop_last() =~= Seq::<Direction>::empty());
            reveal_with_fuel(after_moves, 2);
        }
        match d {
            Direction::Up => {
                if self.index != 0 {
                    self.index = self.index - 1;
                }
            },
            Direction::Down => {
                let len = self.records.len();
                if len > 0 && is_in_discoveries_range(self, self.index + 1) {
                    self.index = self.index + 1;
                }
            },
        }
    }
}

/// The records of `registry`, in discovery order.
pub fn get_discoveries(registry: &ServiceRegistry) -> (r: &Vec<ServiceRecord>)
    ensures
        r@.map_values(|x: ServiceRecord| x@) == registry@.records,
{
    &registry.records
}

/// The selected position of `registry`.
pub fn get_discoveries_index(registry: &ServiceRegistry) -> (r: usize)
    ensures
        r == registry@.index,
{
    registry.index()
}

/// Whether the record at `index` is the selected one.
pub fn is_selected(registry: &ServiceRegistry, index: &usize) -> (r: bool)
    ensures
        r == (*index == registry@.index),
{
    *index == registry.index()
}

/// Whether `index` names a record of `registry`.
pub fn is_in_discoveries_range(registry: &ServiceRegistry, index: usize) -> (r: bool)
    ensures
        r == (index < registry@.records.len()),
{
    registry.length() > index
}

} // verus!
