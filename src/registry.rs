//! All capture records, indexed by chip id and by facade key.
use std::collections::{BTreeMap, HashMap};
use vstd::prelude::*;
use vstd::std_specs::cmp::OrdSpec;
use vstd::std_specs::iter::IteratorSpec;

use crate::record::{
    Capture,    facade_key_code, spec_started, spec_stopped, lemma_facade_key_code_injective, spec_facade_key_code, CaptureInfo, ChipId,
    ChipKind, FacadeId,
};

verus! {

/// The capture records of all known chips.
///
/// Each record is stored once, under its chip id; the facade index maps the
/// code of each record's facade key to that chip id, so both paths reach the
/// same record.
pub struct Captures<F> {
    pub facade_key_to_capture: HashMap<u64, ChipId>,
    pub chip_id_to_capture: BTreeMap<ChipId, CaptureInfo<F>>,
}

impl<F> Captures<F> {
    /// The records, by chip id.
    pub open spec fn view(&self) -> Map<ChipId, CaptureInfo<F>> {
        self.chip_id_to_capture@
    }

    /// The facade index, by facade key code.
    pub open spec fn facade_index(&self) -> Map<u64, ChipId> {
        self.facade_key_to_capture@
    }

    /// Chip id of the record whose facade key is `key`, if any.
    pub open spec fn owner_of(&self, key: (ChipKind, FacadeId)) -> Option<ChipId> {
        if self.facade_index().contains_key(spec_facade_key_code(key)) {
            Some(self.facade_index()[spec_facade_key_code(key)])
        } else {
            None
        }
    }

    /// Every record is stored under its own chip id, and the facade index
    /// holds exactly the facade key of each record, pointing at that record.
    pub open spec fn wf(&self) -> bool {
        &&& forall|id: ChipId| #[trigger] self@.contains_key(id) ==> self@[id].id == id
        &&& forall|id: ChipId| #[trigger]
            self@.contains_key(id) ==> self.owner_of(self@[id].spec_facade_key()) == Some(id)
        &&& forall|c: u64| #[trigger]
            self.facade_index().contains_key(c) ==> {
                let id = self.facade_index()[c];
                &&& self@.contains_key(id)
                &&& spec_facade_key_code(self@[id].spec_facade_key()) == c
            }
    }

    pub fn new() -> (r: Self)
        ensures
            r.wf(),
            r@ == Map::<ChipId, CaptureInfo<F>>::empty(),
            r.facade_index() == Map::<u64, ChipId>::empty(),
    {
        Captures {
            facade_key_to_capture: HashMap::<u64, ChipId>::new(),
            chip_id_to_capture: BTreeMap::<ChipId, CaptureInfo<F>>::new(),
        }
    }

    pub fn contains(&self, key: ChipId) -> (r: bool)
        ensures
            r == self@.contains_key(key),
    {
        self.chip_id_to_capture.contains_key(&key)
    }

    pub fn is_empty(&self) -> (r: bool)
        ensures
            r == (self@ == Map::<ChipId, CaptureInfo<F>>::empty()),
    {
        let r = self.chip_id_to_capture.is_empty();
        proof {
            if r {
                assert(self@ =~= Map::<ChipId, CaptureInfo<F>>::empty());
            } else {
                assert(self@.dom() != Set::<ChipId>::empty());
            }
        }
        r
    }

    /// The records after `capture` is inserted: a record with the same chip
    /// id, and one with the same facade key, give way to it.
    pub open spec fn spec_insert(&self, capture: CaptureInfo<F>) -> Map<ChipId, CaptureInfo<F>> {
        let without_id = self@.remove(capture.id);
        let rest = match self.owner_of(capture.spec_facade_key()) {
            Some(o) => without_id.remove(o),
            None => without_id,
        };
        rest.insert(capture.id, capture)
    }

    /// The record of chip `key`, if any.
    pub fn get(&self, key: ChipId) -> (r: Option<&CaptureInfo<F>>)
        ensures
            match r {
                Some(c) => self@.contains_key(key) && *c == self@[key],
                None => !self@.contains_key(key),
            },
    {
        self.chip_id_to_capture.get(&key)
    }

    /// The chip id of the record whose facade key is `(kind, facade_id)`.
    pub fn get_by_facade_key(&self, kind: ChipKind, facade_id: FacadeId) -> (r: Option<ChipId>)
        requires
            self.wf(),
        ensures
            r == self.owner_of((kind, facade_id)),
            match r {
                Some(id) => self@.contains_key(id) && self@[id].spec_facade_key() == (kind, facade_id),
                None => forall|id: ChipId|
                    #[trigger] self@.contains_key(id) ==> self@[id].spec_facade_key() != (kind,
                        facade_id),
            },
    {
        let code = facade_key_code(kind, facade_id);
        let r = match self.facade_key_to_capture.get(&code) {
            Some(id) => Some(*id),
            None => None,
        };
        proof {
            if let Some(id) = r {
                lemma_facade_key_code_injective(self@[id].spec_facade_key(), (kind, facade_id));
            }
        }
        r
    }

    /// Removes the record of chip `key` from both indexes, releasing its file.
    /// Returns whether there was such a record; where there was none nothing
    /// changes.
    pub fn remove(&mut self, key: &ChipId) -> (r: bool)
        requires
            old(self).wf(),
        ensures
            final(self).wf(),
            r == old(self)@.contains_key(*key),
            final(self)@ == old(self)@.remove(*key),
            !r ==> final(self)@ == old(self)@,
            r ==> final(self).facade_index() == old(self).facade_index().remove(
                spec_facade_key_code(old(self)@[*key].spec_facade_key()),
            ),
            !r ==> final(self).facade_index() == old(self).facade_index(),
    {
        match self.chip_id_to_capture.remove(key) {
            Some(capture) => {
                let mut capture = capture;
                let code = facade_key_code(capture.chip_kind, capture.facade_id);
                self.facade_key_to_capture.remove(&code);
                capture.stop_capture();
                true
            },
            None => false,
        }
    }

    /// Adds `capture` under its chip id and its facade key. A record that
    /// already holds either of them is removed first, its file released, so
    /// that both indexes keep naming the same records.
    pub fn insert(&mut self, capture: CaptureInfo<F>)
        requires
            old(self).wf(),
        ensures
            final(self).wf(),
            final(self)@ == old(self).spec_insert(capture),
            final(self)@[capture.id] == capture,
            final(self).owner_of(capture.spec_facade_key()) == Some(capture.id),
    {
        let chip_id = capture.id;
        let key = capture.get_facade_key();
        let code = facade_key_code(key.0, key.1);
        self.remove(&chip_id);
        let owner: Option<ChipId> = match self.facade_key_to_capture.get(&code) {
            Some(o) => Some(*o),
            None => None,
        };
        match owner {
            Some(o) => {
                self.remove(&o);
            },
            None => {},
        }
        self.chip_id_to_capture.insert(chip_id, capture);
        self.facade_key_to_capture.insert(code, chip_id);
        assert(self@ =~= old(self).spec_insert(capture));
    }

    /// The chip ids of all records, ascending.
    pub fn iter(&self) -> (r: Vec<ChipId>)
        ensures
            r@.to_set() == self@.dom(),
            r@.len() == self@.len(),
            forall|i: int, j: int| 0 <= i < j < r@.len() ==> r@[i] < r@[j],
    {
        let ghost keys = self.chip_id_to_capture.keys().remaining();
        let mut ids: Vec<ChipId> = Vec::new();
        for k in it: self.chip_id_to_capture.keys()
            invariant
                it.seq() == keys,
                ids@ == it.seq().take(it.index()).map_values(|k: &ChipId| *k),
        {
            ids.push(*k);
        }
        proof {
            broadcast use vstd::laws_cmp::group_laws_cmp;
            assert(ids@ =~= keys.unref());
            assert(vstd::std_specs::btree::increasing_seq(keys));
            assert forall|i: int, j: int| 0 <= i < j < ids@.len() implies ids@[i] < ids@[j] by {
                assert(<&i32 as OrdSpec>::cmp_spec(&keys[i], &keys[j]) is Less);
            }
        }
        ids
    }

    /// Status snapshots of all records, in ascending chip-id order.
    pub fn values(&self) -> (r: Vec<Capture>)
        requires
            self.wf(),
        ensures
            r@.map_values(|c: Capture| c.id).to_set() == self@.dom(),
            forall|i: int, j: int| 0 <= i < j < r@.len() ==> r@[i].id < r@[j].id,
            forall|i: int|
                0 <= i < r@.len() ==> self@.contains_key(#[trigger] r@[i].id) && r@[i]
                    == self@[r@[i].id].spec_capture_proto(),
    {
        let ids = self.iter();
        let mut out: Vec<Capture> = Vec::new();
        let mut i: usize = 0;
        while i < ids.len()
            invariant
                i <= ids@.len(),
                out@.len() == i,
                ids@.to_set() == self@.dom(),
                forall|a: int, b: int| 0 <= a < b < ids@.len() ==> ids@[a] < ids@[b],
                forall|k: int|
                    0 <= k < i ==> #[trigger] out@[k] == self@[ids@[k]].spec_capture_proto(),
                self.wf(),
            decreases ids@.len() - i,
        {
            let id = ids[i];
            assert(ids@.to_set().contains(ids@[i as int]));
            match self.get(id) {
                Some(c) => {
                    out.push(c.get_capture_proto());
                },
                None => {},
            }
            i = i + 1;
        }
        proof {
            assert forall|k: int| 0 <= k < out@.len() implies out@[k].id == ids@[k] by {
                assert(ids@.to_set().contains(ids@[k]));
            }
            assert(out@.map_values(|c: Capture| c.id) =~= ids@);
            assert forall|k: int| 0 <= k < out@.len() implies self@.contains_key(
                #[trigger] out@[k].id,
            ) by {
                assert(ids@.to_set().contains(ids@[k]));
            }
        }
        out
    }

    /// Starts the capture of chip `key` into `file`, as the record's own
    /// `start_capture` does. Returns whether there is such a record.
    pub fn start_capture(
        &mut self,
        key: ChipId,
        file: F,
        header_size: usize,
        seconds: i64,
        nanos: i32,
    ) -> (r: bool)
        requires
            old(self).wf(),
        ensures
            final(self).wf(),
            r == old(self)@.contains_key(key),
            r ==> final(self)@ == old(self)@.insert(
                key,
                spec_started(old(self)@[key], file, header_size, seconds, nanos),
            ),
            !r ==> final(self)@ == old(self)@,
            final(self).facade_index() == old(self).facade_index(),
    {
        match self.chip_id_to_capture.remove(&key) {
            Some(capture) => {
                let mut capture = capture;
                capture.start_capture(file, header_size, seconds, nanos);
                self.chip_id_to_capture.insert(key, capture);
                assert(self@ =~= old(self)@.insert(
                    key,
                    spec_started(old(self)@[key], file, header_size, seconds, nanos),
                ));
                true
            },
            None => false,
        }
    }

    /// Stops the capture of chip `key`, releasing its file and keeping its
    /// summary. Returns whether there is such a record.
    pub fn stop_capture(&mut self, key: ChipId) -> (r: bool)
        requires
            old(self).wf(),
        ensures
            final(self).wf(),
            r == old(self)@.contains_key(key),
            r ==> final(self)@ == old(self)@.insert(key, spec_stopped(old(self)@[key])),
            !r ==> final(self)@ == old(self)@,
            final(self).facade_index() == old(self).facade_index(),
    {
        match self.chip_id_to_capture.remove(&key) {
            Some(capture) => {
                let mut capture = capture;
                capture.stop_capture();
                self.chip_id_to_capture.insert(key, capture);
                assert(self@ =~= old(self)@.insert(key, spec_stopped(old(self)@[key])));
                true
            },
            None => false,
        }
    }
}

/// After an insert, the record is found under its chip id, and its facade
/// key leads to that same chip id: both paths reach one record.
pub proof fn lemma_insert_reachable_both_ways<F>(
    before: Captures<F>,
    after: Captures<F>,
    capture: CaptureInfo<F>,
)
    requires
        before.wf(),
        after.wf(),
        after@ == before.spec_insert(capture),
    ensures
        after@.contains_key(capture.id),
        after@[capture.id] == capture,
        after.owner_of(capture.spec_facade_key()) == Some(capture.id),
{
    assert(after@.contains_key(capture.id));
    assert(after@[capture.id] == capture);
}

/// After removing a chip that was registered, neither its chip id nor its
/// facade key leads to a record.
pub proof fn lemma_remove_clears_both_paths<F>(before: Captures<F>, after: Captures<F>, id: ChipId)
    requires
        before.wf(),
        after.wf(),
        before@.contains_key(id),
        after@ == before@.remove(id),
    ensures
        !after@.contains_key(id),
        after.owner_of(before@[id].spec_facade_key()) is None,
{
    let key = before@[id].spec_facade_key();
    if let Some(o) = after.owner_of(key) {
        assert(after@.contains_key(o));
        lemma_facade_key_code_injective(after@[o].spec_facade_key(), key);
        assert(before@.contains_key(o));
        assert(before.owner_of(before@[o].spec_facade_key()) == Some(o));
    }
}

} // verus!
