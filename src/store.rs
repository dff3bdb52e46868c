//! The record store: identifiers mapped to records, with identifiers handed
//! out in increasing order and never reused.

use std::collections::HashMap;
use vstd::prelude::*;
use crate::criteria::{Criteria, CriteriaModel, Gender};

verus! {

broadcast use vstd::std_specs::hash::group_hash_axioms;

/// Why a store operation failed.
#[derive(Debug, Clone, Copy, PartialEq, Eq, Structural)]
pub enum StoreError {
    /// The identifier names no stored record.
    NotFound,
    /// The fields break the record's invariant.
    ValidationError,
    /// The store cannot complete the operation (its identifiers are exhausted).
    InternalError,
}

/// The mathematical value of a store.
pub struct StoreModel {
    pub records: Map<u64, CriteriaModel>,
    pub next_id: u64,
}

impl StoreModel {
    /// Every stored id was handed out before `next_id`, and every record is valid.
    pub open spec fn wf(self) -> bool {
        &&& self.next_id >= 1
        &&& forall|k: u64| #[trigger] self.records.contains_key(k) ==> 1 <= k < self.next_id
        &&& forall|k: u64| #[trigger] self.records.contains_key(k) ==> self.records[k].is_valid()
    }
}

/// A partial set of fields: those present replace the stored ones.
pub struct PatchModel {
    pub age: Option<i32>,
    pub gender: Option<Gender>,
    pub nationality: Option<Seq<char>>,
}

/// The record `c` with the fields of `p` laid over it.
pub open spec fn apply_patch(c: CriteriaModel, p: PatchModel) -> CriteriaModel {
    CriteriaModel {
        age: match p.age { Some(a) => a, None => c.age },
        gender: match p.gender { Some(g) => g, None => c.gender },
        nationality: match p.nationality { Some(n) => n, None => c.nationality },
    }
}

/// What `create` does: the new store and the result.
pub open spec fn create_spec(s: StoreModel, f: CriteriaModel) -> (StoreModel, Result<u64, StoreError>) {
    if !f.is_valid() {
        (s, Err(StoreError::ValidationError))
    } else if s.next_id == u64::MAX {
        (s, Err(StoreError::InternalError))
    } else {
        (
            StoreModel { records: s.records.insert(s.next_id, f), next_id: (s.next_id + 1) as u64 },
            Ok(s.next_id),
        )
    }
}

/// What `read` returns.
pub open spec fn read_spec(s: StoreModel, id: u64) -> Result<CriteriaModel, StoreError> {
    if s.records.contains_key(id) {
        Ok(s.records[id])
    } else {
        Err(StoreError::NotFound)
    }
}

/// What `update` does: the new store and the result.
pub open spec fn update_spec(s: StoreModel, id: u64, p: PatchModel) -> (StoreModel, Result<CriteriaModel, StoreError>) {
    if !s.records.contains_key(id) {
        (s, Err(StoreError::NotFound))
    } else if !apply_patch(s.records[id], p).is_valid() {
        (s, Err(StoreError::ValidationError))
    } else {
        let c = apply_patch(s.records[id], p);
        (StoreModel { records: s.records.insert(id, c), next_id: s.next_id }, Ok(c))
    }
}

/// What `delete` does: the new store and the result.
pub open spec fn delete_spec(s: StoreModel, id: u64) -> (StoreModel, Result<(), StoreError>) {
    if !s.records.contains_key(id) {
        (s, Err(StoreError::NotFound))
    } else {
        (StoreModel { records: s.records.remove(id), next_id: s.next_id }, Ok(()))
    }
}

/// A record, or the error, seen through the record's view.
pub open spec fn view_result(r: Result<Criteria, StoreError>) -> Result<CriteriaModel, StoreError> {
    match r {
        Ok(c) => Ok(c@),
        Err(e) => Err(e),
    }
}

/// A partial set of fields for `update`.
pub struct CriteriaPatch {
    pub age: Option<i32>,
    pub gender: Option<Gender>,
    pub nationality: Option<String>,
}

impl View for CriteriaPatch {
    type V = PatchModel;

    open spec fn view(&self) -> PatchModel {
        PatchModel {
            age: self.age,
            gender: self.gender,
            nationality: match self.nationality { Some(n) => Some(n@), None => None },
        }
    }
}

impl CriteriaPatch {
    /// A patch that changes nothing.
    pub fn empty() -> (r: CriteriaPatch)
        ensures
            r@ == (PatchModel { age: None, gender: None, nationality: None }),
    {
        CriteriaPatch { age: None, gender: None, nationality: None }
    }
}

/// `c` with the fields of `p` laid over it.
pub fn patched(c: &Criteria, p: &CriteriaPatch) -> (r: Criteria)
    ensures
        r@ == apply_patch(c@, p@),
{
    let age = match p.age { Some(a) => a, None => c.age() };
    let gender = match p.gender { Some(g) => g, None => c.gender() };
    let nationality = match &p.nationality {
        Some(n) => n.clone(),
        None => c.nationality().to_owned(),
    };
    Criteria::new(age, gender, nationality)
}

/// Records keyed by identifier, with the next identifier to hand out.
pub struct RecordStore {
    records: HashMap<u64, Criteria>,
    next_id: u64,
}

impl View for RecordStore {
    type V = StoreModel;

    closed spec fn view(&self) -> StoreModel {
        StoreModel {
            records: Map::new(|k: u64| self.records@.contains_key(k), |k: u64| self.records@[k]@),
            next_id: self.next_id,
        }
    }
}

impl RecordStore {
    /// The store's invariant.
    pub open spec fn wf(&self) -> bool {
        self@.wf()
    }

    /// An empty store whose first identifier is 1.
    pub fn new() -> (r: RecordStore)
        ensures
            r.wf(),
            r@.records == Map::<u64, CriteriaModel>::empty(),
            r@.next_id == 1,
    {
        let r = RecordStore { records: HashMap::new(), next_id: 1 };
        assert(r@.records =~= Map::<u64, CriteriaModel>::empty());
        r
    }

    /// The number of stored records.
    pub fn len(&self) -> (r: usize)
        ensures
            r as nat == self@.records.len(),
    {
        proof {
            assert(self@.records.dom() =~= self.records@.dom());
        }
        self.records.len()
    }

    /// Stores a valid record under a fresh identifier.
    pub fn create(&mut self, fields: Criteria) -> (r: Result<u64, StoreError>)
        requires
            old(self).wf(),
        ensures
            final(self).wf(),
            (final(self)@, r) == create_spec(old(self)@, fields@),
    {
        if !fields.is_valid() {
            return Err(StoreError::ValidationError);
        }
        if self.next_id == u64::MAX {
            return Err(StoreError::InternalError);
        }
        let id = self.next_id;
        let ghost before = self@;
        self.records.insert(id, fields);
        self.next_id = id + 1;
        assert(self@.records =~= before.records.insert(id, fields@));
        Ok(id)
    }

    /// The record stored under `id`.
    pub fn read(&self, id: u64) -> (r: Result<Criteria, StoreError>)
        requires
            self.wf(),
        ensures
            view_result(r) == read_spec(self@, id),
    {
        match self.records.get(&id) {
            Some(c) => Ok(c.clone()),
            None => Err(StoreError::NotFound),
        }
    }

    /// Lays `fields` over the record stored under `id`, and returns the result.
    pub fn update(&mut self, id: u64, fields: CriteriaPatch) -> (r: Result<Criteria, StoreError>)
        requires
            old(self).wf(),
        ensures
            final(self).wf(),
            (final(self)@, view_result(r)) == update_spec(old(self)@, id, fields@),
    {
        let ghost before = self@;
        let next = match self.records.get(&id) {
            Some(c) => patched(c, &fields),
            None => return Err(StoreError::NotFound),
        };
        if !next.is_valid() {
            return Err(StoreError::ValidationError);
        }
        let out = next.clone();
        self.records.insert(id, next);
        assert(self@.records =~= before.records.insert(id, out@));
        Ok(out)
    }

    /// Removes the record stored under `id`.
    pub fn delete(&mut self, id: u64) -> (r: Result<(), StoreError>)
        requires
            old(self).wf(),
        ensures
            final(self).wf(),
            (final(self)@, r) == delete_spec(old(self)@, id),
    {
        let ghost before = self@;
        match self.records.remove(&id) {
            Some(_) => {
                assert(self@.records =~= before.records.remove(id));
                Ok(())
            },
            None => {
                assert(self@.records =~= before.records);
                Err(StoreError::NotFound)
            },
        }
    }
}

/// A valid record stored by `create` is what `read` then returns under the
/// identifier that `create` handed out.
pub proof fn lemma_create_then_read(s: StoreModel, f: CriteriaModel)
    requires
        s.wf(),
        f.is_valid(),
        s.next_id < u64::MAX,
    ensures
        create_spec(s, f).1 == Ok::<u64, StoreError>(s.next_id),
        read_spec(create_spec(s, f).0, s.next_id) == Ok::<CriteriaModel, StoreError>(f),
{
}

/// An identifier that `create` never handed out names no record: reading,
/// updating and deleting it fail with `NotFound` and change nothing.
pub proof fn lemma_unissued_id_not_found(s: StoreModel, id: u64, p: PatchModel)
    requires
        s.wf(),
        id == 0 || id >= s.next_id,
    ensures
        read_spec(s, id) == Err::<CriteriaModel, StoreError>(StoreError::NotFound),
        update_spec(s, id, p) == (s, Err::<CriteriaModel, StoreError>(StoreError::NotFound)),
        delete_spec(s, id) == (s, Err::<(), StoreError>(StoreError::NotFound)),
{
}

/// An identifier whose record was deleted names no record any more: reading,
/// updating and deleting it fail with `NotFound` and change nothing.
pub proof fn lemma_deleted_id_not_found(s: StoreModel, id: u64, p: PatchModel)
    requires
        s.wf(),
    ensures
        ({
            let t = delete_spec(s, id).0;
            &&& t.wf()
            &&& read_spec(t, id) == Err::<CriteriaModel, StoreError>(StoreError::NotFound)
            &&& update_spec(t, id, p) == (t, Err::<CriteriaModel, StoreError>(StoreError::NotFound))
            &&& delete_spec(t, id) == (t, Err::<(), StoreError>(StoreError::NotFound))
        }),
{
}

/// Deleting a stored record twice succeeds once, then fails with `NotFound`.
pub proof fn lemma_delete_twice(s: StoreModel, id: u64)
    requires
        s.wf(),
        s.records.contains_key(id),
    ensures
        delete_spec(s, id).1 == Ok::<(), StoreError>(()),
        delete_spec(delete_spec(s, id).0, id).1 == Err::<(), StoreError>(StoreError::NotFound),
{
}

/// Every operation keeps the store's invariant and never lowers the next
/// identifier, so an identifier is never handed out twice.
pub proof fn lemma_operations_keep_invariant(s: StoreModel, f: CriteriaModel, id: u64, p: PatchModel)
    requires
        s.wf(),
    ensures
        create_spec(s, f).0.wf(),
        update_spec(s, id, p).0.wf(),
        delete_spec(s, id).0.wf(),
        create_spec(s, f).0.next_id >= s.next_id,
        update_spec(s, id, p).0.next_id == s.next_id,
        delete_spec(s, id).0.next_id == s.next_id,
{
}

/// The identifier that `create` hands out names no stored record, and lies
/// below every identifier handed out after it: two calls of `create`, in
/// sequence, never return the same identifier.
pub proof fn lemma_create_ids_distinct(s: StoreModel, f1: CriteriaModel, f2: CriteriaModel)
    requires
        s.wf(),
    ensures
        create_spec(s, f1).1 is Ok ==> !s.records.contains_key(create_spec(s, f1).1->Ok_0),
        create_spec(s, f1).1 is Ok ==> create_spec(s, f1).1->Ok_0 < create_spec(s, f1).0.next_id,
        ({
            let (t, r1) = create_spec(s, f1);
            let r2 = create_spec(t, f2).1;
            r1 is Ok && r2 is Ok ==> r1->Ok_0 < r2->Ok_0
        }),
{
}

/// One store operation, as a caller issues it.
pub enum StoreOp {
    Create(CriteriaModel),
    Read(u64),
    Update(u64, PatchModel),
    Delete(u64),
}

/// The store after one operation.
pub open spec fn step(s: StoreModel, op: StoreOp) -> StoreModel {
    match op {
        StoreOp::Create(f) => create_spec(s, f).0,
        StoreOp::Read(_) => s,
        StoreOp::Update(id, p) => update_spec(s, id, p).0,
        StoreOp::Delete(id) => delete_spec(s, id).0,
    }
}

/// The identifiers that the successful creates among `ops` hand out, in order,
/// when the operations run one after another from `s`.
pub open spec fn issued_ids(s: StoreModel, ops: Seq<StoreOp>) -> Seq<u64>
    decreases ops.len(),
{
    if ops.len() == 0 {
        Seq::empty()
    } else {
        let rest = issued_ids(step(s, ops[0]), ops.drop_first());
        match ops[0] {
            StoreOp::Create(f) => match create_spec(s, f).1 {
                Ok(id) => seq![id] + rest,
                Err(_) => rest,
            },
            _ => rest,
        }
    }
}

/// However operations are interleaved, the store runs them one at a time, and
/// the identifiers that its creates hand out rise strictly: none is handed out
/// twice, and none is below the store's next identifier at the start.
pub proof fn lemma_issued_ids_increase(s: StoreModel, ops: Seq<StoreOp>)
    requires
        s.wf(),
    ensures
        forall|i: int| 0 <= i < issued_ids(s, ops).len() ==> issued_ids(s, ops)[i] >= s.next_id,
        forall|i: int, j: int|
            0 <= i < j < issued_ids(s, ops).len() ==> issued_ids(s, ops)[i] < issued_ids(s, ops)[j],
    decreases ops.len(),
{
    if ops.len() > 0 {
        let t = step(s, ops[0]);
        lemma_issued_ids_increase(t, ops.drop_first());
        let rest = issued_ids(t, ops.drop_first());
        let all = issued_ids(s, ops);
        match ops[0] {
            StoreOp::Create(f) => match create_spec(s, f).1 {
                Ok(id) => {
                    assert(all =~= seq![id] + rest);
                    assert forall|i: int, j: int| 0 <= i < j < all.len() implies all[i] < all[j] by {
                        if i > 0 {
                            assert(all[i] == rest[i - 1]);
                            assert(all[j] == rest[j - 1]);
                        } else {
                            assert(all[j] == rest[j - 1]);
                        }
                    }
                    assert forall|i: int| 0 <= i < all.len() implies all[i] >= s.next_id by {
                        if i > 0 {
                            assert(all[i] == rest[i - 1]);
                        }
                    }
                },
                Err(_) => {},
            },
            _ => {},
        }
    }
}

} // verus!
