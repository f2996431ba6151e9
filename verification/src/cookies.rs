//! Durable, per-account storage of session cookie material. The transport's
//! in-memory jar is the source of truth while the process runs; this store
//! keeps the serialized jar contents — an opaque text to this crate — under
//! one record per account identifier. The surrounding application mirrors the
//! records to disk and feeds the active material back into the transport.

use crate::kvlist::KvList;
use vstd::prelude::*;
use vstd::string::StringExecFns;

verus! {

/// Opaque serialized cookie material for one account's session.
#[derive(Debug, Clone)]
pub struct CookieRecord {
    pub data: String,
}

impl View for CookieRecord {
    type V = Seq<char>;

    open spec fn view(&self) -> Seq<char> {
        self.data@
    }
}

impl CookieRecord {
    /// The default, empty jar contents.
    pub fn empty() -> (r: Self)
        ensures
            r@ == Seq::<char>::empty(),
    {
        CookieRecord { data: String::new() }
    }

    /// Wraps serialized jar contents handed over by the transport layer.
    pub fn from_material(data: String) -> (r: Self)
        ensures
            r@ == data@,
    {
        CookieRecord { data }
    }

    /// An owned copy with the same contents.
    pub fn duplicate(&self) -> (r: Self)
        ensures
            r@ == self@,
    {
        CookieRecord { data: self.data.clone() }
    }
}

/// Ghost image of the store: the active jar's material and the saved
/// per-account records.
pub ghost struct StoreV {
    pub active: Seq<char>,
    pub saved: Map<Seq<char>, Seq<char>>,
}

/// Replacing the active jar contents wholesale.
pub open spec fn spec_set_active(st: StoreV, material: Seq<char>) -> StoreV {
    StoreV { active: material, saved: st.saved }
}

/// Saving: the active material is recorded under the account, overwriting
/// any earlier record; the active jar is untouched.
pub open spec fn spec_save(st: StoreV, account_id: Seq<char>) -> StoreV {
    StoreV { active: st.active, saved: st.saved.insert(account_id, st.active) }
}

/// Loading: the active jar is replaced wholesale by the account's record,
/// or left at its default empty state when no record exists; the records
/// are untouched.
pub open spec fn spec_load(st: StoreV, account_id: Seq<char>) -> StoreV {
    StoreV {
        active: if st.saved.contains_key(account_id) {
            st.saved[account_id]
        } else {
            Seq::empty()
        },
        saved: st.saved,
    }
}

/// Clearing: the active jar is emptied immediately; no record is touched.
pub open spec fn spec_clear(st: StoreV) -> StoreV {
    StoreV { active: Seq::empty(), saved: st.saved }
}

/// Per-account storage of cookie material, with the active in-memory jar
/// contents alongside.
pub struct CookieJarStore {
    active: CookieRecord,
    saved: KvList<CookieRecord>,
}

impl View for CookieJarStore {
    type V = StoreV;

    closed spec fn view(&self) -> StoreV {
        StoreV { active: self.active@, saved: self.saved@ }
    }
}

impl CookieJarStore {
    pub closed spec fn wf(self) -> bool {
        self.saved.wf()
    }

    /// A fresh store: empty active jar, no records.
    pub fn new() -> (r: Self)
        ensures
            r.wf(),
            r@.active == Seq::<char>::empty(),
            r@.saved == Map::<Seq<char>, Seq<char>>::empty(),
    {
        CookieJarStore { active: CookieRecord::empty(), saved: KvList::new() }
    }

    /// Replaces the active jar contents, as the transport does after a
    /// request carried a cookie update.
    pub fn set_active(&mut self, material: String)
        requires
            old(self).wf(),
        ensures
            final(self).wf(),
            final(self)@ == spec_set_active(old(self)@, material@),
    {
        self.active = CookieRecord::from_material(material);
    }

    /// The active jar contents.
    pub fn active(&self) -> (r: &CookieRecord)
        ensures
            r@ == self@.active,
    {
        &self.active
    }

    /// Serializes the active jar under the account's key. Overwriting is
    /// idempotent and total: the in-memory session stays valid whatever the
    /// surrounding application later reports about durable storage.
    pub fn save(&mut self, account_id: &str)
        requires
            old(self).wf(),
        ensures
            final(self).wf(),
            final(self)@ == spec_save(old(self)@, account_id@),
    {
        let record = self.active.duplicate();
        self.saved.insert(String::from_str(account_id), record);
    }

    /// Replaces the active jar wholesale by the account's saved record. With
    /// no prior record the active jar is left at its default empty state —
    /// that is no error, it means "no prior session for this account". Says
    /// whether a record existed.
    pub fn load(&mut self, account_id: &str) -> (had_record: bool)
        requires
            old(self).wf(),
        ensures
            final(self).wf(),
            final(self)@ == spec_load(old(self)@, account_id@),
            had_record == old(self)@.saved.contains_key(account_id@),
    {
        let loaded = match self.saved.get(account_id) {
            Some(record) => Some(record.duplicate()),
            None => None,
        };
        match loaded {
            Some(record) => {
                self.active = record;
                true
            },
            None => {
                self.active = CookieRecord::empty();
                false
            },
        }
    }

    /// Empties the active jar immediately; durable records are untouched.
    pub fn clear(&mut self)
        requires
            old(self).wf(),
        ensures
            final(self).wf(),
            final(self)@ == spec_clear(old(self)@),
    {
        self.active = CookieRecord::empty();
    }

    /// Whether a record is saved for the account.
    pub fn has_record(&self, account_id: &str) -> (r: bool)
        requires
            self.wf(),
        ensures
            r == self@.saved.contains_key(account_id@),
    {
        self.saved.contains(account_id)
    }

    /// Installs a record read back from durable storage at start-up.
    pub fn insert_record(&mut self, account_id: &str, record: CookieRecord)
        requires
            old(self).wf(),
        ensures
            final(self).wf(),
            final(self)@.active == old(self)@.active,
            final(self)@.saved == old(self)@.saved.insert(account_id@, record@),
    {
        self.saved.insert(String::from_str(account_id), record);
    }

    /// The saved records, for mirroring to durable storage.
    pub fn records(&self) -> (r: &Vec<(String, CookieRecord)>)
        requires
            self.wf(),
        ensures
            r@.len() == self@.saved.dom().len(),
            forall|j: int|
                0 <= j < r@.len() ==> self@.saved.contains_key(#[trigger] r@[j].0@)
                    && self@.saved[r@[j].0@] == r@[j].1@,
    {
        self.saved.entries()
    }
}

/// Saving for an account and then loading the same account restores exactly
/// the material that was active at save time, and keeps every record.
pub proof fn lemma_save_load_round_trip(st: StoreV, account_id: Seq<char>)
    ensures
        spec_load(spec_save(st, account_id), account_id).active == st.active,
        spec_load(spec_save(st, account_id), account_id).saved == spec_save(st, account_id).saved,
{
}

/// Loading an account with no saved record leaves the active jar at its
/// default empty state and is not an error.
pub proof fn lemma_load_unknown_leaves_empty(st: StoreV, account_id: Seq<char>)
    requires
        !st.saved.contains_key(account_id),
    ensures
        spec_load(st, account_id).active == Seq::<char>::empty(),
        spec_load(st, account_id).saved == st.saved,
{
}

/// Saving repeatedly for the same account is an idempotent overwrite.
pub proof fn lemma_save_idempotent(st: StoreV, account_id: Seq<char>)
    ensures
        spec_save(spec_save(st, account_id), account_id) == spec_save(st, account_id),
{
    assert(spec_save(spec_save(st, account_id), account_id).saved =~= spec_save(
        st,
        account_id,
    ).saved);
}

/// Clearing the active jar touches no durable record.
pub proof fn lemma_clear_keeps_records(st: StoreV)
    ensures
        spec_clear(st).saved == st.saved,
{
}

} // verus!
