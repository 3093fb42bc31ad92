//! The storage-request ledger: the authoritative state machine for open
//! and fulfilled storage requests.
//!
//! Two indices are kept, both keyed by file location. The *open* index
//! holds requests still accepting volunteers; the *fulfilled* index keeps
//! a terminal copy of a request from its first volunteer on. A request
//! leaves the open index exactly when its volunteer set reaches the
//! system's `MaxBsps` bound.

use vstd::prelude::*;
use crate::oracle::{
    min_threshold_at, score_of, compute_score, min_threshold, lemma_admission_monotonic,
    SATURATION_BLOCKS,
};
use crate::registry::ProviderRegistry;
use crate::types::{
    AccountId, FileLocation, FileMetadata, FileMetadataView, bytes_eq, clone_bytes, clone_meta,
    accounts_contain, occurs_once,
};

verus! {

/// Notifications the ledger emits on success.
#[derive(PartialEq, Eq, Debug)]
pub enum Event {
    NewStorageRequest {
        who: AccountId,
        location: FileLocation,
        fingerprint: Vec<u8>,
        size: u64,
        sender_multiaddress: Vec<u8>,
    },
    NewBspVolunteer {
        who: AccountId,
        location: FileLocation,
        fingerprint: Vec<u8>,
        bsp_multiaddress: Vec<u8>,
    },
}

/// Rejections of ledger transactions; the ledger is left unchanged by a
/// rejected transaction.
#[derive(PartialEq, Eq, Structural, Debug, Clone, Copy)]
pub enum Error {
    /// A storage request for this location is already open.
    StorageRequestAlreadyRegistered,
    /// The caller is not a registered storage provider.
    NotBsp,
    /// No open storage request exists at this location.
    StorageRequestNotRegistered,
    /// The caller already volunteered for this storage request.
    BspAlreadyRegistered,
    /// The caller's admission score exceeds the threshold in force.
    ThresholdTooLow,
}

/// One keyed entry of a ledger index.
pub type Entry = (FileLocation, FileMetadata);

/// No two entries share a key.
pub open spec fn unique_keys(s: Seq<Entry>) -> bool {
    forall|i: int, j: int| 0 <= i < j < s.len() ==> s[i].0@ != s[j].0@
}

/// Whether some entry has key `k`.
pub open spec fn has_key(s: Seq<Entry>, k: Seq<u8>) -> bool {
    exists|i: int| 0 <= i < s.len() && s[i].0@ == k
}

/// The position of the entry with key `k`.
pub open spec fn key_index(s: Seq<Entry>, k: Seq<u8>) -> int {
    choose|i: int| 0 <= i < s.len() && s[i].0@ == k
}

/// The finite map an index holds.
pub open spec fn entries_map(s: Seq<Entry>) -> Map<Seq<u8>, FileMetadataView> {
    Map::new(|k: Seq<u8>| has_key(s, k), |k: Seq<u8>| s[key_index(s, k)].1@)
}

/// With unique keys, the entry at any position is the one its key maps
/// to.
proof fn lemma_entries_at(s: Seq<Entry>, i: int)
    requires
        unique_keys(s),
        0 <= i < s.len(),
    ensures
        entries_map(s).contains_key(s[i].0@),
        entries_map(s)[s[i].0@] == s[i].1@,
{
    let k = s[i].0@;
    assert(has_key(s, k));
    let j = key_index(s, k);
    assert(0 <= j < s.len() && s[j].0@ == k);
    assert(j == i);
}

/// Appending an entry under a fresh key adds exactly that binding.
proof fn lemma_entries_push(s: Seq<Entry>, e: Entry)
    requires
        unique_keys(s),
        !has_key(s, e.0@),
    ensures
        unique_keys(s.push(e)),
        entries_map(s.push(e)) =~= entries_map(s).insert(e.0@, e.1@),
{
    let t = s.push(e);
    assert forall|i: int, j: int| 0 <= i < j < t.len() implies t[i].0@ != t[j].0@ by {
        if j < s.len() {
            assert(t[i] == s[i] && t[j] == s[j]);
        } else {
            assert(t[i] == s[i] && t[j] == e);
            assert(has_key(s, s[i].0@));
        }
    }
    assert forall|k: Seq<u8>| #[trigger] has_key(t, k) implies has_key(s, k) || k == e.0@ by {
        let i = choose|i: int| 0 <= i < t.len() && t[i].0@ == k;
        if i < s.len() {
            assert(s[i].0@ == k);
        }
    }
    assert forall|k: Seq<u8>| has_key(s, k) implies #[trigger] has_key(t, k) by {
        let i = choose|i: int| 0 <= i < s.len() && s[i].0@ == k;
        assert(t[i].0@ == k);
    }
    assert(has_key(t, e.0@)) by {
        assert(t[s.len() as int].0@ == e.0@);
    }
    assert forall|k: Seq<u8>| #[trigger] has_key(t, k) implies entries_map(t)[k] == entries_map(
        s,
    ).insert(e.0@, e.1@)[k] by {
        let i = key_index(t, k);
        assert(0 <= i < t.len() && t[i].0@ == k);
        if k == e.0@ {
            assert(i == s.len()) by {
                if i < s.len() {
                    assert(s[i].0@ == k);
                    assert(has_key(s, e.0@));
                }
            }
            assert(entries_map(t)[k] == e.1@);
        } else {
            assert(i < s.len()) by {
                if i == s.len() {
                    assert(t[i] == e);
                }
            }
            assert(t[i] == s[i]);
            lemma_entries_at(s, i);
        }
    }
}

/// Replacing the entry at a position, key kept, rebinds exactly that key.
proof fn lemma_entries_update(s: Seq<Entry>, i: int, e: Entry)
    requires
        unique_keys(s),
        0 <= i < s.len(),
        e.0@ == s[i].0@,
    ensures
        unique_keys(s.update(i, e)),
        entries_map(s.update(i, e)) =~= entries_map(s).insert(e.0@, e.1@),
{
    let t = s.update(i, e);
    assert(t.len() == s.len());
    assert(forall|j: int| 0 <= j < t.len() ==> t[j].0@ == s[j].0@);
    assert forall|k: Seq<u8>| #[trigger] has_key(t, k) == has_key(s, k) by {
        if has_key(t, k) {
            let j = choose|j: int| 0 <= j < t.len() && t[j].0@ == k;
            assert(s[j].0@ == k);
        }
        if has_key(s, k) {
            let j = choose|j: int| 0 <= j < s.len() && s[j].0@ == k;
            assert(t[j].0@ == k);
        }
    }
    assert forall|k: Seq<u8>| #[trigger] has_key(t, k) implies entries_map(t)[k] == entries_map(
        s,
    ).insert(e.0@, e.1@)[k] by {
        let j = key_index(t, k);
        assert(0 <= j < t.len() && t[j].0@ == k);
        if k == e.0@ {
            assert(j == i) by {
                if j != i {
                    assert(s[j].0@ == k && s[i].0@ == k);
                }
            }
            assert(entries_map(t)[k] == e.1@);
        } else {
            assert(j != i);
            assert(t[j] == s[j]);
            lemma_entries_at(s, j);
        }
    }
}

/// Removing the entry at a position unbinds exactly its key.
proof fn lemma_entries_remove(s: Seq<Entry>, i: int)
    requires
        unique_keys(s),
        0 <= i < s.len(),
    ensures
        unique_keys(s.remove(i)),
        entries_map(s.remove(i)) =~= entries_map(s).remove(s[i].0@),
{
    let t = s.remove(i);
    assert(t.len() == s.len() - 1);
    assert(forall|j: int|
        0 <= j < t.len() ==> t[j] == if j < i {
            s[j]
        } else {
            s[j + 1]
        });
    assert forall|p: int, q: int| 0 <= p < q < t.len() implies t[p].0@ != t[q].0@ by {
        let p2: int = if p < i { p } else { p + 1 };
        let q2: int = if q < i { q } else { q + 1 };
        assert(t[p] == s[p2] && t[q] == s[q2]);
        assert(p2 < q2);
    }
    assert forall|k: Seq<u8>| #[trigger] has_key(t, k) implies has_key(s, k) && k != s[i].0@ by {
        let j = choose|j: int| 0 <= j < t.len() && t[j].0@ == k;
        let j2: int = if j < i { j } else { j + 1 };
        assert(s[j2].0@ == k);
        assert(j2 != i);
        if k == s[i].0@ {
            assert(s[j2].0@ == s[i].0@);
            if j2 < i {
                assert(s[j2].0@ != s[i].0@);
            } else {
                assert(s[i].0@ != s[j2].0@);
            }
        }
    }
    assert forall|k: Seq<u8>| has_key(s, k) && k != s[i].0@ implies #[trigger] has_key(t, k) by {
        let j = choose|j: int| 0 <= j < s.len() && s[j].0@ == k;
        assert(j != i);
        if j < i {
            assert(t[j].0@ == k);
        } else {
            assert(t[j - 1].0@ == k);
        }
    }
    assert forall|k: Seq<u8>| #[trigger] has_key(t, k) implies entries_map(t)[k] == entries_map(
        s,
    ).remove(s[i].0@)[k] by {
        let j = key_index(t, k);
        assert(0 <= j < t.len() && t[j].0@ == k);
        let j2: int = if j < i { j } else { j + 1 };
        assert(t[j] == s[j2]);
        lemma_entries_at(s, j2);
    }
}

/// Finds the entry with the given key, if any.
fn find_entry(entries: &Vec<Entry>, location: &FileLocation) -> (r: Option<usize>)
    ensures
        match r {
            Some(i) => i < entries@.len() && entries@[i as int].0@ == location@,
            None => !has_key(entries@, location@),
        },
{
    let mut i: usize = 0;
    while i < entries.len()
        invariant
            i <= entries@.len(),
            forall|j: int| 0 <= j < i ==> entries@[j].0@ != location@,
        decreases entries@.len() - i,
    {
        if bytes_eq(&entries[i].0, location) {
            return Some(i);
        }
        i += 1;
    }
    None
}

/// The mathematical value of the ledger: its two indices as maps from
/// location to record.
pub ghost struct LedgerView {
    /// Requests still accepting volunteers.
    pub open_requests: Map<Seq<u8>, FileMetadataView>,
    /// Terminal copies of requests that found their first volunteer.
    pub fulfilled: Map<Seq<u8>, FileMetadataView>,
}

/// The record a fresh storage request holds.
pub open spec fn fresh_metadata(fingerprint: Seq<u8>, size: u64, current_block: u64) -> FileMetadataView {
    FileMetadataView {
        requested_at: current_block,
        fingerprint: fingerprint,
        size: size,
        bsps: Seq::empty(),
        is_public: true,
    }
}

/// The ledger after a successful storage request at `location`.
pub open spec fn request_next(
    lv: LedgerView,
    location: Seq<u8>,
    fingerprint: Seq<u8>,
    size: u64,
    current_block: u64,
) -> LedgerView {
    LedgerView {
        open_requests: lv.open_requests.insert(
            location,
            fresh_metadata(fingerprint, size, current_block),
        ),
        fulfilled: lv.fulfilled,
    }
}

/// Why a volunteer transaction is rejected, if it is. The checks apply in
/// this order: caller registration, request existence, double
/// volunteering, admission threshold.
pub open spec fn volunteer_error(
    lv: LedgerView,
    registered: Seq<AccountId>,
    who: AccountId,
    location: Seq<u8>,
    fingerprint: Seq<u8>,
    current_block: u64,
    base: u32,
) -> Option<Error> {
    if !registered.contains(who) {
        Some(Error::NotBsp)
    } else if !lv.open_requests.contains_key(location) {
        Some(Error::StorageRequestNotRegistered)
    } else if lv.open_requests[location].bsps.contains(who) {
        Some(Error::BspAlreadyRegistered)
    } else if !(score_of(fingerprint, who) <= min_threshold_at(
        lv.open_requests[location].requested_at,
        current_block,
        base,
    )) {
        Some(Error::ThresholdTooLow)
    } else {
        None
    }
}

/// A request's record after `who` is appended to its volunteers.
pub open spec fn volunteered_metadata(meta: FileMetadataView, who: AccountId) -> FileMetadataView {
    FileMetadataView {
        requested_at: meta.requested_at,
        fingerprint: meta.fingerprint,
        size: meta.size,
        bsps: meta.bsps.push(who),
        is_public: meta.is_public,
    }
}

/// The ledger after a successful volunteer transaction: the open record
/// gains the volunteer, leaving the open index exactly when the bound is
/// reached; the fulfilled index gains a copy on the first volunteer and
/// is never updated after.
pub open spec fn volunteer_next(
    lv: LedgerView,
    who: AccountId,
    location: Seq<u8>,
    max_bsps: u32,
) -> LedgerView {
    let new_meta = volunteered_metadata(lv.open_requests[location], who);
    LedgerView {
        open_requests: if new_meta.bsps.len() == max_bsps {
            lv.open_requests.remove(location)
        } else {
            lv.open_requests.insert(location, new_meta)
        },
        fulfilled: if lv.fulfilled.contains_key(location) {
            lv.fulfilled
        } else {
            lv.fulfilled.insert(location, new_meta)
        },
    }
}

/// The storage-matching pallet: parameters and the two request indices.
pub struct Pallet {
    storage_requests: Vec<Entry>,
    files_mapping: Vec<Entry>,
    max_bsps: u32,
    max_file_path_size: u32,
    max_multi_address_size: u32,
    min_bsps_assignment_threshold: u32,
}

impl View for Pallet {
    type V = LedgerView;

    closed spec fn view(&self) -> LedgerView {
        LedgerView {
            open_requests: entries_map(self.storage_requests@),
            fulfilled: entries_map(self.files_mapping@),
        }
    }
}

impl Pallet {
    /// The maximum number of volunteers a request may gather.
    pub closed spec fn max_bsps(self) -> u32 {
        self.max_bsps
    }

    /// The maximum length of a file location in bytes.
    pub closed spec fn max_file_path_size(self) -> u32 {
        self.max_file_path_size
    }

    /// The maximum length of a multiaddress in bytes.
    pub closed spec fn max_multi_address_size(self) -> u32 {
        self.max_multi_address_size
    }

    /// The base admission threshold in force at a request's creation.
    pub closed spec fn min_bsps_assignment_threshold(self) -> u32 {
        self.min_bsps_assignment_threshold
    }

    /// The system parameters, bundled for contracts that keep them fixed.
    pub open spec fn params(self) -> (u32, u32, u32, u32) {
        (
            self.max_bsps(),
            self.max_file_path_size(),
            self.max_multi_address_size(),
            self.min_bsps_assignment_threshold(),
        )
    }

    /// Representation invariant: unique keys in both indices, well-formed
    /// records, open requests strictly below the volunteer bound.
    pub closed spec fn wf(self) -> bool {
        &&& self.max_bsps >= 1
        &&& unique_keys(self.storage_requests@)
        &&& unique_keys(self.files_mapping@)
        &&& forall|i: int|
            0 <= i < self.storage_requests@.len() ==> (#[trigger] self.storage_requests@[i]).1@.wf(
                self.max_bsps,
            ) && self.storage_requests@[i].1@.bsps.len() < self.max_bsps
                && self.storage_requests@[i].0@.len() <= self.max_file_path_size
        &&& forall|i: int|
            0 <= i < self.files_mapping@.len() ==> (#[trigger] self.files_mapping@[i]).1@.wf(
                self.max_bsps,
            ) && self.files_mapping@[i].0@.len() <= self.max_file_path_size
    }

    /// A fresh ledger with empty indices.
    pub fn new(
        max_bsps: u32,
        max_file_path_size: u32,
        max_multi_address_size: u32,
        min_bsps_assignment_threshold: u32,
    ) -> (r: Pallet)
        requires
            max_bsps >= 1,
        ensures
            r.wf(),
            r@.open_requests =~= Map::<Seq<u8>, FileMetadataView>::empty(),
            r@.fulfilled =~= Map::<Seq<u8>, FileMetadataView>::empty(),
            r.params() == (
                max_bsps,
                max_file_path_size,
                max_multi_address_size,
                min_bsps_assignment_threshold,
            ),
    {
        let r = Pallet {
            storage_requests: Vec::new(),
            files_mapping: Vec::new(),
            max_bsps,
            max_file_path_size,
            max_multi_address_size,
            min_bsps_assignment_threshold,
        };
        proof {
            assert forall|k: Seq<u8>| !(#[trigger] has_key(r.storage_requests@, k)) by {}
            assert forall|k: Seq<u8>| !(#[trigger] has_key(r.files_mapping@, k)) by {}
        }
        r
    }

    /// The open request at `location`, if one exists.
    pub fn get_storage_request(&self, location: &FileLocation) -> (r: Option<&FileMetadata>)
        requires
            self.wf(),
        ensures
            match r {
                Some(m) => self@.open_requests.contains_key(location@) && m@
                    == self@.open_requests[location@],
                None => !self@.open_requests.contains_key(location@),
            },
    {
        match find_entry(&self.storage_requests, location) {
            Some(i) => {
                proof {
                    lemma_entries_at(self.storage_requests@, i as int);
                }
                Some(&self.storage_requests[i].1)
            },
            None => None,
        }
    }

    /// The fulfilled record at `location`, if one exists.
    pub fn get_file_mapping(&self, location: &FileLocation) -> (r: Option<&FileMetadata>)
        requires
            self.wf(),
        ensures
            match r {
                Some(m) => self@.fulfilled.contains_key(location@) && m@
                    == self@.fulfilled[location@],
                None => !self@.fulfilled.contains_key(location@),
            },
    {
        match find_entry(&self.files_mapping, location) {
            Some(i) => {
                proof {
                    lemma_entries_at(self.files_mapping@, i as int);
                }
                Some(&self.files_mapping[i].1)
            },
            None => None,
        }
    }

    /// Validates and registers a storage request: rejected if one is
    /// already open at `location`, otherwise recorded with an empty
    /// volunteer set at height `current_block`.
    pub fn do_request_storage(
        &mut self,
        location: &FileLocation,
        fingerprint: &Vec<u8>,
        size: u64,
        current_block: u64,
    ) -> (r: Result<(), Error>)
        requires
            old(self).wf(),
            location@.len() <= old(self).max_file_path_size(),
            fingerprint@.len() == 32,
        ensures
            final(self).wf(),
            final(self).params() == old(self).params(),
            old(self)@.open_requests.contains_key(location@) ==> r == Err::<(), Error>(
                Error::StorageRequestAlreadyRegistered,
            ) && final(self)@ == old(self)@,
            !old(self)@.open_requests.contains_key(location@) ==> r == Ok::<(), Error>(())
                && final(self)@ == request_next(
                old(self)@,
                location@,
                fingerprint@,
                size,
                current_block,
            ),
    {
        match find_entry(&self.storage_requests, location) {
            Some(i) => {
                proof {
                    lemma_entries_at(self.storage_requests@, i as int);
                }
                Err(Error::StorageRequestAlreadyRegistered)
            },
            None => {
                let file_metadata = FileMetadata {
                    requested_at: current_block,
                    fingerprint: clone_bytes(fingerprint),
                    size,
                    bsps: Vec::new(),
                    is_public: true,
                };
                let entry = (clone_bytes(location), file_metadata);
                proof {
                    lemma_entries_push(self.storage_requests@, entry);
                }
                self.storage_requests.push(entry);
                proof {
                    assert(self@.open_requests =~= old(self)@.open_requests.insert(
                        location@,
                        fresh_metadata(fingerprint@, size, current_block),
                    ));
                }
                Ok(())
            },
        }
    }

    /// Registers a storage request on behalf of `who` and reports the
    /// notification a successful registration emits.
    pub fn request_storage(
        &mut self,
        who: AccountId,
        location: &FileLocation,
        fingerprint: &Vec<u8>,
        size: u64,
        sender_multiaddress: &Vec<u8>,
        current_block: u64,
    ) -> (r: Result<Event, Error>)
        requires
            old(self).wf(),
            location@.len() <= old(self).max_file_path_size(),
            fingerprint@.len() == 32,
            sender_multiaddress@.len() <= old(self).max_multi_address_size(),
        ensures
            final(self).wf(),
            final(self).params() == old(self).params(),
            old(self)@.open_requests.contains_key(location@) ==> r == Err::<Event, Error>(
                Error::StorageRequestAlreadyRegistered,
            ) && final(self)@ == old(self)@,
            !old(self)@.open_requests.contains_key(location@) ==> ({
                &&& final(self)@ == request_next(
                    old(self)@,
                    location@,
                    fingerprint@,
                    size,
                    current_block,
                )
                &&& r matches Ok(ev) && ev matches Event::NewStorageRequest {
                    who: w,
                    location: l,
                    fingerprint: f,
                    size: sz,
                    sender_multiaddress: sm,
                } && w == who && l@ == location@ && f@ == fingerprint@ && sz == size && sm@
                    == sender_multiaddress@
            }),
    {
        self.do_request_storage(location, fingerprint, size, current_block)?;
        Ok(
            Event::NewStorageRequest {
                who,
                location: clone_bytes(location),
                fingerprint: clone_bytes(fingerprint),
                size,
                sender_multiaddress: clone_bytes(sender_multiaddress),
            },
        )
    }

    /// Validates a volunteer transaction and, if it is admitted, appends
    /// `who` to the request's volunteers, moving the request to the
    /// fulfilled index on its first volunteer and out of the open index
    /// when the volunteer bound is reached.
    pub fn do_bsp_volunteer(
        &mut self,
        registry: &ProviderRegistry,
        who: AccountId,
        location: &FileLocation,
        fingerprint: &Vec<u8>,
        current_block: u64,
    ) -> (r: Result<(), Error>)
        requires
            old(self).wf(),
            fingerprint@.len() == 32,
        ensures
            final(self).wf(),
            final(self).params() == old(self).params(),
            match volunteer_error(
                old(self)@,
                registry.registered(),
                who,
                location@,
                fingerprint@,
                current_block,
                old(self).min_bsps_assignment_threshold(),
            ) {
                Some(e) => r == Err::<(), Error>(e) && final(self)@ == old(self)@,
                None => r == Ok::<(), Error>(()) && final(self)@ == volunteer_next(
                    old(self)@,
                    who,
                    location@,
                    old(self).max_bsps(),
                ),
            },
    {
        if !registry.is_registered(who) {
            return Err(Error::NotBsp);
        }
        let i = match find_entry(&self.storage_requests, location) {
            None => {
                return Err(Error::StorageRequestNotRegistered);
            },
            Some(i) => i,
        };
        proof {
            lemma_entries_at(self.storage_requests@, i as int);
        }
        if accounts_contain(&self.storage_requests[i].1.bsps, who) {
            return Err(Error::BspAlreadyRegistered);
        }
        let score_value = compute_score(fingerprint, who);
        let requested_at = self.storage_requests[i].1.requested_at;
        let dynamic_min = min_threshold(
            requested_at,
            current_block,
            self.min_bsps_assignment_threshold,
        );
        if !(score_value <= dynamic_min) {
            return Err(Error::ThresholdTooLow);
        }
        let ghost lv0 = self@;
        let mut new_meta = clone_meta(&self.storage_requests[i].1);
        new_meta.bsps.push(who);
        proof {
            assert(new_meta@ == volunteered_metadata(lv0.open_requests[location@], who));
        }
        match find_entry(&self.files_mapping, location) {
            Some(_) => {},
            None => {
                let fulfilled_entry = (clone_bytes(location), clone_meta(&new_meta));
                proof {
                    lemma_entries_push(self.files_mapping@, fulfilled_entry);
                }
                self.files_mapping.push(fulfilled_entry);
            },
        }
        if new_meta.bsps.len() >= self.max_bsps as usize {
            proof {
                lemma_entries_remove(self.storage_requests@, i as int);
            }
            self.storage_requests.remove(i);
        } else {
            let entry = (clone_bytes(location), new_meta);
            proof {
                lemma_entries_update(self.storage_requests@, i as int, entry);
            }
            self.storage_requests.set(i, entry);
        }
        proof {
            let lv1 = volunteer_next(lv0, who, location@, self.max_bsps);
            assert(self@.open_requests =~= lv1.open_requests);
            assert(self@.fulfilled =~= lv1.fulfilled);
        }
        Ok(())
    }

    /// Volunteers `who` for the storage request at `location` and reports
    /// the notification a successful admission emits.
    pub fn bsp_volunteer(
        &mut self,
        registry: &ProviderRegistry,
        who: AccountId,
        location: &FileLocation,
        fingerprint: &Vec<u8>,
        bsp_multiaddress: &Vec<u8>,
        current_block: u64,
    ) -> (r: Result<Event, Error>)
        requires
            old(self).wf(),
            fingerprint@.len() == 32,
            bsp_multiaddress@.len() <= old(self).max_multi_address_size(),
        ensures
            final(self).wf(),
            final(self).params() == old(self).params(),
            match volunteer_error(
                old(self)@,
                registry.registered(),
                who,
                location@,
                fingerprint@,
                current_block,
                old(self).min_bsps_assignment_threshold(),
            ) {
                Some(e) => r == Err::<Event, Error>(e) && final(self)@ == old(self)@,
                None => ({
                    &&& final(self)@ == volunteer_next(
                        old(self)@,
                        who,
                        location@,
                        old(self).max_bsps(),
                    )
                    &&& r matches Ok(ev) && ev matches Event::NewBspVolunteer {
                        who: w,
                        location: l,
                        fingerprint: f,
                        bsp_multiaddress: m,
                    } && w == who && l@ == location@ && f@ == fingerprint@ && m@
                        == bsp_multiaddress@
                }),
            },
    {
        self.do_bsp_volunteer(registry, who, location, fingerprint, current_block)?;
        Ok(
            Event::NewBspVolunteer {
                who,
                location: clone_bytes(location),
                fingerprint: clone_bytes(fingerprint),
                bsp_multiaddress: clone_bytes(bsp_multiaddress),
            },
        )
    }
}

/// Every record a well-formed ledger holds is itself well-formed, and an
/// open record always has room for one more volunteer. This carries the
/// ledger's representation invariant to its mathematical value, where
/// the laws below speak.
pub proof fn lemma_ledger_records_wf(p: Pallet)
    requires
        p.wf(),
    ensures
        forall|l: Seq<u8>| #[trigger]
            p@.open_requests.contains_key(l) ==> p@.open_requests[l].wf(p.max_bsps())
                && p@.open_requests[l].bsps.len() < p.max_bsps(),
        forall|l: Seq<u8>| #[trigger]
            p@.fulfilled.contains_key(l) ==> p@.fulfilled[l].wf(p.max_bsps()),
{
    assert forall|l: Seq<u8>| #[trigger] p@.open_requests.contains_key(l) implies p@.open_requests[l].wf(
        p.max_bsps(),
    ) && p@.open_requests[l].bsps.len() < p.max_bsps() by {
        let s = p.storage_requests@;
        let i = choose|i: int| 0 <= i < s.len() && s[i].0@ == l;
        lemma_entries_at(s, i);
    }
    assert forall|l: Seq<u8>| #[trigger] p@.fulfilled.contains_key(l) implies p@.fulfilled[l].wf(
        p.max_bsps(),
    ) by {
        let s = p.files_mapping@;
        let i = choose|i: int| 0 <= i < s.len() && s[i].0@ == l;
        lemma_entries_at(s, i);
    }
}

/// A location never requested before gains exactly one open entry: after
/// a successful request the location is bound to a fresh record, every
/// other binding of either index is untouched, and the guard of a second
/// request for the same location now fails, so that call is rejected with
/// the original entry's fields unchanged.
pub proof fn lemma_request_storage_once(
    lv: LedgerView,
    location: Seq<u8>,
    fingerprint: Seq<u8>,
    size: u64,
    current_block: u64,
)
    requires
        !lv.open_requests.contains_key(location),
    ensures
        request_next(lv, location, fingerprint, size, current_block).open_requests.contains_key(
            location,
        ),
        request_next(lv, location, fingerprint, size, current_block).open_requests[location]
            == fresh_metadata(fingerprint, size, current_block),
        forall|l: Seq<u8>|
            l != location ==> request_next(
                lv,
                location,
                fingerprint,
                size,
                current_block,
            ).open_requests.contains_key(l) == lv.open_requests.contains_key(l),
        forall|l: Seq<u8>|
            l != location && lv.open_requests.contains_key(l) ==> request_next(
                lv,
                location,
                fingerprint,
                size,
                current_block,
            ).open_requests[l] == lv.open_requests[l],
        request_next(lv, location, fingerprint, size, current_block).fulfilled == lv.fulfilled,
{
}

/// A caller outside the provider registry is rejected as `NotBsp`,
/// whatever the ledger holds; by the volunteer contract the ledger is
/// then unchanged.
pub proof fn lemma_volunteer_not_a_provider(
    lv: LedgerView,
    registered: Seq<AccountId>,
    who: AccountId,
    location: Seq<u8>,
    fingerprint: Seq<u8>,
    current_block: u64,
    base: u32,
)
    requires
        !registered.contains(who),
    ensures
        volunteer_error(lv, registered, who, location, fingerprint, current_block, base) == Some(
            Error::NotBsp,
        ),
{
}

/// Volunteering twice for the same location fails the second time: after
/// a successful admission the same caller is rejected as
/// `BspAlreadyRegistered` while the request is still open (and as
/// `StorageRequestNotRegistered` once it left the open index), and the
/// volunteer list holds the caller exactly once.
pub proof fn lemma_volunteer_twice(
    lv: LedgerView,
    registered: Seq<AccountId>,
    who: AccountId,
    location: Seq<u8>,
    fingerprint: Seq<u8>,
    current_block: u64,
    base: u32,
    fingerprint2: Seq<u8>,
    block2: u64,
    max_bsps: u32,
)
    requires
        volunteer_error(lv, registered, who, location, fingerprint, current_block, base)
            == None::<Error>,
        forall|i: int, j: int|
            0 <= i < j < lv.open_requests[location].bsps.len()
                ==> lv.open_requests[location].bsps[i] != lv.open_requests[location].bsps[j],
    ensures
        ({
            let lv1 = volunteer_next(lv, who, location, max_bsps);
            &&& occurs_once(volunteered_metadata(lv.open_requests[location], who).bsps, who)
            &&& lv1.open_requests.contains_key(location) ==> volunteer_error(
                lv1,
                registered,
                who,
                location,
                fingerprint2,
                block2,
                base,
            ) == Some(Error::BspAlreadyRegistered)
            &&& !lv1.open_requests.contains_key(location) ==> volunteer_error(
                lv1,
                registered,
                who,
                location,
                fingerprint2,
                block2,
                base,
            ) == Some(Error::StorageRequestNotRegistered)
        }),
{
    let s = lv.open_requests[location].bsps;
    let s1 = volunteered_metadata(lv.open_requests[location], who).bsps;
    assert(s1 == s.push(who));
    assert(s1[s.len() as int] == who);
    assert(occurs_once(s1, who)) by {
        assert(forall|j: int| 0 <= j < s.len() ==> s1[j] == s[j]);
        assert(forall|j: int| 0 <= j < s.len() ==> s[j] != who);
    }
    let lv1 = volunteer_next(lv, who, location, max_bsps);
    if lv1.open_requests.contains_key(location) {
        assert(lv1.open_requests[location].bsps == s1);
        assert(s1.contains(who));
    }
}

/// When the volunteer bound is reached the request leaves the open index
/// but stays retrievable from the fulfilled index, whose record is not
/// changed if it already existed.
pub proof fn lemma_fulfilled_retained(
    lv: LedgerView,
    registered: Seq<AccountId>,
    who: AccountId,
    location: Seq<u8>,
    fingerprint: Seq<u8>,
    current_block: u64,
    base: u32,
    max_bsps: u32,
)
    requires
        volunteer_error(lv, registered, who, location, fingerprint, current_block, base)
            == None::<Error>,
        lv.open_requests[location].bsps.len() + 1 == max_bsps,
    ensures
        ({
            let lv1 = volunteer_next(lv, who, location, max_bsps);
            &&& !lv1.open_requests.contains_key(location)
            &&& lv1.fulfilled.contains_key(location)
            &&& lv.fulfilled.contains_key(location) ==> lv1.fulfilled[location]
                == lv.fulfilled[location]
            &&& !lv.fulfilled.contains_key(location) ==> lv1.fulfilled[location]
                == volunteered_metadata(lv.open_requests[location], who)
        }),
{
}

/// Monotonic admission at the ledger: a volunteer rejected for its score
/// at one block is admitted at some later block, as long as the request
/// is still open then and its creation height leaves room for that later
/// block below the block horizon.
pub proof fn lemma_volunteer_eventually_admitted(
    lv: LedgerView,
    registered: Seq<AccountId>,
    who: AccountId,
    location: Seq<u8>,
    fingerprint: Seq<u8>,
    current_block: u64,
    base: u32,
)
    requires
        volunteer_error(lv, registered, who, location, fingerprint, current_block, base) == Some(
            Error::ThresholdTooLow,
        ),
        current_block < u64::MAX,
        lv.open_requests[location].requested_at <= u64::MAX - SATURATION_BLOCKS,
    ensures
        exists|b2: u64|
            current_block < b2 && volunteer_error(
                lv,
                registered,
                who,
                location,
                fingerprint,
                b2,
                base,
            ) == None::<Error>,
{
    let requested_at = lv.open_requests[location].requested_at;
    lemma_admission_monotonic(score_of(fingerprint, who), requested_at, current_block, base);
    let b2 = choose|b2: u64|
        current_block < b2 && score_of(fingerprint, who) <= min_threshold_at(
            requested_at,
            b2,
            base,
        );
    assert(volunteer_error(lv, registered, who, location, fingerprint, b2, base)
        == None::<Error>);
}

} // verus!

