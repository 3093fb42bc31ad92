//! Data model of the storage-request ledger.
//!
//! A storage request is keyed by its `location`, a bounded byte path, and
//! carries a fixed-width content fingerprint, the file's size, the block
//! height at which it was made, the ordered set of providers that
//! volunteered for it, and a visibility flag.

use vstd::prelude::*;

verus! {

/// A byte path identifying a file on the network.
pub type FileLocation = Vec<u8>;

/// A provider or user account identity.
pub type AccountId = u64;

/// The record kept for a storage request.
pub struct FileMetadata {
    /// Block height at which the request was made.
    pub requested_at: u64,
    /// 32-byte content hash of the file.
    pub fingerprint: Vec<u8>,
    /// Size of the file.
    pub size: u64,
    /// Providers that volunteered, in admission order, each at most once.
    pub bsps: Vec<AccountId>,
    /// Whether the file is publicly readable.
    pub is_public: bool,
}

/// The mathematical value of a [`FileMetadata`] record.
pub ghost struct FileMetadataView {
    pub requested_at: u64,
    pub fingerprint: Seq<u8>,
    pub size: u64,
    pub bsps: Seq<AccountId>,
    pub is_public: bool,
}

impl View for FileMetadata {
    type V = FileMetadataView;

    open spec fn view(&self) -> FileMetadataView {
        FileMetadataView {
            requested_at: self.requested_at,
            fingerprint: self.fingerprint@,
            size: self.size,
            bsps: self.bsps@,
            is_public: self.is_public,
        }
    }
}

impl FileMetadataView {
    /// A well-formed record: fixed-width fingerprint, no provider listed
    /// twice, and no more providers than the system's bound.
    pub open spec fn wf(self, max_bsps: u32) -> bool {
        &&& self.fingerprint.len() == 32
        &&& self.bsps.len() <= max_bsps
        &&& forall|i: int, j: int|
            0 <= i < j < self.bsps.len() ==> self.bsps[i] != self.bsps[j]
    }
}

/// Whether `x` occurs in `s` at exactly one position.
pub open spec fn occurs_once(s: Seq<AccountId>, x: AccountId) -> bool {
    exists|i: int|
        0 <= i < s.len() && s[i] == x && (forall|j: int|
            0 <= j < s.len() && s[j] == x ==> j == i)
}

/// Byte-for-byte equality of two byte vectors.
pub fn bytes_eq(a: &Vec<u8>, b: &Vec<u8>) -> (r: bool)
    ensures
        r == (a@ == b@),
{
    if a.len() != b.len() {
        return false;
    }
    let mut i: usize = 0;
    while i < a.len()
        invariant
            a@.len() == b@.len(),
            i <= a@.len(),
            forall|j: int| 0 <= j < i ==> a@[j] == b@[j],
        decreases a@.len() - i,
    {
        if a[i] != b[i] {
            return false;
        }
        i += 1;
    }
    proof {
        assert(a@ =~= b@);
    }
    true
}

/// A copy of a byte vector.
pub fn clone_bytes(v: &Vec<u8>) -> (r: Vec<u8>)
    ensures
        r@ == v@,
{
    let mut out: Vec<u8> = Vec::with_capacity(v.len());
    let mut i: usize = 0;
    while i < v.len()
        invariant
            i <= v@.len(),
            out@ =~= v@.take(i as int),
        decreases v@.len() - i,
    {
        out.push(v[i]);
        i += 1;
    }
    proof {
        assert(out@ =~= v@);
    }
    out
}

/// A copy of a storage-request record.
pub fn clone_meta(m: &FileMetadata) -> (r: FileMetadata)
    ensures
        r@ == m@,
{
    FileMetadata {
        requested_at: m.requested_at,
        fingerprint: clone_bytes(&m.fingerprint),
        size: m.size,
        bsps: clone_accounts(&m.bsps),
        is_public: m.is_public,
    }
}

/// A copy of a vector of account ids.
pub fn clone_accounts(v: &Vec<AccountId>) -> (r: Vec<AccountId>)
    ensures
        r@ == v@,
{
    let mut out: Vec<AccountId> = Vec::with_capacity(v.len());
    let mut i: usize = 0;
    while i < v.len()
        invariant
            i <= v@.len(),
            out@ =~= v@.take(i as int),
        decreases v@.len() - i,
    {
        out.push(v[i]);
        i += 1;
    }
    proof {
        assert(out@ =~= v@);
    }
    out
}

/// Whether an account occurs in a vector of account ids.
pub fn accounts_contain(v: &Vec<AccountId>, who: AccountId) -> (r: bool)
    ensures
        r == v@.contains(who),
{
    let mut i: usize = 0;
    while i < v.len()
        invariant
            i <= v@.len(),
            forall|j: int| 0 <= j < i ==> v@[j] != who,
        decreases v@.len() - i,
    {
        if v[i] == who {
            return true;
        }
        i += 1;
    }
    false
}

} // verus!
