use vstd::prelude::*;

verus! {

/// The identity of a caller, as the host reports it: 32 opaque bytes.
#[derive(Clone, Copy, PartialEq, Eq, Debug)]
pub struct AccountId {
    pub bytes: [u8; 32],
}

/// A content hash (a file fingerprint): 32 opaque bytes.
#[derive(Clone, Copy, PartialEq, Eq, Debug)]
pub struct FileHash {
    pub bytes: [u8; 32],
}

/// The abstract state of a registry: who created it, and the hashes
/// recorded so far, oldest first.
pub ghost struct RegistryView {
    pub owner: AccountId,
    pub entries: Seq<FileHash>,
}

impl RegistryView {
    /// The state after one append of `h`.
    pub open spec fn appended(self, h: FileHash) -> RegistryView {
        RegistryView { owner: self.owner, entries: self.entries.push(h) }
    }

    /// The state after appending each hash of `hs`, one call at a time,
    /// in the order of `hs`.
    pub open spec fn appended_all(self, hs: Seq<FileHash>) -> RegistryView
        decreases hs.len(),
    {
        if hs.len() == 0 {
            self
        } else {
            self.appended_all(hs.drop_last()).appended(hs.last())
        }
    }
}

/// Appending the hashes of `hs` one call at a time leaves the earlier
/// entries in place and adds `hs` after them, in exactly its order.
pub proof fn lemma_appends_kept_in_order(v: RegistryView, hs: Seq<FileHash>)
    ensures
        v.appended_all(hs).entries == v.entries + hs,
    decreases hs.len(),
{
    if hs.len() > 0 {
        lemma_appends_kept_in_order(v, hs.drop_last());
        assert(v.entries + hs =~= (v.entries + hs.drop_last()).push(hs.last()));
    } else {
        assert(v.entries + hs =~= v.entries);
    }
}

/// On a freshly created registry, appending `h1, ..., hn` and then listing
/// gives exactly `[h1, ..., hn]`.
pub proof fn lemma_fresh_registry_lists_appends(owner: AccountId, hs: Seq<FileHash>)
    ensures
        (RegistryView { owner, entries: Seq::empty() }).appended_all(hs).entries == hs,
{
    let v = RegistryView { owner, entries: Seq::empty() };
    lemma_appends_kept_in_order(v, hs);
    assert(v.entries + hs =~= hs);
}

/// The owner recorded at creation is unchanged by any number of appends.
pub proof fn lemma_owner_survives_appends(v: RegistryView, hs: Seq<FileHash>)
    ensures
        v.appended_all(hs).owner == v.owner,
    decreases hs.len(),
{
    if hs.len() > 0 {
        lemma_owner_survives_appends(v, hs.drop_last());
    }
}

/// A registry: an owner identity, fixed at creation, and an ordered list of
/// hashes that only grows.
pub struct GroupContract {
    owner: AccountId,
    files: Vec<FileHash>,
}

impl View for GroupContract {
    type V = RegistryView;

    closed spec fn view(&self) -> RegistryView {
        RegistryView { owner: self.owner, entries: self.files@ }
    }
}

impl GroupContract {
    /// Creates a registry owned by `caller`, the identity that invoked the
    /// constructor, with no entries.
    pub fn new(caller: AccountId) -> (r: Self)
        ensures
            r@.owner == caller,
            r@.entries == Seq::<FileHash>::empty(),
    {
        GroupContract { owner: caller, files: Vec::new() }
    }

    /// Records `file_hash` after the existing entries. Any caller may
    /// append: the owner is recorded, not enforced.
    pub fn add_file(&mut self, file_hash: FileHash)
        ensures
            final(self)@ == old(self)@.appended(file_hash),
    {
        self.files.push(file_hash);
    }

    /// Returns a copy of every recorded hash, in the order appended. The
    /// copy is the caller's own: changing it leaves the registry as it was.
    pub fn get_files(&self) -> (r: Vec<FileHash>)
        ensures
            r@ == self@.entries,
    {
        let r = self.files.clone();
        assert(r@ =~= self.files@);
        r
    }

    /// The identity that created the registry.
    pub fn owner(&self) -> (r: AccountId)
        ensures
            r == self@.owner,
    {
        self.owner
    }

    /// Rebuilds a registry from the owner and entries that a host kept
    /// between calls.
    pub fn from_parts(owner: AccountId, files: Vec<FileHash>) -> (r: Self)
        ensures
            r@ == (RegistryView { owner, entries: files@ }),
    {
        GroupContract { owner, files }
    }

    /// Hands back the owner and the entries, oldest first, for a host to
    /// keep until the next call.
    pub fn into_parts(self) -> (r: (AccountId, Vec<FileHash>))
        ensures
            r.0 == self@.owner,
            r.1@ == self@.entries,
    {
        (self.owner, self.files)
    }
}

} // verus!
