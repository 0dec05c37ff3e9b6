//! The protected-name registry and the delete decision taken against it.
//!
//! The registry is a bounded, insertion-ordered collection of name
//! fragments.  Insertion is always at the tail; once the fixed capacity is
//! reached, each further insertion evicts the oldest surviving entry first.
//! A delete request from a process whose image path contains any registered
//! fragment is denied; everything else is allowed.

use vstd::prelude::*;

use crate::text_match::contains_bytes;
use crate::text_match::contains_seq;

verus! {

/// Fixed capacity of the registry: the number of protected names it can
/// hold at once.
pub const MAX_ITEM_COUNT: usize = 32;

/// A path is blocked by a list of entries when it contains at least one of
/// them as a substring.
pub open spec fn matches_any(path: Seq<u8>, entries: Seq<Seq<u8>>) -> bool {
    exists|i: int| 0 <= i < entries.len() && contains_seq(path, entries[i])
}

/// What one insertion does to the registry contents: append at the tail,
/// dropping the head first when the list is already full.
pub open spec fn push_model(entries: Seq<Seq<u8>>, name: Seq<u8>) -> Seq<Seq<u8>> {
    if entries.len() < MAX_ITEM_COUNT {
        entries.push(name)
    } else {
        entries.subrange(1, entries.len() as int).push(name)
    }
}

/// The bounded FIFO list of protected name fragments.  Duplicates are
/// permitted and evicted independently.
pub struct ProtectedNameRegistry {
    entries: Vec<Vec<u8>>,
}

impl ProtectedNameRegistry {
    /// The registry's contents as a sequence of byte strings, oldest first.
    pub closed spec fn view(&self) -> Seq<Seq<u8>> {
        self.entries@.map(|i: int, e: Vec<u8>| e@)
    }

    /// Capacity bound: the one invariant every operation preserves.
    pub open spec fn wf(&self) -> bool {
        self@.len() <= MAX_ITEM_COUNT
    }

    /// An empty registry.
    pub fn new() -> (r: ProtectedNameRegistry)
        ensures
            r.wf(),
            r@ =~= Seq::<Seq<u8>>::empty(),
    {
        ProtectedNameRegistry { entries: Vec::new() }
    }

    /// Number of entries currently held.
    pub fn len(&self) -> (n: usize)
        ensures
            n == self@.len(),
    {
        self.entries.len()
    }

    /// The entry at position `i`, oldest first.
    pub fn entry_at(&self, i: usize) -> (e: &Vec<u8>)
        requires
            i < self@.len(),
        ensures
            e@ == self@[i as int],
    {
        &self.entries[i]
    }

    /// Insert a name at the tail, evicting the oldest entry first when the
    /// registry is at capacity.
    pub fn push_item(&mut self, name: Vec<u8>)
        requires
            old(self).wf(),
        ensures
            final(self).wf(),
            final(self)@ =~= push_model(old(self)@, name@),
    {
        if self.entries.len() >= MAX_ITEM_COUNT {
            self.entries.remove(0);
        }
        self.entries.push(name);
    }

    /// Remove every entry; capacity is unchanged.
    pub fn clear(&mut self)
        ensures
            final(self).wf(),
            final(self)@ =~= Seq::<Seq<u8>>::empty(),
    {
        self.entries.clear();
    }

    /// The delete decision: `true` means the delete may proceed.  A delete
    /// is denied exactly when the requesting process's image path is
    /// non-empty and contains some registered fragment; an empty path
    /// matches nothing and is allowed.
    pub fn is_delete_allowed(&self, image_path: &Vec<u8>) -> (allowed: bool)
        ensures
            allowed == !(image_path@.len() > 0 && matches_any(image_path@, self@)),
            self@.len() == 0 ==> allowed,
    {
        if image_path.len() == 0 {
            return true;
        }
        let n = self.entries.len();
        let mut i: usize = 0;
        while i < n
            invariant
                image_path@.len() > 0,
                n == self@.len(),
                0 <= i <= n,
                forall|k: int| 0 <= k < i ==> !contains_seq(image_path@, self@[k]),
            decreases n - i,
        {
            if contains_bytes(image_path, &self.entries[i]) {
                assert(contains_seq(image_path@, self@[i as int]));
                assert(matches_any(image_path@, self@));
                return false;
            }
            i = i + 1;
        }
        true
    }
}

/// However many insertions are performed, the registry never exceeds its
/// capacity: every insertion preserves the bound.  Below capacity an
/// insertion only appends; once at capacity it evicts exactly the oldest
/// surviving entry and appends the new one at the tail.
pub proof fn lemma_push_preserves_capacity(entries: Seq<Seq<u8>>, name: Seq<u8>)
    requires
        entries.len() <= MAX_ITEM_COUNT,
    ensures
        push_model(entries, name).len() <= MAX_ITEM_COUNT,
        entries.len() < MAX_ITEM_COUNT ==> push_model(entries, name) == entries.push(name),
        entries.len() == MAX_ITEM_COUNT ==> push_model(entries, name) == entries.subrange(
            1,
            entries.len() as int,
        ).push(name),
{
}

/// Once the registry has been cleared, every decision query is answered
/// "allow", whatever the path — in particular a path that matched before
/// the clear.
pub proof fn lemma_clear_then_allow(path: Seq<u8>, before: Seq<Seq<u8>>)
    requires
        matches_any(path, before),
    ensures
        !matches_any(path, Seq::<Seq<u8>>::empty()),
{
}

} // verus!
