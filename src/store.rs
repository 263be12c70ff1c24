//! The secret store: at most one provisioning secret per principal.

use vstd::prelude::*;
use crate::principal::{PrincipalView, SshPrincipal};
use crate::secret::{ProvisioningSecret, SecretView};

verus! {

/// A map from principals to their current provisioning secret, held as a list
/// of entries whose principals are pairwise distinct.
pub struct SecretStore {
    entries: Vec<(SshPrincipal, ProvisioningSecret)>,
    model: Ghost<Map<PrincipalView, SecretView>>,
}

impl View for SecretStore {
    type V = Map<PrincipalView, SecretView>;

    closed spec fn view(&self) -> Map<PrincipalView, SecretView> {
        self.model@
    }
}

impl SecretStore {
    /// The entries' principals are distinct and the entries are exactly the
    /// model's pairs.
    pub closed spec fn wf(&self) -> bool {
        &&& forall|i: int, j: int|
            0 <= i < j < self.entries.len() ==> self.entries@[i].0@ != self.entries@[j].0@
        &&& forall|i: int|
            0 <= i < self.entries.len() ==> #[trigger] self.model@.contains_key(
                self.entries@[i].0@,
            ) && self.model@[self.entries@[i].0@] == self.entries@[i].1@
        &&& forall|k: PrincipalView| #[trigger]
            self.model@.contains_key(k) ==> exists|i: int|
                0 <= i < self.entries.len() && self.entries@[i].0@ == k
    }

    /// An empty store.
    pub fn new() -> (r: SecretStore)
        ensures
            r.wf(),
            r@ == Map::<PrincipalView, SecretView>::empty(),
    {
        SecretStore { entries: Vec::new(), model: Ghost(Map::empty()) }
    }

    /// The position of the entry for `principal`, if there is one. Every
    /// entry is compared, whether or not the principal was found earlier.
    fn find(&self, principal: &SshPrincipal) -> (r: Option<usize>)
        requires
            self.wf(),
        ensures
            r matches Some(i) ==> i < self.entries.len() && self.entries@[i as int].0@
                == principal@,
            r is None ==> !self@.contains_key(principal@),
    {
        let mut found: Option<usize> = None;
        let mut i: usize = 0;
        while i < self.entries.len()
            invariant
                self.wf(),
                0 <= i <= self.entries.len(),
                found matches Some(k) ==> k < i && self.entries@[k as int].0@ == principal@,
                found is None ==> forall|j: int| 0 <= j < i ==> self.entries@[j].0@ != principal@,
            decreases self.entries.len() - i,
        {
            let same = self.entries[i].0 == *principal;
            if same {
                found = Some(i);
            }
            i = i + 1;
        }
        found
    }

    /// The secret stored for `principal`, if there is one.
    pub fn peek(&self, principal: &SshPrincipal) -> (r: Option<&ProvisioningSecret>)
        requires
            self.wf(),
        ensures
            r is Some <==> self@.contains_key(principal@),
            r matches Some(s) ==> s@ == self@[principal@],
    {
        match self.find(principal) {
            Some(i) => {
                assert(self.model@.contains_key(self.entries@[i as int].0@));
                Some(&self.entries[i].1)
            },
            None => None,
        }
    }

    /// Removes the entry at `i`, keeping the others.
    fn remove_at(&mut self, i: usize) -> (r: (SshPrincipal, ProvisioningSecret))
        requires
            old(self).wf(),
            i < old(self).entries.len(),
        ensures
            final(self).wf(),
            r.0@ == old(self).entries@[i as int].0@,
            r.1@ == old(self)@[r.0@],
            final(self)@ == old(self)@.remove(r.0@),
    {
        let ghost key = self.entries@[i as int].0@;
        let ghost before = self.entries@;
        assert(self.model@.contains_key(key));
        let entry = self.entries.swap_remove(i);
        self.model = Ghost(self.model@.remove(key));
        assert forall|k: PrincipalView| #[trigger] self.model@.contains_key(k) implies exists|
            j: int,
        | 0 <= j < self.entries.len() && self.entries@[j].0@ == k by {
            let j0 = choose|j: int| 0 <= j < before.len() && before[j].0@ == k;
            if j0 == before.len() - 1 {
                assert(self.entries@[i as int].0@ == k);
            } else {
                assert(self.entries@[j0].0@ == k);
            }
        }
        entry
    }

    /// Stores `secret` for `principal`; a secret held before for it is
    /// overwritten with zeros and dropped.
    pub fn put(&mut self, principal: SshPrincipal, secret: ProvisioningSecret)
        requires
            old(self).wf(),
        ensures
            final(self).wf(),
            final(self)@ == old(self)@.insert(principal@, secret@),
    {
        match self.find(&principal) {
            Some(i) => {
                let (_, mut previous) = self.remove_at(i);
                previous.clear();
            },
            None => {},
        }
        let ghost mid = self.entries@;
        let ghost key = principal@;
        let ghost value = secret@;
        assert(!self.model@.contains_key(key));
        assert forall|j: int| 0 <= j < mid.len() implies mid[j].0@ != key by {
            assert(self.model@.contains_key(mid[j].0@));
        }
        self.entries.push((principal, secret));
        self.model = Ghost(self.model@.insert(key, value));
        assert forall|k: PrincipalView| #[trigger] self.model@.contains_key(k) implies exists|
            j: int,
        | 0 <= j < self.entries.len() && self.entries@[j].0@ == k by {
            if k == key {
                assert(self.entries@[mid.len() as int].0@ == k);
            } else {
                let j0 = choose|j: int| 0 <= j < mid.len() && mid[j].0@ == k;
                assert(self.entries@[j0].0@ == k);
            }
        }
        assert(self.model@ =~= old(self)@.insert(key, value));
    }

    /// Removes and returns the secret stored for `principal`, if there is one.
    pub fn take(&mut self, principal: &SshPrincipal) -> (r: Option<ProvisioningSecret>)
        requires
            old(self).wf(),
        ensures
            final(self).wf(),
            r is Some <==> old(self)@.contains_key(principal@),
            r matches Some(s) ==> s@ == old(self)@[principal@],
            final(self)@ == old(self)@.remove(principal@),
    {
        match self.find(principal) {
            Some(i) => {
                let (_, secret) = self.remove_at(i);
                Some(secret)
            },
            None => {
                assert(self@ =~= old(self)@.remove(principal@));
                None
            },
        }
    }
}

} // verus!
