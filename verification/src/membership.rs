//! The organization membership set and its paginated synchronization.
//! The store is built once, before any request is decided, by feeding it
//! the member-listing pages until an empty page signals the end.

use vstd::prelude::*;
use vstd::seq_lib::*;

use crate::github_api::GhOrgMember;

verus! {

/// The set of usernames known to belong to the organization.
pub struct MembershipStore {
    members: Vec<String>,
}

impl View for MembershipStore {
    type V = Set<Seq<char>>;

    closed spec fn view(&self) -> Set<Seq<char>> {
        self.members.deep_view().to_set()
    }
}

proof fn lemma_take_to_set_step(s: Seq<Seq<char>>, i: int)
    requires
        0 <= i < s.len(),
    ensures
        s.take(i + 1).to_set() =~= s.take(i).to_set().insert(s[i]),
{
    assert forall|x: Seq<char>| s.take(i + 1).to_set().contains(x) implies s.take(
        i,
    ).to_set().contains(x) || x == s[i] by {
        let k = choose|k: int| 0 <= k < s.take(i + 1).len() && #[trigger] s.take(i + 1)[k] == x;
        if k < i {
            assert(s.take(i)[k] == x);
        }
    }
    assert forall|x: Seq<char>| s.take(i).to_set().contains(x) implies s.take(
        i + 1,
    ).to_set().contains(x) by {
        let k = choose|k: int| 0 <= k < s.take(i).len() && #[trigger] s.take(i)[k] == x;
        assert(s.take(i + 1)[k] == x);
    }
    assert(s.take(i + 1)[i] == s[i]);
}

impl MembershipStore {
    /// The store holds no username twice, so its length is the set's size.
    pub closed spec fn wf(&self) -> bool {
        self.members.deep_view().no_duplicates()
    }

    /// An empty store: nobody is a member yet.
    pub fn new() -> (r: Self)
        ensures
            r.wf(),
            r@ =~= Set::<Seq<char>>::empty(),
    {
        let r = MembershipStore { members: Vec::new() };
        proof {
            assert forall|x: Seq<char>| !r@.contains(x) by {
                if r@.contains(x) {
                    let k = choose|k: int|
                        0 <= k < r.members.deep_view().len() && #[trigger] r.members.deep_view()[k] == x;
                }
            }
        }
        r
    }

    /// Whether the username belongs to the organization.
    pub fn is_member(&self, username: &String) -> (r: bool)
        ensures
            r == self@.contains(username@),
    {
        let n = self.members.len();
        let mut i: usize = 0;
        while i < n
            invariant
                n == self.members.len(),
                i <= n,
                forall|k: int| 0 <= k < i ==> self.members.deep_view()[k] != username@,
            decreases n - i,
        {
            if self.members[i].eq(username) {
                assert(self.members.deep_view()[i as int] == username@);
                return true;
            }
            i = i + 1;
        }
        false
    }

    /// Adds a username; the set grows by exactly that name.
    pub fn insert(&mut self, login: String)
        requires
            old(self).wf(),
        ensures
            final(self).wf(),
            final(self)@ =~= old(self)@.insert(login@),
    {
        if !self.is_member(&login) {
            let ghost before = self.members.deep_view();
            self.members.push(login);
            proof {
                assert(self.members.deep_view() =~= before.push(self.members.deep_view().last()));
                lemma_take_to_set_step(self.members.deep_view(), before.len() as int);
                assert(self.members.deep_view().take(before.len() as int) =~= before);
                assert(self.members.deep_view().take(before.len() as int + 1)
                    =~= self.members.deep_view());
            }
        } else {
            assert(self@.insert(login@) =~= self@);
        }
    }

    /// How many members the organization has.
    pub fn len(&self) -> (r: usize)
        requires
            self.wf(),
        ensures
            r == self@.len(),
    {
        proof {
            self.members.deep_view().unique_seq_to_set();
        }
        self.members.len()
    }

    /// Replaces the whole set with the given usernames, as a future full
    /// re-sync would.
    pub fn replace_all(&mut self, logins: &Vec<String>)
        ensures
            final(self).wf(),
            final(self)@ =~= logins.deep_view().to_set(),
    {
        let mut fresh = MembershipStore::new();
        let n = logins.len();
        let mut i: usize = 0;
        while i < n
            invariant
                n == logins.len(),
                i <= n,
                fresh.wf(),
                fresh@ =~= logins.deep_view().take(i as int).to_set(),
            decreases n - i,
        {
            fresh.insert(logins[i].clone());
            proof {
                lemma_take_to_set_step(logins.deep_view(), i as int);
            }
            i = i + 1;
        }
        assert(logins.deep_view().take(n as int) =~= logins.deep_view());
        *self = fresh;
    }
}

/// The usernames carried by a listing page.
pub open spec fn logins_of(entries: Seq<GhOrgMember>) -> Set<Seq<char>> {
    entries.map_values(|m: GhOrgMember| m.login@).to_set()
}

/// The startup synchronization: a page counter and the set gathered so
/// far. Pages are requested in order until one comes back empty.
pub struct MembershipSync {
    pub store: MembershipStore,
    pub page: u32,
}

impl MembershipSync {
    /// A sync about to request page zero into an empty set.
    pub fn new() -> (r: Self)
        ensures
            r.store.wf(),
            r.store@ =~= Set::<Seq<char>>::empty(),
            r.page == 0,
    {
        MembershipSync { store: MembershipStore::new(), page: 0 }
    }

    /// Folds one fetched page into the set. Returns whether the sync is
    /// finished, which an empty page and nothing else signals; on a
    /// non-empty page the counter moves to the next page.
    pub fn apply_page(&mut self, entries: &Vec<GhOrgMember>) -> (done: bool)
        requires
            old(self).store.wf(),
            old(self).page < u32::MAX,
        ensures
            final(self).store.wf(),
            final(self).store@ =~= old(self).store@.union(logins_of(entries@)),
            done == (entries@.len() == 0),
            done ==> final(self).page == old(self).page,
            !done ==> final(self).page == old(self).page + 1,
    {
        let n = entries.len();
        let mut i: usize = 0;
        assert(self.store@ =~= self.store@.union(logins_of(entries@.take(0))));
        while i < n
            invariant
                n == entries.len(),
                i <= n,
                self.store.wf(),
                self.page == old(self).page,
                self.store@ =~= old(self).store@.union(logins_of(entries@.take(i as int))),
            decreases n - i,
        {
            self.store.insert(entries[i].login.clone());
            proof {
                let s = entries@;
                let mapped = s.map_values(|m: GhOrgMember| m.login@);
                assert(s.take(i as int).map_values(|m: GhOrgMember| m.login@) =~= mapped.take(
                    i as int,
                ));
                assert(s.take(i as int + 1).map_values(|m: GhOrgMember| m.login@) =~= mapped.take(
                    i as int + 1,
                ));
                lemma_take_to_set_step(mapped, i as int);
                assert(logins_of(s.take(i as int + 1)) =~= logins_of(s.take(i as int)).insert(
                    s[i as int].login@,
                ));
                assert(self.store@ =~= old(self).store@.union(
                    logins_of(s.take(i as int + 1)),
                ));
            }
            i = i + 1;
        }
        assert(entries@.take(n as int) =~= entries@);
        if n == 0 {
            true
        } else {
            self.page = self.page + 1;
            false
        }
    }
}

} // verus!
