//! The per-user validation cache: the last secret GitHub confirmed for
//! each username. An entry is only ever written after a successful
//! verification, and a new verification overwrites the old entry.

use vstd::prelude::*;

verus! {

/// The mapping the entries list denotes, later entries winning.
pub open spec fn map_of(s: Seq<(String, String)>) -> Map<Seq<char>, Seq<char>>
    decreases s.len(),
{
    if s.len() == 0 {
        Map::empty()
    } else {
        map_of(s.drop_last()).insert(s.last().0@, s.last().1@)
    }
}

/// No username appears under two entries.
pub open spec fn keys_unique(s: Seq<(String, String)>) -> bool {
    forall|i: int, j: int| 0 <= i < j < s.len() ==> s[i].0@ != s[j].0@
}

proof fn lemma_map_of_contains(s: Seq<(String, String)>, k: Seq<char>)
    ensures
        map_of(s).dom().contains(k) <==> exists|i: int| 0 <= i < s.len() && #[trigger] s[i].0@ == k,
    decreases s.len(),
{
    if s.len() == 0 {
    } else {
        lemma_map_of_contains(s.drop_last(), k);
        let last = s.len() - 1;
        if s[last].0@ == k {
            assert(map_of(s).dom().contains(k));
        } else {
            if exists|i: int| 0 <= i < s.len() && #[trigger] s[i].0@ == k {
                let i = choose|i: int| 0 <= i < s.len() && #[trigger] s[i].0@ == k;
                assert(i < last);
                assert(s.drop_last()[i].0@ == k);
            }
            if map_of(s).dom().contains(k) {
                let i = choose|i: int|
                    0 <= i < s.drop_last().len() && #[trigger] s.drop_last()[i].0@ == k;
                assert(s[i].0@ == k);
            }
        }
    }
}

proof fn lemma_map_of_at(s: Seq<(String, String)>, i: int)
    requires
        keys_unique(s),
        0 <= i < s.len(),
    ensures
        map_of(s).dom().contains(s[i].0@),
        map_of(s)[s[i].0@] == s[i].1@,
    decreases s.len(),
{
    let last = s.len() - 1;
    if i == last {
    } else {
        assert(keys_unique(s.drop_last())) by {
            assert(forall|a: int, b: int|
                0 <= a < b < s.drop_last().len() ==> s.drop_last()[a].0@ == s[a].0@
                    && s.drop_last()[b].0@ == s[b].0@);
        }
        lemma_map_of_at(s.drop_last(), i);
        assert(s.drop_last()[i] == s[i]);
        assert(s[last].0@ != s[i].0@);
    }
}

proof fn lemma_map_of_update(s: Seq<(String, String)>, i: int, p: (String, String))
    requires
        keys_unique(s),
        0 <= i < s.len(),
        p.0@ == s[i].0@,
    ensures
        map_of(s.update(i, p)) == map_of(s).insert(p.0@, p.1@),
    decreases s.len(),
{
    let t = s.update(i, p);
    let last = s.len() - 1;
    if i == last {
        assert(t.drop_last() =~= s.drop_last());
        assert(t.last() == p);
        assert(map_of(t) =~= map_of(s).insert(p.0@, p.1@));
    } else {
        assert(keys_unique(s.drop_last())) by {
            assert(forall|a: int, b: int|
                0 <= a < b < s.drop_last().len() ==> s.drop_last()[a].0@ == s[a].0@
                    && s.drop_last()[b].0@ == s[b].0@);
        }
        assert(s.drop_last()[i] == s[i]);
        lemma_map_of_update(s.drop_last(), i, p);
        assert(t.drop_last() =~= s.drop_last().update(i, p));
        assert(t.last() == s.last());
        assert(s.last().0@ != p.0@);
        assert(map_of(t) =~= map_of(s).insert(p.0@, p.1@));
    }
}

/// The cache itself: a list of (username, secret) entries, one per
/// username.
pub struct ValidationCache {
    entries: Vec<(String, String)>,
}

impl View for ValidationCache {
    type V = Map<Seq<char>, Seq<char>>;

    closed spec fn view(&self) -> Map<Seq<char>, Seq<char>> {
        map_of(self.entries@)
    }
}

impl ValidationCache {
    /// Every username has at most one entry.
    pub closed spec fn wf(&self) -> bool {
        keys_unique(self.entries@)
    }

    /// An empty cache: no username is verified yet.
    pub fn new() -> (r: Self)
        ensures
            r.wf(),
            r@ == Map::<Seq<char>, Seq<char>>::empty(),
    {
        ValidationCache { entries: Vec::new() }
    }

    /// The secret last verified for the username, if any.
    pub fn get(&self, username: &String) -> (r: Option<String>)
        requires
            self.wf(),
        ensures
            match r {
                Some(s) => self@.dom().contains(username@) && s@ == self@[username@],
                None => !self@.dom().contains(username@),
            },
    {
        let n = self.entries.len();
        let mut i: usize = 0;
        while i < n
            invariant
                self.wf(),
                n == self.entries@.len(),
                i <= n,
                forall|k: int| 0 <= k < i ==> self.entries@[k].0@ != username@,
            decreases n - i,
        {
            if self.entries[i].0.eq(username) {
                proof {
                    lemma_map_of_at(self.entries@, i as int);
                }
                return Some(self.entries[i].1.clone());
            }
            i = i + 1;
        }
        proof {
            lemma_map_of_contains(self.entries@, username@);
        }
        None
    }

    /// Records the secret as verified for the username, overwriting any
    /// earlier entry.
    pub fn put(&mut self, username: String, secret: String)
        requires
            old(self).wf(),
        ensures
            final(self).wf(),
            final(self)@ == old(self)@.insert(username@, secret@),
    {
        let n = self.entries.len();
        let mut i: usize = 0;
        while i < n
            invariant
                self.wf(),
                self.entries@ == old(self).entries@,
                n == self.entries@.len(),
                i <= n,
                forall|k: int| 0 <= k < i ==> self.entries@[k].0@ != username@,
            decreases n - i,
        {
            if self.entries[i].0.eq(&username) {
                proof {
                    lemma_map_of_update(self.entries@, i as int, (username, secret));
                }
                self.entries[i] = (username, secret);
                return ;
            }
            i = i + 1;
        }
        proof {
            lemma_map_of_contains(self.entries@, username@);
        }
        self.entries.push((username, secret));
        assert(self.entries@.drop_last() =~= old(self).entries@);
    }
}

} // verus!
