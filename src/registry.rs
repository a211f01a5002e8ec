use vstd::prelude::*;
use crate::address::Address;
use crate::records::{CollectionAccount, CollectionView, NftAccount, NftView, UserAccount};

verus! {

/// The records that the program owns, each under its derived address.
pub struct Registry {
    program_id: Address,
    /// The metadata registry that publishes the metadata and editions this program relies on.
    metadata_program: Address,
    users: Vec<(Address, UserAccount)>,
    collections: Vec<(Address, CollectionAccount)>,
    members: Vec<(Address, NftAccount)>,
    /// Mints whose master edition was published by a completed collection mint.
    editions: Ghost<Set<Seq<u8>>>,
}

/// What a registry holds.
pub struct RegistryView {
    pub program_id: Seq<u8>,
    pub metadata_program: Seq<u8>,
    pub users: Map<Seq<u8>, UserAccount>,
    pub collections: Map<Seq<u8>, CollectionView>,
    pub members: Map<Seq<u8>, NftView>,
    pub editions: Set<Seq<u8>>,
}

impl RegistryView {
    /// Every collection record's mint had its master edition published.
    pub open spec fn editions_published(self) -> bool {
        forall|k: Seq<u8>| #[trigger]
            self.collections.contains_key(k) ==> self.editions.contains(self.collections[k].token_mint)
    }
}

pub open spec fn keys_unique<T>(entries: Seq<(Address, T)>) -> bool {
    forall|i: int, j: int|
        0 <= i < entries.len() && 0 <= j < entries.len() && i != j ==> #[trigger] entries[i].0@
            != #[trigger] entries[j].0@
}

pub open spec fn entries_map<T, V>(entries: Seq<(Address, T)>, f: spec_fn(T) -> V) -> Map<Seq<u8>, V>
    decreases entries.len(),
{
    if entries.len() == 0 {
        Map::empty()
    } else {
        let last = entries.last();
        entries_map(entries.drop_last(), f).insert(last.0@, f(last.1))
    }
}

proof fn lemma_entries_map<T, V>(entries: Seq<(Address, T)>, f: spec_fn(T) -> V)
    requires
        keys_unique(entries),
    ensures
        forall|k: Seq<u8>| #[trigger]
            entries_map(entries, f).contains_key(k) <==> exists|i: int|
                0 <= i < entries.len() && entries[i].0@ == k,
        forall|i: int|
            0 <= i < entries.len() ==> #[trigger] entries_map(entries, f)[entries[i].0@] == f(
                entries[i].1,
            ),
    decreases entries.len(),
{
    if entries.len() > 0 {
        let init = entries.drop_last();
        assert(keys_unique(init)) by {
            assert forall|i: int, j: int|
                0 <= i < init.len() && 0 <= j < init.len() && i != j implies #[trigger] init[i].0@
                != #[trigger] init[j].0@ by {
                assert(init[i] == entries[i] && init[j] == entries[j]);
            }
        }
        lemma_entries_map(init, f);
        let n = entries.len() - 1;
        assert forall|k: Seq<u8>| #[trigger]
            entries_map(entries, f).contains_key(k) <==> exists|i: int|
                0 <= i < entries.len() && entries[i].0@ == k by {
            assert(entries_map(entries, f) == entries_map(init, f).insert(entries[n].0@, f(entries[n].1)));
            if entries_map(entries, f).contains_key(k) && k != entries[n].0@ {
                assert(entries_map(init, f).contains_key(k));
                let i = choose|i: int| 0 <= i < init.len() && init[i].0@ == k;
                assert(entries[i] == init[i]);
            }
            if exists|i: int| 0 <= i < entries.len() && entries[i].0@ == k {
                let i = choose|i: int| 0 <= i < entries.len() && entries[i].0@ == k;
                if i < n {
                    assert(init[i] == entries[i]);
                    assert(entries_map(init, f).contains_key(k));
                }
            }
        }
        assert forall|i: int|
            0 <= i < entries.len() implies #[trigger] entries_map(entries, f)[entries[i].0@] == f(
            entries[i].1,
        ) by {
            assert(entries_map(entries, f) == entries_map(init, f).insert(entries[n].0@, f(entries[n].1)));
            if i < n {
                assert(init[i] == entries[i]);
                assert(entries[i].0@ != entries[n].0@);
            }
        }
    }
}

proof fn lemma_entries_push<T, V>(entries: Seq<(Address, T)>, e: (Address, T), f: spec_fn(T) -> V)
    requires
        keys_unique(entries),
        forall|i: int| 0 <= i < entries.len() ==> entries[i].0@ != e.0@,
    ensures
        keys_unique(entries.push(e)),
        entries_map(entries.push(e), f) == entries_map(entries, f).insert(e.0@, f(e.1)),
{
    assert(entries.push(e).drop_last() =~= entries);
    let p = entries.push(e);
    assert forall|i: int, j: int| 0 <= i < p.len() && 0 <= j < p.len() && i != j implies #[trigger] p[i].0@
        != #[trigger] p[j].0@ by {
        if i < entries.len() && j < entries.len() {
            assert(p[i] == entries[i] && p[j] == entries[j]);
        } else if i < entries.len() {
            assert(p[i] == entries[i]);
        } else {
            assert(p[j] == entries[j]);
        }
    }
}

proof fn lemma_entries_update<T, V>(entries: Seq<(Address, T)>, i: int, e: (Address, T), f: spec_fn(T) -> V)
    requires
        keys_unique(entries),
        0 <= i < entries.len(),
        entries[i].0@ == e.0@,
    ensures
        keys_unique(entries.update(i, e)),
        entries_map(entries.update(i, e), f) == entries_map(entries, f).insert(e.0@, f(e.1)),
{
    let u = entries.update(i, e);
    assert(keys_unique(u)) by {
        assert forall|a: int, b: int| 0 <= a < u.len() && 0 <= b < u.len() && a != b implies #[trigger] u[a].0@
            != #[trigger] u[b].0@ by {
            assert(u[a].0@ == entries[a].0@);
            assert(u[b].0@ == entries[b].0@);
        }
    }
    lemma_entries_map(entries, f);
    lemma_entries_map(u, f);
    let m1 = entries_map(u, f);
    let m2 = entries_map(entries, f).insert(e.0@, f(e.1));
    assert forall|k: Seq<u8>| #[trigger] m1.contains_key(k) <==> m2.contains_key(k) by {
        if m1.contains_key(k) {
            let j = choose|j: int| 0 <= j < u.len() && u[j].0@ == k;
            assert(entries[j].0@ == k);
            assert(entries_map(entries, f).contains_key(k));
        }
        if m2.contains_key(k) {
            if k == e.0@ {
                assert(u[i].0@ == k);
            } else {
                assert(entries_map(entries, f).contains_key(k));
                let j = choose|j: int| 0 <= j < entries.len() && entries[j].0@ == k;
                assert(u[j].0@ == k);
            }
        }
    }
    assert forall|k: Seq<u8>| m1.contains_key(k) implies m1[k] == m2[k] by {
        let j = choose|j: int| 0 <= j < u.len() && u[j].0@ == k;
        if j != i {
            assert(u[j] == entries[j]);
        }
    }
    assert(m1 =~= m2);
}

fn index_of<T>(entries: &Vec<(Address, T)>, key: &Address) -> (r: Option<usize>)
    ensures
        r matches Some(i) ==> i < entries@.len() && entries@[i as int].0@ == key@,
        r is None ==> forall|i: int| 0 <= i < entries@.len() ==> entries@[i].0@ != key@,
{
    let mut i: usize = 0;
    while i < entries.len()
        invariant
            0 <= i <= entries@.len(),
            forall|j: int| 0 <= j < i ==> entries@[j].0@ != key@,
        decreases entries@.len() - i,
    {
        if entries[i].0.same(key) {
            return Some(i);
        }
        i = i + 1;
    }
    None
}

pub open spec fn user_view() -> spec_fn(UserAccount) -> UserAccount {
    |u: UserAccount| u
}

pub open spec fn collection_view() -> spec_fn(CollectionAccount) -> CollectionView {
    |c: CollectionAccount| c@
}

pub open spec fn nft_view() -> spec_fn(NftAccount) -> NftView {
    |n: NftAccount| n@
}

impl View for Registry {
    type V = RegistryView;

    closed spec fn view(&self) -> RegistryView {
        RegistryView {
            program_id: self.program_id@,
            metadata_program: self.metadata_program@,
            users: entries_map(self.users@, user_view()),
            collections: entries_map(self.collections@, collection_view()),
            members: entries_map(self.members@, nft_view()),
            editions: self.editions@,
        }
    }
}

impl Registry {
    /// Keys are unique, stored records are well formed, and every collection's master
    /// edition was published.
    pub closed spec fn wf(&self) -> bool {
        &&& keys_unique(self.users@)
        &&& keys_unique(self.collections@)
        &&& keys_unique(self.members@)
        &&& forall|i: int| 0 <= i < self.collections@.len() ==> #[trigger] self.collections@[i].1.wf()
        &&& forall|i: int| 0 <= i < self.members@.len() ==> #[trigger] self.members@[i].1.wf()
        &&& forall|k: Seq<u8>| #[trigger] self@.collections.contains_key(k) ==> self.editions@.contains(
            self@.collections[k].token_mint,
        )
    }

    /// An empty registry for the program `program_id`, relying on the metadata registry
    /// `metadata_program`.
    pub fn new(program_id: Address, metadata_program: Address) -> (r: Registry)
        ensures
            r.wf(),
            r@.program_id == program_id@,
            r@.metadata_program == metadata_program@,
            r@.users == Map::<Seq<u8>, UserAccount>::empty(),
            r@.collections == Map::<Seq<u8>, CollectionView>::empty(),
            r@.members == Map::<Seq<u8>, NftView>::empty(),
            r@.editions == Set::<Seq<u8>>::empty(),
    {
        let r = Registry {
            program_id,
            metadata_program,
            users: Vec::new(),
            collections: Vec::new(),
            members: Vec::new(),
            editions: Ghost(Set::empty()),
        };
        proof {
            assert(r@.users =~= Map::<Seq<u8>, UserAccount>::empty());
            assert(r@.collections =~= Map::<Seq<u8>, CollectionView>::empty());
            assert(r@.members =~= Map::<Seq<u8>, NftView>::empty());
        }
        r
    }

    /// A well-formed registry holds no collection whose master edition was not published.
    pub proof fn lemma_editions_published(&self)
        requires
            self.wf(),
        ensures
            self@.editions_published(),
    {
    }

    /// The program that owns the records.
    pub fn program_id(&self) -> (r: Address)
        ensures
            r@ == self@.program_id,
    {
        self.program_id
    }

    /// The metadata registry this program relies on.
    pub fn metadata_program(&self) -> (r: Address)
        ensures
            r@ == self@.metadata_program,
    {
        self.metadata_program
    }

    /// The user record under `key`.
    pub fn find_user(&self, key: &Address) -> (r: Option<UserAccount>)
        requires
            self.wf(),
        ensures
            r == (if self@.users.contains_key(key@) {
                Some(self@.users[key@])
            } else {
                None
            }),
    {
        proof { lemma_entries_map(self.users@, user_view()); }
        match index_of(&self.users, key) {
            Some(i) => Some(self.users[i].1),
            None => None,
        }
    }

    /// The collection record under `key`.
    pub fn find_collection(&self, key: &Address) -> (r: Option<&CollectionAccount>)
        requires
            self.wf(),
        ensures
            r is Some == self@.collections.contains_key(key@),
            r matches Some(c) ==> c@ == self@.collections[key@] && c.wf(),
    {
        proof { lemma_entries_map(self.collections@, collection_view()); }
        match index_of(&self.collections, key) {
            Some(i) => Some(&self.collections[i].1),
            None => None,
        }
    }

    /// The member record under `key`.
    pub fn find_member(&self, key: &Address) -> (r: Option<&NftAccount>)
        requires
            self.wf(),
        ensures
            r is Some == self@.members.contains_key(key@),
            r matches Some(n) ==> n@ == self@.members[key@] && n.wf(),
    {
        proof { lemma_entries_map(self.members@, nft_view()); }
        match index_of(&self.members, key) {
            Some(i) => Some(&self.members[i].1),
            None => None,
        }
    }

    /// Writes the user record under `key`, creating or replacing it.
    pub(crate) fn put_user(&mut self, key: Address, u: UserAccount)
        requires
            old(self).wf(),
        ensures
            final(self).wf(),
            final(self)@ == (RegistryView { users: old(self)@.users.insert(key@, u), ..old(self)@ }),
    {
        proof { lemma_entries_map(self.users@, user_view()); }
        let ghost f = user_view();
        let ghost before = self@;
        match index_of(&self.users, &key) {
            Some(i) => {
                proof { lemma_entries_update(self.users@, i as int, (key, u), f); }
                self.users.set(i, (key, u));
            },
            None => {
                proof { lemma_entries_push(self.users@, (key, u), f); }
                self.users.push((key, u));
            },
        }
        assert(self@.collections == before.collections);
    }

    /// Takes in a user record read from the program's account at `key`.
    pub fn load_user(&mut self, key: Address, u: UserAccount)
        requires
            old(self).wf(),
            !old(self)@.users.contains_key(key@),
        ensures
            final(self).wf(),
            final(self)@ == (RegistryView { users: old(self)@.users.insert(key@, u), ..old(self)@ }),
    {
        self.put_user(key, u);
    }

    /// Takes in a collection record read from the program's account at `key`. Only a completed
    /// collection mint writes such an account, after the master edition of its mint was
    /// published.
    pub fn load_collection(&mut self, key: Address, c: CollectionAccount)
        requires
            old(self).wf(),
            c.wf(),
            !old(self)@.collections.contains_key(key@),
        ensures
            final(self).wf(),
            final(self)@ == (RegistryView {
                collections: old(self)@.collections.insert(key@, c@),
                editions: old(self)@.editions.insert(c@.token_mint),
                ..old(self)@
            }),
    {
        self.insert_collection(key, c);
    }

    /// Takes in a member record read from the program's account at `key`.
    pub fn load_member(&mut self, key: Address, n: NftAccount)
        requires
            old(self).wf(),
            n.wf(),
            !old(self)@.members.contains_key(key@),
        ensures
            final(self).wf(),
            final(self)@ == (RegistryView { members: old(self)@.members.insert(key@, n@), ..old(self)@ }),
    {
        self.insert_member(key, n);
    }

    /// Creates the collection record under `key`, whose master edition was published.
    pub(crate) fn insert_collection(&mut self, key: Address, c: CollectionAccount)
        requires
            old(self).wf(),
            c.wf(),
            !old(self)@.collections.contains_key(key@),
        ensures
            final(self).wf(),
            final(self)@ == (RegistryView {
                collections: old(self)@.collections.insert(key@, c@),
                editions: old(self)@.editions.insert(c@.token_mint),
                ..old(self)@
            }),
    {
        proof { lemma_entries_map(self.collections@, collection_view()); }
        let ghost f = collection_view();
        let ghost m = c@.token_mint;
        proof {
            lemma_entries_push(self.collections@, (key, c), f);
        }
        self.collections.push((key, c));
        self.editions = Ghost(self.editions@.insert(m));
    }

    /// Replaces the collection record under `key` by one for the same mint.
    pub(crate) fn replace_collection(&mut self, key: Address, c: CollectionAccount)
        requires
            old(self).wf(),
            c.wf(),
            old(self)@.collections.contains_key(key@),
            old(self)@.collections[key@].token_mint == c@.token_mint,
        ensures
            final(self).wf(),
            final(self)@ == (RegistryView { collections: old(self)@.collections.insert(key@, c@), ..old(self)@ }),
    {
        proof { lemma_entries_map(self.collections@, collection_view()); }
        let ghost f = collection_view();
        match index_of(&self.collections, &key) {
            Some(i) => {
                proof { lemma_entries_update(self.collections@, i as int, (key, c), f); }
                self.collections.set(i, (key, c));
            },
            None => {
                proof { assert(false); }
            },
        }
    }

    /// Creates the member record under `key`.
    pub(crate) fn insert_member(&mut self, key: Address, n: NftAccount)
        requires
            old(self).wf(),
            n.wf(),
            !old(self)@.members.contains_key(key@),
        ensures
            final(self).wf(),
            final(self)@ == (RegistryView { members: old(self)@.members.insert(key@, n@), ..old(self)@ }),
    {
        proof { lemma_entries_map(self.members@, nft_view()); }
        let ghost f = nft_view();
        proof {
            lemma_entries_push(self.members@, (key, n), f);
        }
        let ghost before = self@;
        self.members.push((key, n));
        assert(self@.collections == before.collections);
    }
}

} // verus!
