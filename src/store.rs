use vstd::prelude::*;

use crate::credentials::{Credentials, CredentialsView};

verus! {

/// Where the session keeps credential pairs by name, plus the one pending
/// verification code. Keys are unique and `put` overwrites.
pub trait Store {
    /// The pairs held, by key.
    spec fn entries(&self) -> Map<Seq<char>, CredentialsView>;

    /// The verification code held.
    spec fn code(&self) -> Seq<char>;

    /// The store's own consistency.
    spec fn inv(&self) -> bool;

    fn get(&self, key: String) -> (r: Option<&Credentials>)
        requires
            self.inv(),
        ensures
            r is Some <==> self.entries().contains_key(key@),
            r matches Some(c) ==> self.entries()[key@] == c@,
    ;

    fn put(&mut self, key: String, creds: Credentials)
        requires
            old(self).inv(),
        ensures
            final(self).inv(),
            final(self).entries() == old(self).entries().insert(key@, creds@),
            final(self).code() == old(self).code(),
    ;

    fn delete(&mut self, key: String)
        requires
            old(self).inv(),
        ensures
            final(self).inv(),
            final(self).entries() == old(self).entries().remove(key@),
            final(self).code() == old(self).code(),
    ;

    fn set_verification_code(&mut self, verification_code: String)
        requires
            old(self).inv(),
        ensures
            final(self).inv(),
            final(self).entries() == old(self).entries(),
            final(self).code() == verification_code@,
    ;

    fn get_verification_code(&self) -> (r: String)
        requires
            self.inv(),
        ensures
            r@ == self.code(),
    ;
}

/// A store that lives in memory for the life of the process.
pub struct AuthInMemoryStore {
    data: Vec<(String, Credentials)>,
    map: Ghost<Map<Seq<char>, CredentialsView>>,
    pub verification_code: String,
}

impl AuthInMemoryStore {
    pub fn new() -> (r: AuthInMemoryStore)
        ensures
            r.inv(),
            r.entries() == Map::<Seq<char>, CredentialsView>::empty(),
            r.code() == Seq::<char>::empty(),
    {
        AuthInMemoryStore {
            data: Vec::new(),
            map: Ghost(Map::empty()),
            verification_code: String::new(),
        }
    }

    fn find(&self, key: &String) -> (r: Option<usize>)
        requires
            self.inv(),
        ensures
            r matches Some(i) ==> i < self.data@.len() && self.data@[i as int].0@ == key@,
            r is None ==> !self.entries().contains_key(key@),
    {
        let mut i: usize = 0;
        while i < self.data.len()
            invariant
                self.inv(),
                i <= self.data@.len(),
                forall|j: int| 0 <= j < i ==> self.data@[j].0@ != key@,
            decreases self.data@.len() - i,
        {
            if self.data[i].0 == *key {
                return Some(i);
            }
            i = i + 1;
        }
        None
    }
}

impl Store for AuthInMemoryStore {
    closed spec fn entries(&self) -> Map<Seq<char>, CredentialsView> {
        self.map@
    }

    closed spec fn code(&self) -> Seq<char> {
        self.verification_code@
    }

    closed spec fn inv(&self) -> bool {
        &&& forall|i: int, j: int|
            0 <= i < self.data@.len() && 0 <= j < self.data@.len() && i != j
                ==> #[trigger] self.data@[i].0@ != #[trigger] self.data@[j].0@
        &&& forall|i: int|
            0 <= i < self.data@.len() ==> self.map@.contains_key(#[trigger] self.data@[i].0@)
                && self.map@[self.data@[i].0@] == self.data@[i].1@
        &&& forall|k: Seq<char>|
            #[trigger] self.map@.contains_key(k) ==> exists|i: int|
                0 <= i < self.data@.len() && #[trigger] self.data@[i].0@ == k
    }

    fn get(&self, key: String) -> (r: Option<&Credentials>) {
        match self.find(&key) {
            Some(i) => Some(&self.data[i].1),
            None => None,
        }
    }

    fn put(&mut self, key: String, creds: Credentials) {
        let ghost k = key@;
        let ghost c = creds@;
        let ghost old_data = self.data@;
        let ghost old_map = self.map@;
        let found = self.find(&key);
        match found {
            Some(i) => {
                self.data.set(i, (key, creds));
            }
            None => {
                self.data.push((key, creds));
            }
        }
        self.map = Ghost(self.map@.insert(k, c));
        assert forall|q: Seq<char>| #[trigger] self.map@.contains_key(q) implies exists|i: int|
            0 <= i < self.data@.len() && #[trigger] self.data@[i].0@ == q by {
            if q != k {
                assert(old_map.contains_key(q));
                let i = choose|i: int| 0 <= i < old_data.len() && #[trigger] old_data[i].0@ == q;
                assert(self.data@[i].0@ == q);
            } else {
                match found {
                    Some(i) => assert(self.data@[i as int].0@ == q),
                    None => assert(self.data@[self.data@.len() - 1].0@ == q),
                }
            }
        }
    }

    fn delete(&mut self, key: String) {
        let ghost k = key@;
        match self.find(&key) {
            Some(i) => {
                self.data.remove(i);
                assert forall|j: int| 0 <= j < self.data@.len() implies #[trigger] self.data@[j].0@ != k by {
                    if j < i {
                        assert(old(self).data@[j] == self.data@[j]);
                    } else {
                        assert(old(self).data@[j + 1] == self.data@[j]);
                    }
                }
            }
            None => {}
        }
        self.map = Ghost(self.map@.remove(k));
        assert forall|q: Seq<char>| #[trigger] self.map@.contains_key(q) implies exists|j: int|
            0 <= j < self.data@.len() && #[trigger] self.data@[j].0@ == q by {
            assert(old(self).map@.contains_key(q));
            let i = choose|i: int| 0 <= i < old(self).data@.len() && #[trigger] old(self).data@[i].0@ == q;
            if self.data@.len() < old(self).data@.len() {
                let r = choose|r: int| 0 <= r < old(self).data@.len() && old(self).data@[r].0@ == k;
                if i < r {
                    assert(self.data@[i].0@ == q);
                } else {
                    assert(self.data@[i - 1].0@ == q);
                }
            } else {
                assert(self.data@[i].0@ == q);
            }
        }
    }

    fn set_verification_code(&mut self, verification_code: String) {
        self.verification_code = verification_code;
        assert(self.data@ == old(self).data@ && self.map@ == old(self).map@);
    }

    fn get_verification_code(&self) -> (r: String) {
        self.verification_code.clone()
    }
}

} // verus!
