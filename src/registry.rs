//! The directory of grammars, keyed by name.
use vstd::prelude::*;

use crate::error::{already_registered_error, already_registered_message, Error, ErrorKind};

verus! {

/// A mapping from grammar name to grammar handle. A name, once claimed, is
/// never removed or overwritten: registering it again is refused.
pub struct LanguageRegistry {
    names: Vec<String>,
    languages: Vec<tree_sitter::Language>,
}

impl LanguageRegistry {
    /// Names and handles stand side by side, and no name occurs twice.
    pub closed spec fn wf(&self) -> bool {
        &&& self.names.len() == self.languages.len()
        &&& forall|i: int, j: int|
            0 <= i < self.names.len() && 0 <= j < self.names.len() && i != j
                ==> #[trigger] self.names@[i]@ != #[trigger] self.names@[j]@
    }

    closed spec fn has_at(&self, name: Seq<char>, i: int) -> bool {
        0 <= i < self.names.len() && self.names@[i]@ == name
    }

    /// The registered grammars, by name.
    pub closed spec fn view(&self) -> Map<Seq<char>, tree_sitter::Language> {
        Map::new(
            |k: Seq<char>| exists|i: int| self.has_at(k, i),
            |k: Seq<char>| self.languages@[choose|i: int| self.has_at(k, i)],
        )
    }

    proof fn lemma_entry(&self, i: int)
        requires
            self.wf(),
            0 <= i < self.names.len(),
        ensures
            self@.contains_key(self.names@[i]@),
            self@[self.names@[i]@] == self.languages@[i],
    {
        let k = self.names@[i]@;
        assert(self.has_at(k, i));
        let j = choose|j: int| self.has_at(k, j);
        assert(self.names@[j]@ == self.names@[i]@);
    }

    /// An empty registry.
    pub fn new() -> (r: Self)
        ensures
            r.wf(),
            r@ == Map::<Seq<char>, tree_sitter::Language>::empty(),
    {
        let r = LanguageRegistry { names: Vec::new(), languages: Vec::new() };
        assert(r@ =~= Map::<Seq<char>, tree_sitter::Language>::empty());
        r
    }

    /// Position of `name` among the registered names, if any.
    fn find(&self, name: &String) -> (r: Option<usize>)
        requires
            self.wf(),
        ensures
            match r {
                Some(i) => self.has_at(name@, i as int),
                None => forall|i: int| !self.has_at(name@, i),
            },
    {
        let mut i: usize = 0;
        while i < self.names.len()
            invariant
                i <= self.names.len(),
                forall|j: int| 0 <= j < i ==> !self.has_at(name@, j),
            decreases self.names.len() - i,
        {
            if self.names[i] == *name {
                return Some(i);
            }
            i = i + 1;
        }
        None
    }

    /// Whether a grammar is registered under `name` (exact string equality).
    pub fn contains(&self, name: &String) -> (r: bool)
        requires
            self.wf(),
        ensures
            r == self@.contains_key(name@),
    {
        match self.find(name) {
            Some(i) => {
                proof { self.lemma_entry(i as int); }
                true
            },
            None => false,
        }
    }

    /// The handle registered under `name`, by reference.
    pub fn get(&self, name: &String) -> (r: Option<&tree_sitter::Language>)
        requires
            self.wf(),
        ensures
            match r {
                Some(l) => self@.contains_key(name@) && *l == self@[name@],
                None => !self@.contains_key(name@),
            },
    {
        match self.find(name) {
            Some(i) => {
                proof { self.lemma_entry(i as int); }
                Some(&self.languages[i])
            },
            None => None,
        }
    }

    /// A shared copy of the handle registered under `name`, or `None`.
    pub fn lookup(&self, name: &String) -> (r: Option<tree_sitter::Language>)
        requires
            self.wf(),
        ensures
            r == (if self@.contains_key(name@) {
                Some(self@[name@])
            } else {
                None
            }),
    {
        match self.get(name) {
            Some(l) => Some(l.clone()),
            None => None,
        }
    }

    /// Claims `name` for `language`. A name that is already taken is refused
    /// and the registry is left as it was.
    pub fn register(&mut self, name: String, language: tree_sitter::Language) -> (r: Result<(), Error>)
        requires
            old(self).wf(),
        ensures
            final(self).wf(),
            old(self)@.contains_key(name@) ==> {
                &&& r is Err
                &&& r->Err_0.kind == ErrorKind::AlreadyRegistered
                &&& r->Err_0.message@ == already_registered_message(name@)
                &&& final(self)@ == old(self)@
            },
            !old(self)@.contains_key(name@) ==> {
                &&& r is Ok
                &&& final(self)@ == old(self)@.insert(name@, language)
            },
    {
        match self.find(&name) {
            Some(i) => {
                proof { self.lemma_entry(i as int); }
                Err(already_registered_error(&name))
            },
            None => {
                let ghost before = *self;
                let ghost k = name@;
                self.names.push(name);
                self.languages.push(language);
                proof {
                    let n = before.names.len() as int;
                    assert(self.has_at(k, n));
                    assert forall|i: int, j: int|
                        0 <= i < self.names.len() && 0 <= j < self.names.len() && i != j
                            implies #[trigger] self.names@[i]@ != #[trigger] self.names@[j]@ by {
                        if i != n && j != n {
                            assert(self.names@[i] == before.names@[i]);
                            assert(self.names@[j] == before.names@[j]);
                        } else if i == n {
                            assert(self.names@[j] == before.names@[j]);
                            assert(!before.has_at(k, j));
                        } else {
                            assert(self.names@[i] == before.names@[i]);
                            assert(!before.has_at(k, i));
                        }
                    }
                    assert forall|key: Seq<char>| #[trigger] self@.contains_key(key)
                        == before@.insert(k, language).contains_key(key) by {
                        if key != k {
                            if before@.contains_key(key) {
                                let i = choose|i: int| before.has_at(key, i);
                                assert(self.has_at(key, i));
                            }
                            if self@.contains_key(key) {
                                let i = choose|i: int| self.has_at(key, i);
                                assert(before.has_at(key, i));
                            }
                        }
                    }
                    assert forall|key: Seq<char>| #[trigger] self@.contains_key(key)
                        implies self@[key] == before@.insert(k, language)[key] by {
                        let i = choose|i: int| self.has_at(key, i);
                        self.lemma_entry(i);
                        if i < n {
                            assert(before.has_at(key, i));
                            before.lemma_entry(i);
                        }
                    }
                    assert(self@ =~= before@.insert(k, language));
                }
                Ok(())
            },
        }
    }
}

} // verus!
