use vstd::prelude::*;

use crate::error::McpError;
use crate::text::{join2, str_eq};

verus! {

/// No two entries share a key.
pub open spec fn keys_unique<V>(es: Seq<(String, V)>) -> bool {
    forall|i: int, j: int|
        0 <= i < es.len() && 0 <= j < es.len() && i != j ==> #[trigger] es[i].0@ != #[trigger] es[j].0@
}

/// Some entry is keyed `k`.
pub open spec fn has_key<V>(es: Seq<(String, V)>, k: Seq<char>) -> bool {
    exists|i: int| 0 <= i < es.len() && #[trigger] es[i].0@ == k
}

/// The keys, in order of registration.
pub open spec fn keys_of<V>(es: Seq<(String, V)>) -> Seq<Seq<char>> {
    es.map_values(|e: (String, V)| e.0@)
}

/// Named capability descriptors of one kind, filled at startup and read afterwards.
/// Entries keep the order in which they were registered.
pub struct Registry<V> {
    entries: Vec<(String, V)>,
}

impl<V> Registry<V> {
    pub closed spec fn entries(&self) -> Seq<(String, V)> {
        self.entries@
    }

    pub open spec fn wf(&self) -> bool {
        keys_unique(self.entries())
    }

    pub open spec fn keys(&self) -> Seq<Seq<char>> {
        keys_of(self.entries())
    }

    pub fn new() -> (r: Registry<V>)
        ensures
            r.wf(),
            r.entries().len() == 0,
    {
        Registry { entries: Vec::new() }
    }

    /// The number of entries.
    pub fn len(&self) -> (r: usize)
        ensures
            r == self.entries().len(),
    {
        self.entries.len()
    }

    /// Where the entry keyed `key` stands.
    pub fn position(&self, key: &str) -> (r: Option<usize>)
        ensures
            r is None <==> !has_key(self.entries(), key@),
            r is Some ==> r.unwrap() < self.entries().len() && self.entries()[r.unwrap() as int].0@
                == key@,
    {
        let mut i: usize = 0;
        while i < self.entries.len()
            invariant
                i <= self.entries@.len(),
                forall|j: int| 0 <= j < i ==> #[trigger] self.entries@[j].0@ != key@,
            decreases self.entries@.len() - i,
        {
            if str_eq(self.entries[i].0.as_str(), key) {
                return Some(i);
            }
            i = i + 1;
        }
        None
    }

    /// Add `value` under `key`; a key that is already present is refused and
    /// nothing changes.
    pub fn register(&mut self, key: String, value: V) -> (r: Result<(), McpError>)
        requires
            old(self).wf(),
        ensures
            final(self).wf(),
            has_key(old(self).entries(), key@) ==> r is Err && final(self).entries() == old(
                self,
            ).entries(),
            !has_key(old(self).entries(), key@) ==> r is Ok && final(self).entries() == old(
                self,
            ).entries().push((key, value)),
            r is Err ==> r->Err_0 is InternalError,
    {
        if self.position(key.as_str()).is_some() {
            return Err(McpError::InternalError(join2("Duplicate registration of ", key.as_str())));
        }
        self.entries.push((key, value));
        proof {
            let es = self.entries@;
            assert forall|i: int, j: int|
                0 <= i < es.len() && 0 <= j < es.len() && i != j implies #[trigger] es[i].0@
                != #[trigger] es[j].0@ by {
                if i == es.len() - 1 {
                    assert(es[j] == old(self).entries()[j]);
                } else if j == es.len() - 1 {
                    assert(es[i] == old(self).entries()[i]);
                } else {
                    assert(es[i] == old(self).entries()[i]);
                    assert(es[j] == old(self).entries()[j]);
                }
            }
        }
        Ok(())
    }

    /// The descriptor registered under `key`.
    pub fn lookup(&self, key: &str) -> (r: Option<&V>)
        ensures
            r is None <==> !has_key(self.entries(), key@),
            r is Some ==> exists|i: int|
                0 <= i < self.entries().len() && self.entries()[i].0@ == key@ && self.entries()[i].1
                    == *r.unwrap(),
    {
        match self.position(key) {
            Some(i) => Some(&self.entries[i].1),
            None => None,
        }
    }

    /// The entry at `i`, in order of registration.
    pub fn entry(&self, i: usize) -> (r: &(String, V))
        requires
            i < self.entries().len(),
        ensures
            *r == self.entries()[i as int],
    {
        &self.entries[i]
    }
}

} // verus!
