use vstd::prelude::*;
use vstd::string::StringExecFns;
use std::sync::Arc;
use crate::types::ZkError;

verus! {

/// Relies on `Arc::clone`: the clone points at the same allocation, so it is
/// the same handle.
#[verifier::external_body]
fn share<B: ?Sized>(a: &Arc<B>) -> (r: Arc<B>)
    ensures
        r == *a,
{
    Arc::clone(a)
}

/// A backend able to prove and verify programs.
pub trait ZkBackend {
    fn prove(&self, program: &[u8], input: &[u8]) -> Result<Vec<u8>, ZkError>;

    fn verify(&self, program: &[u8], proof: &[u8]) -> Result<bool, ZkError>;
}

/// Backends registered under unique identifiers.
pub struct BackendRegistry<B: ?Sized> {
    backends: Vec<(String, Arc<B>)>,
}

/// Whether `id` is the identifier of some entry.
pub open spec fn has_id<B: ?Sized>(entries: Seq<(String, Arc<B>)>, id: Seq<char>) -> bool {
    exists|i: int| 0 <= i < entries.len() && (#[trigger] entries[i]).0@ == id
}

impl<B: ?Sized> BackendRegistry<B> {
    /// The identifiers, in order of registration.
    pub closed spec fn ids(&self) -> Seq<Seq<char>> {
        self.backends@.map_values(|e: (String, Arc<B>)| e.0@)
    }

    /// No identifier is registered twice.
    pub closed spec fn wf(&self) -> bool {
        self.ids().no_duplicates()
    }

    /// The registry as a map from identifier to handle.
    pub closed spec fn view(&self) -> Map<Seq<char>, Arc<B>> {
        Map::new(
            |id: Seq<char>| has_id(self.backends@, id),
            |id: Seq<char>| self.backends@[self.index_of(id)].1,
        )
    }

    pub closed spec fn index_of(&self, id: Seq<char>) -> int {
        choose|i: int| 0 <= i < self.backends@.len() && (#[trigger] self.backends@[i]).0@ == id
    }

    proof fn lemma_index_of(&self, i: int)
        requires
            self.wf(),
            0 <= i < self.backends@.len(),
        ensures
            self.index_of(self.backends@[i].0@) == i,
            self@.contains_key(self.backends@[i].0@),
            self@[self.backends@[i].0@] == self.backends@[i].1,
    {
        let id = self.backends@[i].0@;
        assert(has_id(self.backends@, id));
        let j = self.index_of(id);
        assert(self.ids()[i] == id && self.ids()[j] == id);
    }

    /// Creates an empty registry.
    pub fn new() -> (r: Self)
        ensures
            r.wf(),
            r@ == Map::<Seq<char>, Arc<B>>::empty(),
    {
        let r = BackendRegistry { backends: Vec::new() };
        assert(r@ =~= Map::<Seq<char>, Arc<B>>::empty());
        r
    }

    /// Position of `id`, if registered.
    fn find(&self, id: &str) -> (r: Option<usize>)
        requires
            self.wf(),
        ensures
            r is None <==> !self@.contains_key(id@),
            r matches Some(i) ==> i < self.backends@.len() && self.backends@[i as int].0@ == id@
                && self.index_of(id@) == i,
    {
        let key = id.to_owned();
        let mut i: usize = 0;
        while i < self.backends.len()
            invariant
                self.wf(),
                key@ == id@,
                0 <= i <= self.backends@.len(),
                forall|j: int| 0 <= j < i ==> (#[trigger] self.backends@[j]).0@ != id@,
            decreases self.backends@.len() - i,
        {
            if self.backends[i].0 == key {
                proof {
                    self.lemma_index_of(i as int);
                }
                return Some(i);
            }
            i = i + 1;
        }
        None
    }

    /// Registers `backend` under `id`; an identifier already present is refused
    /// and the registry is left as it was.
    pub fn register(&mut self, id: String, backend: Arc<B>) -> (r: Result<(), ZkError>)
        requires
            old(self).wf(),
        ensures
            final(self).wf(),
            old(self)@.contains_key(id@) ==> (r matches Err(ZkError::Config(_))) && final(self)@ == old(self)@,
            !old(self)@.contains_key(id@) ==> r is Ok && final(self)@ == old(self)@.insert(id@, backend),
    {
        if self.find(id.as_str()).is_some() {
            let mut m = "Backend '".to_owned();
            m.append(id.as_str());
            m.append("' already registered");
            return Err(ZkError::Config(m));
        }
        let ghost before = self.backends@;
        let ghost key = id@;
        self.backends.push((id, backend));
        proof {
            assert(self.ids() =~= old(self).ids().push(key));
            assert forall|k: Seq<char>| #![auto] self@.contains_key(k) == old(self)@.insert(key, backend).contains_key(k) by {
                if has_id(before, k) {
                    let j = choose|j: int| 0 <= j < before.len() && (#[trigger] before[j]).0@ == k;
                    assert(self.backends@[j] == before[j]);
                }
                if k == key {
                    assert(self.backends@[before.len() as int].0@ == key);
                }
            }
            assert forall|k: Seq<char>| #![auto] self@.contains_key(k) implies self@[k] == old(self)@.insert(key, backend)[k] by {
                if k == key {
                    self.lemma_index_of(before.len() as int);
                } else {
                    let j = choose|j: int| 0 <= j < before.len() && (#[trigger] before[j]).0@ == k;
                    assert(self.backends@[j] == before[j]);
                    self.lemma_index_of(j);
                    old(self).lemma_index_of(j);
                }
            }
            assert(self@ =~= old(self)@.insert(key, backend));
        }
        Ok(())
    }

    /// The handle registered under `id`, if any; never fails.
    pub fn get(&self, id: &str) -> (r: Option<Arc<B>>)
        requires
            self.wf(),
        ensures
            r == (if self@.contains_key(id@) { Some(self@[id@]) } else { None::<Arc<B>> }),
    {
        match self.find(id) {
            Some(i) => {
                proof {
                    self.lemma_index_of(i as int);
                }
                Some(share(&self.backends[i].1))
            },
            None => None,
        }
    }

    /// The registered identifiers, each once, in order of registration.
    pub fn list_backends(&self) -> (r: Vec<String>)
        requires
            self.wf(),
        ensures
            r@.map_values(|s: String| s@) == self.ids(),
            r@.map_values(|s: String| s@).no_duplicates(),
            r@.map_values(|s: String| s@).to_set() == self@.dom(),
    {
        let mut out: Vec<String> = Vec::new();
        let mut i: usize = 0;
        while i < self.backends.len()
            invariant
                0 <= i <= self.backends@.len(),
                out@.map_values(|s: String| s@) == self.ids().take(i as int),
            decreases self.backends@.len() - i,
        {
            let ghost prev = out@;
            let name = self.backends[i].0.clone();
            out.push(name);
            assert(out@ == prev.push(name));
            assert(self.ids()[i as int] == self.backends@[i as int].0@);
            assert(name@ == self.backends@[i as int].0@);
            assert(out@.map_values(|s: String| s@) =~= prev.map_values(|s: String| s@).push(name@));
            assert(self.ids().take(i as int + 1) =~= self.ids().take(i as int).push(self.ids()[i as int]));
            i = i + 1;
            assert(out@.map_values(|s: String| s@) =~= self.ids().take(i as int));
        }
        assert(self.ids().take(i as int) =~= self.ids());
        proof {
            assert forall|k: Seq<char>| self.ids().to_set().contains(k) == self@.dom().contains(k) by {
                if self.ids().to_set().contains(k) {
                    let j = choose|j: int| 0 <= j < self.ids().len() && self.ids()[j] == k;
                    assert(self.backends@[j].0@ == k);
                }
                if self@.dom().contains(k) {
                    let j = choose|j: int| 0 <= j < self.backends@.len() && (#[trigger] self.backends@[j]).0@ == k;
                    assert(self.ids()[j] == k);
                }
            }
            assert(self.ids().to_set() =~= self@.dom());
        }
        out
    }

    /// Removes and returns the handle registered under `id`; other callers'
    /// handles stay valid.
    pub fn unregister(&mut self, id: &str) -> (r: Option<Arc<B>>)
        requires
            old(self).wf(),
        ensures
            final(self).wf(),
            r == (if old(self)@.contains_key(id@) { Some(old(self)@[id@]) } else { None::<Arc<B>> }),
            final(self)@ == old(self)@.remove(id@),
    {
        match self.find(id) {
            Some(i) => {
                proof {
                    self.lemma_index_of(i as int);
                }
                let ghost before = self.backends@;
                let (_, backend) = self.backends.remove(i);
                proof {
                    assert(self.ids() =~= old(self).ids().remove(i as int));
                    assert forall|a: int, b: int| 0 <= a < b < self.ids().len() implies self.ids()[a] != self.ids()[b] by {
                        let a2 = if a < i { a } else { a + 1 };
                        let b2 = if b < i { b } else { b + 1 };
                        assert(self.ids()[a] == old(self).ids()[a2] && self.ids()[b] == old(self).ids()[b2]);
                    }
                    let key = id@;
                    assert forall|k: Seq<char>| #![auto] self@.contains_key(k) == old(self)@.remove(key).contains_key(k) by {
                        if has_id(self.backends@, k) {
                            let j = choose|j: int| 0 <= j < self.backends@.len() && (#[trigger] self.backends@[j]).0@ == k;
                            let j2 = if j < i { j } else { j + 1 };
                            assert(before[j2] == self.backends@[j]);
                            assert(self.ids()[j] == k);
                            if k == key {
                                assert(old(self).ids()[j2] == old(self).ids()[i as int]);
                            }
                        }
                        if k != key && has_id(before, k) {
                            let j = choose|j: int| 0 <= j < before.len() && (#[trigger] before[j]).0@ == k;
                            let j2 = if j < i { j } else { j - 1 };
                            assert(self.backends@[j2] == before[j]);
                        }
                    }
                    assert forall|k: Seq<char>| #![auto] self@.contains_key(k) implies self@[k] == old(self)@.remove(key)[k] by {
                        let j = choose|j: int| 0 <= j < self.backends@.len() && (#[trigger] self.backends@[j]).0@ == k;
                        let j2 = if j < i { j } else { j + 1 };
                        assert(before[j2] == self.backends@[j]);
                        self.lemma_index_of(j);
                        old(self).lemma_index_of(j2);
                    }
                    assert(self@ =~= old(self)@.remove(key));
                }
                Some(backend)
            },
            None => {
                assert(old(self)@.remove(id@) =~= old(self)@);
                None
            },
        }
    }
}

/// An identifier stays taken until it is unregistered: right after
/// registering `id`, registering it again is refused; once it is unregistered,
/// registering it again succeeds, leaving the registry as if the first
/// registration had never been made.
pub proof fn lemma_reregister_after_unregister<B: ?Sized>(
    before: Map<Seq<char>, Arc<B>>,
    id: Seq<char>,
    first: Arc<B>,
    second: Arc<B>,
)
    requires
        !before.contains_key(id),
    ensures
        before.insert(id, first).contains_key(id),
        !before.insert(id, first).remove(id).contains_key(id),
        before.insert(id, first).remove(id) == before,
        before.insert(id, first).remove(id).insert(id, second) == before.insert(id, second),
{
    assert(before.insert(id, first).remove(id) =~= before);
}

/// Registers `backend` under `id` in `registry`.
pub fn register_backend<B: ?Sized>(registry: &mut BackendRegistry<B>, id: String, backend: Arc<B>) -> (r: Result<(), ZkError>)
    requires
        old(registry).wf(),
    ensures
        final(registry).wf(),
        old(registry)@.contains_key(id@) ==> (r matches Err(ZkError::Config(_))) && final(registry)@ == old(registry)@,
        !old(registry)@.contains_key(id@) ==> r is Ok && final(registry)@ == old(registry)@.insert(id@, backend),
{
    registry.register(id, backend)
}

/// The backend registered under `id` in `registry`, if any.
pub fn get_backend<B: ?Sized>(registry: &BackendRegistry<B>, id: &str) -> (r: Option<Arc<B>>)
    requires
        registry.wf(),
    ensures
        r == (if registry@.contains_key(id@) { Some(registry@[id@]) } else { None::<Arc<B>> }),
{
    registry.get(id)
}

/// The identifiers registered in `registry`, each once.
pub fn list_backends<B: ?Sized>(registry: &BackendRegistry<B>) -> (r: Vec<String>)
    requires
        registry.wf(),
    ensures
        r@.map_values(|s: String| s@).no_duplicates(),
        r@.map_values(|s: String| s@).to_set() == registry@.dom(),
{
    registry.list_backends()
}

/// Removes the backend registered under `id` from `registry`.
pub fn unregister_backend<B: ?Sized>(registry: &mut BackendRegistry<B>, id: &str) -> (r: Option<Arc<B>>)
    requires
        old(registry).wf(),
    ensures
        final(registry).wf(),
        r == (if old(registry)@.contains_key(id@) { Some(old(registry)@[id@]) } else { None::<Arc<B>> }),
        final(registry)@ == old(registry)@.remove(id@),
{
    registry.unregister(id)
}

} // verus!
