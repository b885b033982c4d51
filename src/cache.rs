use vstd::prelude::*;
use crate::digest::{program_hash, program_hash_of};

verus! {

/// A compiled program: its bytes, key material and digest.
#[derive(Clone)]
pub struct ProgramInfo {
    pub elf: Vec<u8>,
    pub proving_key: Vec<u8>,
    pub verifying_key: Vec<u8>,
    pub program_hash: String,
    /// Seconds since the Unix epoch at which the keys were compiled.
    pub compiled_at: u64,
}

impl ProgramInfo {
    /// The artifact is stored under the digest of its own program bytes.
    pub open spec fn wf(&self) -> bool {
        self.program_hash@ == program_hash_of(self.elf@)
    }

    /// Builds the artifact of `elf` from its compiled keys.
    pub fn new(elf: &[u8], proving_key: Vec<u8>, verifying_key: Vec<u8>, compiled_at: u64) -> (r: Self)
        ensures
            r.wf(),
            r.elf@ == elf@,
            r.proving_key == proving_key,
            r.verifying_key == verifying_key,
            r.compiled_at == compiled_at,
    {
        ProgramInfo {
            elf: vstd::slice::slice_to_vec(elf),
            proving_key,
            verifying_key,
            program_hash: program_hash(elf),
            compiled_at,
        }
    }
}

/// Compiled programs keyed by digest. Entries are only added (and all dropped
/// at shutdown); nothing is evicted, so the cache grows with the set of
/// distinct programs seen by the process.
pub struct ProgramCache {
    entries: Vec<ProgramInfo>,
}

pub open spec fn has_hash(entries: Seq<ProgramInfo>, h: Seq<char>) -> bool {
    exists|i: int| 0 <= i < entries.len() && (#[trigger] entries[i]).program_hash@ == h
}

impl ProgramCache {
    pub closed spec fn hashes(&self) -> Seq<Seq<char>> {
        self.entries@.map_values(|e: ProgramInfo| e.program_hash@)
    }

    /// Digests are unique and every artifact sits under its own digest.
    pub closed spec fn wf(&self) -> bool {
        &&& self.hashes().no_duplicates()
        &&& forall|i: int| 0 <= i < self.entries@.len() ==> (#[trigger] self.entries@[i]).wf()
    }

    /// The cache as a map from digest to artifact.
    pub closed spec fn view(&self) -> Map<Seq<char>, ProgramInfo> {
        Map::new(
            |h: Seq<char>| has_hash(self.entries@, h),
            |h: Seq<char>| self.entries@[self.index_of(h)],
        )
    }

    pub closed spec fn index_of(&self, h: Seq<char>) -> int {
        choose|i: int| 0 <= i < self.entries@.len() && (#[trigger] self.entries@[i]).program_hash@ == h
    }

    proof fn lemma_index_of(&self, i: int)
        requires
            self.wf(),
            0 <= i < self.entries@.len(),
        ensures
            self.index_of(self.entries@[i].program_hash@) == i,
            self@.contains_key(self.entries@[i].program_hash@),
            self@[self.entries@[i].program_hash@] == self.entries@[i],
    {
        let h = self.entries@[i].program_hash@;
        assert(has_hash(self.entries@, h));
        let j = self.index_of(h);
        assert(self.hashes()[i] == h && self.hashes()[j] == h);
    }

    /// Every cached artifact is stored under the digest of its own bytes.
    pub proof fn lemma_content_addressed(&self, h: Seq<char>)
        requires
            self.wf(),
            self@.contains_key(h),
        ensures
            self@[h].program_hash@ == h,
            h == program_hash_of(self@[h].elf@),
    {
        let i = self.index_of(h);
        assert(self.entries@[i].wf());
    }

    /// An empty cache.
    pub fn new() -> (r: Self)
        ensures
            r.wf(),
            r@ == Map::<Seq<char>, ProgramInfo>::empty(),
    {
        let r = ProgramCache { entries: Vec::new() };
        assert(r@ =~= Map::<Seq<char>, ProgramInfo>::empty());
        r
    }

    /// The number of cached programs.
    pub fn len(&self) -> (r: usize)
        requires
            self.wf(),
        ensures
            r == self@.len(),
    {
        proof {
            self.lemma_len();
        }
        self.entries.len()
    }

    /// The cache holds finitely many programs.
    pub proof fn lemma_finite(&self)
        requires
            self.wf(),
        ensures
            self@.dom().finite(),
    {
        self.lemma_len();
    }

    proof fn lemma_len(&self)
        requires
            self.wf(),
        ensures
            self@.dom().finite(),
            self@.len() == self.entries@.len(),
    {
        assert(self@.dom() =~= self.hashes().to_set()) by {
            assert forall|h: Seq<char>| self@.dom().contains(h) implies self.hashes().to_set().contains(h) by {
                let j = choose|j: int| 0 <= j < self.entries@.len() && (#[trigger] self.entries@[j]).program_hash@ == h;
                assert(self.hashes()[j] == h);
            }
            assert forall|h: Seq<char>| self.hashes().to_set().contains(h) implies self@.dom().contains(h) by {
                let j = choose|j: int| 0 <= j < self.hashes().len() && self.hashes()[j] == h;
                assert(self.entries@[j].program_hash@ == h);
            }
        }
        self.hashes().unique_seq_to_set();
    }

    /// Position of the artifact stored under `hash`, if any.
    fn find(&self, hash: &str) -> (r: Option<usize>)
        requires
            self.wf(),
        ensures
            r is None <==> !self@.contains_key(hash@),
            r matches Some(i) ==> i < self.entries@.len() && self.entries@[i as int].program_hash@ == hash@
                && self.index_of(hash@) == i,
    {
        let key = hash.to_owned();
        let mut i: usize = 0;
        while i < self.entries.len()
            invariant
                self.wf(),
                key@ == hash@,
                0 <= i <= self.entries@.len(),
                forall|j: int| 0 <= j < i ==> (#[trigger] self.entries@[j]).program_hash@ != hash@,
            decreases self.entries@.len() - i,
        {
            if self.entries[i].program_hash == key {
                proof {
                    self.lemma_index_of(i as int);
                }
                return Some(i);
            }
            i = i + 1;
        }
        None
    }

    /// Whether artifacts are cached under `hash`.
    pub fn contains(&self, hash: &str) -> (r: bool)
        requires
            self.wf(),
        ensures
            r == self@.contains_key(hash@),
    {
        self.find(hash).is_some()
    }

    /// The artifact cached under `hash`, if any.
    pub fn get(&self, hash: &str) -> (r: Option<&ProgramInfo>)
        requires
            self.wf(),
        ensures
            r == (if self@.contains_key(hash@) { Some(&self@[hash@]) } else { None::<&ProgramInfo> }),
    {
        match self.find(hash) {
            Some(i) => {
                proof {
                    self.lemma_index_of(i as int);
                }
                Some(&self.entries[i])
            },
            None => None,
        }
    }

    /// Stores `info` under its digest unless that digest is already cached, in
    /// which case the cache is left as it was: the content under a digest is
    /// the same whoever compiled it first.
    pub fn insert(&mut self, info: ProgramInfo)
        requires
            old(self).wf(),
            info.wf(),
        ensures
            final(self).wf(),
            final(self)@ == cache_insert(old(self)@, info),
    {
        if self.find(info.program_hash.as_str()).is_some() {
            return;
        }
        let ghost before = self.entries@;
        let ghost key = info.program_hash@;
        let ghost item = info;
        self.entries.push(info);
        proof {
            assert(self.hashes() =~= old(self).hashes().push(key));
            assert forall|i: int| 0 <= i < self.entries@.len() implies (#[trigger] self.entries@[i]).wf() by {
                if i < before.len() {
                    assert(self.entries@[i] == before[i]);
                }
            }
            assert forall|k: Seq<char>| #![auto] self@.contains_key(k) == old(self)@.insert(key, item).contains_key(k) by {
                if has_hash(before, k) {
                    let j = choose|j: int| 0 <= j < before.len() && (#[trigger] before[j]).program_hash@ == k;
                    assert(self.entries@[j] == before[j]);
                }
                if k == key {
                    assert(self.entries@[before.len() as int].program_hash@ == key);
                }
            }
            assert forall|k: Seq<char>| #![auto] self@.contains_key(k) implies self@[k] == old(self)@.insert(key, item)[k] by {
                if k == key {
                    self.lemma_index_of(before.len() as int);
                } else {
                    let j = choose|j: int| 0 <= j < before.len() && (#[trigger] before[j]).program_hash@ == k;
                    assert(self.entries@[j] == before[j]);
                    self.lemma_index_of(j);
                    old(self).lemma_index_of(j);
                }
            }
            assert(self@ =~= old(self)@.insert(key, item));
        }
    }

    /// Drops every cached artifact.
    pub fn clear(&mut self)
        ensures
            final(self).wf(),
            final(self)@ == Map::<Seq<char>, ProgramInfo>::empty(),
    {
        self.entries = Vec::new();
        assert(self@ =~= Map::<Seq<char>, ProgramInfo>::empty());
    }
}

/// The cache after storing `info`: added under its digest when that digest is
/// absent, unchanged otherwise.
pub open spec fn cache_insert(m: Map<Seq<char>, ProgramInfo>, info: ProgramInfo) -> Map<Seq<char>, ProgramInfo> {
    if m.contains_key(info.program_hash@) {
        m
    } else {
        m.insert(info.program_hash@, info)
    }
}

} // verus!
