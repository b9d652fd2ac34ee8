//! A flat vector index: embedding vectors by document identifier, checked
//! against the index's dimensionality, with its statistics.
//!
//! Vector components are binary32 numbers held as their bit patterns. The
//! similarity search computes in binary32 arithmetic and is done outside;
//! the index checks the query and records the search.

use vstd::prelude::*;
use crate::error::Error;
use crate::semantic_retrieval::IndexStats;
use crate::text::{concat3, decimal, owned, text_eq, u64_to_decimal};

verus! {

/// A vector in the index.
#[derive(Debug)]
pub struct IndexedVector {
    /// Document identifier.
    pub id: String,
    /// Components (binary32 bit patterns).
    pub vector: Vec<u32>,
    /// Metadata pairs, each key at most once.
    pub metadata: Option<Vec<(String, String)>>,
}

/// The position of the vector with identifier `id`, or -1.
pub open spec fn vector_position(s: Seq<IndexedVector>, id: Seq<char>) -> int
    decreases s.len(),
{
    if s.len() == 0 {
        -1
    } else if s.last().id@ == id {
        s.len() - 1
    } else {
        vector_position(s.drop_last(), id)
    }
}

/// Whether no two vectors share an identifier.
pub open spec fn ids_distinct(s: Seq<IndexedVector>) -> bool {
    forall|i: int, j: int| 0 <= i < j < s.len() ==> s[i].id@ != s[j].id@
}

/// The estimated memory of `n` vectors of `d` components: 4 bytes per
/// component and 64 per vector (wrapping).
pub open spec fn index_bytes(n: nat, d: nat) -> u64 {
    ((n * ((d * 4 + 64) % 0x1_0000_0000_0000_0000)) % 0x1_0000_0000_0000_0000) as u64
}

/// The message of a vector refused for its length.
pub open spec fn dimension_message(prefix: Seq<char>, expected: nat, got: nat) -> Seq<char> {
    prefix + "dimension mismatch : expected "@ + decimal(expected) + ", got "@ + decimal(got)
}

proof fn lemma_vector_position(s: Seq<IndexedVector>, id: Seq<char>)
    ensures
        -1 <= vector_position(s, id) < s.len(),
        vector_position(s, id) >= 0 ==> s[vector_position(s, id)].id@ == id,
        vector_position(s, id) < 0 <==> forall|j: int| 0 <= j < s.len() ==> s[j].id@ != id,
    decreases s.len(),
{
    if s.len() > 0 {
        lemma_vector_position(s.drop_last(), id);
        if s.last().id@ != id {
            if vector_position(s.drop_last(), id) >= 0 {
                assert(s.drop_last()[vector_position(s.drop_last(), id)] == s[vector_position(s.drop_last(), id)]);
            } else {
                assert forall|j: int| 0 <= j < s.len() implies s[j].id@ != id by {
                    if j < s.len() - 1 {
                        assert(s.drop_last()[j] == s[j]);
                    }
                }
            }
        }
    }
}

proof fn lemma_found_at(s: Seq<IndexedVector>, id: Seq<char>, i: int)
    requires
        0 <= i < s.len(),
        s[i].id@ == id,
        vector_position(s, id) < i + 1,
    ensures
        vector_position(s, id) == i,
    decreases s.len(),
{
    if s.len() - 1 != i {
        lemma_found_at(s.drop_last(), id, i);
    }
}

proof fn lemma_not_at(s: Seq<IndexedVector>, id: Seq<char>, i: int)
    requires
        0 <= i < s.len(),
        s[i].id@ != id,
        vector_position(s, id) < i + 1,
    ensures
        vector_position(s, id) < i,
    decreases s.len(),
{
    if s.len() - 1 > i {
        lemma_not_at(s.drop_last(), id, i);
    } else {
        lemma_vector_position(s.drop_last(), id);
    }
}

/// A flat index of embedding vectors.
#[derive(Debug)]
pub struct FlatVectorIndex {
    /// The vectors, each identifier at most once.
    pub vectors: Vec<IndexedVector>,
    /// Statistics.
    pub stats: IndexStats,
    /// Components of every vector.
    pub dimensions: usize,
}

impl FlatVectorIndex {
    /// Well-formedness: no identifier is held twice.
    pub open spec fn wf(&self) -> bool {
        ids_distinct(self.vectors@)
    }

    /// An empty index of vectors of `dimensions` components, statistics at
    /// zero.
    pub fn new(dimensions: usize) -> (r: Self)
        ensures
            r.wf(),
            r.vectors@.len() == 0,
            r.dimensions == dimensions,
            r.stats == (IndexStats {
                vector_count: 0,
                memory_usage_bytes: 0,
                avg_search_time_ms: 0,
                total_searches: 0,
                build_time_ms: 0,
                last_optimized_at: None,
            }),
    {
        FlatVectorIndex {
            vectors: Vec::new(),
            stats: IndexStats {
                vector_count: 0,
                memory_usage_bytes: 0,
                avg_search_time_ms: 0,
                total_searches: 0,
                build_time_ms: 0,
                last_optimized_at: None,
            },
            dimensions,
        }
    }

    fn position(&self, id: &str) -> (r: Option<usize>)
        ensures
            r matches Some(i) ==> i == vector_position(self.vectors@, id@) && i < self.vectors@.len(),
            r is None ==> vector_position(self.vectors@, id@) < 0,
    {
        proof { lemma_vector_position(self.vectors@, id@); }
        let mut i: usize = self.vectors.len();
        while i > 0
            invariant
                i <= self.vectors@.len(),
                vector_position(self.vectors@, id@) < i,
            decreases i,
        {
            if text_eq(self.vectors[i - 1].id.as_str(), id) {
                proof { lemma_found_at(self.vectors@, id@, i as int - 1); }
                return Some(i - 1);
            }
            proof { lemma_not_at(self.vectors@, id@, i as int - 1); }
            i = i - 1;
        }
        None
    }

    fn update_counts(&mut self)
        ensures
            final(self).stats == (IndexStats {
                vector_count: old(self).vectors@.len() as u64,
                memory_usage_bytes: index_bytes(old(self).vectors@.len(), old(self).dimensions as nat),
                ..old(self).stats
            }),
            final(self).vectors == old(self).vectors,
            final(self).dimensions == old(self).dimensions,
    {
        let n = self.vectors.len() as u64;
        let per = (self.dimensions as u64).wrapping_mul(4).wrapping_add(64);
        self.stats.vector_count = n;
        self.stats.memory_usage_bytes = n.wrapping_mul(per);
        assert(self.stats.memory_usage_bytes == index_bytes(self.vectors@.len(), self.dimensions as nat)) by (nonlinear_arith)
            requires
                per == ((((self.dimensions as int * 4) % 0x1_0000_0000_0000_0000) + 64) % 0x1_0000_0000_0000_0000) as u64,
                self.stats.memory_usage_bytes == ((n as int * per as int) % 0x1_0000_0000_0000_0000) as u64,
                n as nat == self.vectors@.len(),
        {
            assert((((self.dimensions as int * 4) % 0x1_0000_0000_0000_0000) + 64) % 0x1_0000_0000_0000_0000
                == (self.dimensions as int * 4 + 64) % 0x1_0000_0000_0000_0000);
        }
    }

    /// Stores `vector` under `id`, replacing a vector with that
    /// identifier; refused when its length is not the index's.
    pub fn add_vector(&mut self, id: &str, vector: Vec<u32>, metadata: Option<Vec<(String, String)>>) -> (r: Result<(), Error>)
        requires
            old(self).wf(),
        ensures
            final(self).wf(),
            final(self).dimensions == old(self).dimensions,
            vector@.len() != old(self).dimensions ==> {
                &&& r matches Err(Error::InvalidArgument(m))
                    && m@ == dimension_message("Vector "@, old(self).dimensions as nat, vector@.len())
                &&& *final(self) == *old(self)
            },
            vector@.len() == old(self).dimensions ==> {
                let p = vector_position(old(self).vectors@, id@);
                &&& r is Ok
                &&& final(self).vectors@.len() == if p < 0 { old(self).vectors@.len() + 1int } else { old(self).vectors@.len() as int }
                &&& forall|j: int| 0 <= j < old(self).vectors@.len() && j != p ==> final(self).vectors@[j] == old(self).vectors@[j]
                &&& ({
                    let s = final(self).vectors@[if p < 0 { old(self).vectors@.len() as int } else { p }];
                    s.id@ == id@ && s.vector == vector && s.metadata == metadata
                })
                &&& final(self).stats == (IndexStats {
                    vector_count: final(self).vectors@.len() as u64,
                    memory_usage_bytes: index_bytes(final(self).vectors@.len(), old(self).dimensions as nat),
                    ..old(self).stats
                })
            },
    {
        if vector.len() != self.dimensions {
            proof {
                reveal_strlit("Vector dimension mismatch : expected ");
                reveal_strlit(", got ");
                assert("Vector dimension mismatch : expected "@ =~= "Vector "@ + "dimension mismatch : expected "@) by {
                    reveal_strlit("Vector ");
                    reveal_strlit("dimension mismatch : expected ");
                }
            }
            let expected = u64_to_decimal(self.dimensions as u64);
            let got = u64_to_decimal(vector.len() as u64);
            let m = concat3("Vector dimension mismatch : expected ", expected.as_str(), ", got ").concat(got.as_str());
            return Err(Error::InvalidArgument(m));
        }
        let ghost v0 = self.vectors@;
        let entry = IndexedVector { id: owned(id), vector, metadata };
        match self.position(id) {
            Some(i) => {
                proof { lemma_vector_position(v0, id@); }
                assert(entry.id@ == v0[i as int].id@);
                self.vectors.set(i, entry);
                proof {
                    assert forall|a: int, b: int| 0 <= a < b < self.vectors@.len()
                        implies self.vectors@[a].id@ != self.vectors@[b].id@ by {
                        assert(self.vectors@[a].id@ == v0[a].id@);
                        assert(self.vectors@[b].id@ == v0[b].id@);
                        assert(v0[a].id@ != v0[b].id@);
                    }
                }
            },
            None => {
                proof { lemma_vector_position(v0, id@); }
                self.vectors.push(entry);
            },
        }
        self.update_counts();
        Ok(())
    }

    /// Checks a query vector of `query_len` components against the
    /// index's dimensionality.
    pub fn check_query(&self, query_len: usize) -> (r: Result<(), Error>)
        ensures
            query_len == self.dimensions <==> r is Ok,
            query_len != self.dimensions ==> (r matches Err(Error::InvalidArgument(m))
                && m@ == dimension_message("Query vector "@, self.dimensions as nat, query_len as nat)),
    {
        if query_len != self.dimensions {
            proof {
                reveal_strlit("Query vector dimension mismatch : expected ");
                reveal_strlit(", got ");
                assert("Query vector dimension mismatch : expected "@ =~= "Query vector "@ + "dimension mismatch : expected "@) by {
                    reveal_strlit("Query vector ");
                    reveal_strlit("dimension mismatch : expected ");
                }
            }
            let expected = u64_to_decimal(self.dimensions as u64);
            let got = u64_to_decimal(query_len as u64);
            let m = concat3("Query vector dimension mismatch : expected ", expected.as_str(), ", got ").concat(got.as_str());
            return Err(Error::InvalidArgument(m));
        }
        Ok(())
    }

    /// Counts a search and records the new average search time (a binary64
    /// bit pattern, averaged outside).
    pub fn record_search(&mut self, avg_search_time_ms: u64)
        ensures
            *final(self) == (FlatVectorIndex {
                stats: IndexStats {
                    total_searches: crate::config::wrap_inc(old(self).stats.total_searches),
                    avg_search_time_ms,
                    ..old(self).stats
                },
                ..*old(self)
            }),
    {
        self.stats.total_searches = self.stats.total_searches.wrapping_add(1);
        self.stats.avg_search_time_ms = avg_search_time_ms;
    }

    /// Takes the vector with identifier `id` out; tells whether there was
    /// one. The statistics are updated only when one went.
    pub fn remove_vector(&mut self, id: &str) -> (r: Result<bool, Error>)
        requires
            old(self).wf(),
        ensures
            final(self).wf(),
            final(self).dimensions == old(self).dimensions,
            ({
                let p = vector_position(old(self).vectors@, id@);
                if p < 0 {
                    r == Ok::<bool, Error>(false) && *final(self) == *old(self)
                } else {
                    &&& r == Ok::<bool, Error>(true)
                    &&& final(self).vectors@ == old(self).vectors@.remove(p)
                    &&& final(self).stats == (IndexStats {
                        vector_count: final(self).vectors@.len() as u64,
                        memory_usage_bytes: index_bytes(final(self).vectors@.len(), old(self).dimensions as nat),
                        ..old(self).stats
                    })
                }
            }),
    {
        let ghost v0 = self.vectors@;
        match self.position(id) {
            Some(i) => {
                let _ = self.vectors.remove(i);
                proof {
                    assert forall|a: int, b: int| 0 <= a < b < self.vectors@.len()
                        implies self.vectors@[a].id@ != self.vectors@[b].id@ by {
                        let a0 = if a < i { a } else { a + 1 };
                        let b0 = if b < i { b } else { b + 1 };
                        assert(self.vectors@[a] == v0[a0]);
                        assert(self.vectors@[b] == v0[b0]);
                    }
                }
                self.update_counts();
                Ok(true)
            },
            None => Ok(false),
        }
    }

    /// The statistics.
    pub fn get_stats(&self) -> (r: IndexStats)
        ensures
            r == self.stats,
    {
        self.stats
    }

    /// Records an optimisation finished at `now` that took `build_time_ms`.
    pub fn optimize_at(&mut self, now: u128, build_time_ms: u64) -> (r: Result<(), Error>)
        ensures
            r is Ok,
            *final(self) == (FlatVectorIndex {
                stats: IndexStats { last_optimized_at: Some(now), build_time_ms, ..old(self).stats },
                ..*old(self)
            }),
    {
        self.stats.last_optimized_at = Some(now);
        self.stats.build_time_ms = build_time_ms;
        Ok(())
    }
}

} // verus!
