//! Buffers that hold stream items while a stream is paused.
//!
//! Whatever the strategy, a buffer behaves as a first-in first-out sequence:
//! `push` appends, `drain_all` hands back everything in arrival order.

use std::collections::VecDeque;
use vstd::prelude::*;
use crate::error::Error;
use vstd::seq_lib::lemma_flatten_concat;

verus! {

/// Strategy for managing buffered data during pause operations.
#[derive(Debug, Clone, Copy, PartialEq, Eq, Structural)]
pub enum BufferStrategy {
    /// A plain vector.
    Vector,
    /// A ring buffer.
    Circular,
    /// A list of chunks of bounded size.
    Chunked {
        /// Number of items per chunk.
        chunk_size: usize,
    },
}

/// A buffer of stream items, laid out according to a [`BufferStrategy`].
pub enum StreamBuffer<T> {
    /// Items in one vector.
    Vector(Vec<Result<T, Error>>),
    /// Items in a ring buffer.
    Circular(VecDeque<Result<T, Error>>),
    /// Items in full chunks followed by the chunk being filled.
    Chunked {
        /// Chunks already filled, oldest first.
        chunks: Vec<Vec<Result<T, Error>>>,
        /// The chunk being filled.
        current_chunk: Vec<Result<T, Error>>,
        /// Number of items after which the current chunk is closed.
        chunk_size: usize,
    },
}

/// The items of a list of chunks, in order.
pub open spec fn chunk_items<T>(chunks: Seq<Vec<Result<T, Error>>>) -> Seq<Result<T, Error>> {
    chunks.map_values(|c: Vec<Result<T, Error>>| c@).flatten()
}

impl<T> View for StreamBuffer<T> {
    type V = Seq<Result<T, Error>>;

    /// The buffered items in arrival order.
    open spec fn view(&self) -> Seq<Result<T, Error>> {
        match self {
            StreamBuffer::Vector(v) => v@,
            StreamBuffer::Circular(d) => d@,
            StreamBuffer::Chunked { chunks, current_chunk, .. } => chunk_items(chunks@) + current_chunk@,
        }
    }
}

proof fn lemma_chunk_items_push<T>(chunks: Seq<Vec<Result<T, Error>>>, c: Vec<Result<T, Error>>)
    ensures
        chunk_items(chunks.push(c)) == chunk_items(chunks) + c@,
{
    let f = |c: Vec<Result<T, Error>>| c@;
    assert(chunks.push(c).map_values(f) =~= chunks.map_values(f).push(c@));
    chunks.map_values(f).lemma_flatten_push(c@);
}

proof fn lemma_chunk_items_first<T>(chunks: Seq<Vec<Result<T, Error>>>)
    requires
        chunks.len() > 0,
    ensures
        chunk_items(chunks) == chunks[0]@ + chunk_items(chunks.subrange(1, chunks.len() as int)),
{
    let f = |c: Vec<Result<T, Error>>| c@;
    assert(chunks.map_values(f).drop_first() =~= chunks.subrange(1, chunks.len() as int).map_values(f));
}

proof fn lemma_chunk_items_take<T>(chunks: Seq<Vec<Result<T, Error>>>, i: int)
    requires
        0 <= i < chunks.len(),
    ensures
        chunk_items(chunks.take(i + 1)) == chunk_items(chunks.take(i)) + chunks[i]@,
        chunk_items(chunks.take(i)).len() <= chunk_items(chunks).len(),
{
    assert(chunks.take(i + 1) =~= chunks.take(i).push(chunks[i]));
    lemma_chunk_items_push(chunks.take(i), chunks[i]);
    let f = |c: Vec<Result<T, Error>>| c@;
    assert(chunks.map_values(f) =~= chunks.take(i).map_values(f) + chunks.skip(i).map_values(f));
    lemma_flatten_concat(chunks.take(i).map_values(f), chunks.skip(i).map_values(f));
}

impl<T> StreamBuffer<T> {
    /// The layout strategy the buffer was made with.
    pub open spec fn has_strategy(&self, strategy: BufferStrategy) -> bool {
        match (self, strategy) {
            (StreamBuffer::Vector(_), BufferStrategy::Vector) => true,
            (StreamBuffer::Circular(_), BufferStrategy::Circular) => true,
            (StreamBuffer::Chunked { chunk_size, .. }, BufferStrategy::Chunked { chunk_size: c }) => *chunk_size == c,
            _ => false,
        }
    }

    /// Creates an empty buffer laid out according to `strategy`.
    pub fn new(strategy: &BufferStrategy, _chunk_size: Option<usize>) -> (r: Self)
        ensures
            r@ == Seq::<Result<T, Error>>::empty(),
            r.has_strategy(*strategy),
    {
        match strategy {
            BufferStrategy::Vector => StreamBuffer::Vector(Vec::new()),
            BufferStrategy::Circular => StreamBuffer::Circular(VecDeque::new()),
            BufferStrategy::Chunked { chunk_size } => {
                let r = StreamBuffer::Chunked {
                    chunks: Vec::new(),
                    current_chunk: Vec::new(),
                    chunk_size: *chunk_size,
                };
                proof {
                    let f = |c: Vec<Result<T, Error>>| c@;
                    assert(Seq::<Vec<Result<T, Error>>>::empty().map_values(f) =~= Seq::<Seq<Result<T, Error>>>::empty());
                    assert(r@ =~= Seq::<Result<T, Error>>::empty());
                }
                r
            },
        }
    }

    /// Appends an item at the end of the buffer.
    pub fn push(&mut self, item: Result<T, Error>)
        ensures
            final(self)@ == old(self)@.push(item),
            forall|s: BufferStrategy| old(self).has_strategy(s) ==> final(self).has_strategy(s),
    {
        match self {
            StreamBuffer::Vector(vec) => vec.push(item),
            StreamBuffer::Circular(deque) => deque.push_back(item),
            StreamBuffer::Chunked { chunks, current_chunk, chunk_size } => {
                let ghost old_chunks = chunks@;
                let ghost old_current = current_chunk@;
                if current_chunk.len() >= *chunk_size {
                    let mut new_chunk = Vec::new();
                    std::mem::swap(current_chunk, &mut new_chunk);
                    chunks.push(new_chunk);
                    current_chunk.clear();
                    proof {
                        lemma_chunk_items_push(old_chunks, new_chunk);
                    }
                }
                current_chunk.push(item);
                proof {
                    assert(chunk_items(chunks@) + current_chunk@ =~= chunk_items(old_chunks) + old_current.push(item));
                }
            },
        }
    }

    /// Removes and returns every buffered item, oldest first.
    pub fn drain_all(&mut self) -> (r: Vec<Result<T, Error>>)
        ensures
            r@ == old(self)@,
            final(self)@ == Seq::<Result<T, Error>>::empty(),
            forall|s: BufferStrategy| old(self).has_strategy(s) ==> final(self).has_strategy(s),
    {
        match self {
            StreamBuffer::Vector(vec) => {
                let mut out = Vec::new();
                std::mem::swap(vec, &mut out);
                out
            },
            StreamBuffer::Circular(deque) => {
                let ghost orig = deque@;
                let mut out: Vec<Result<T, Error>> = Vec::new();
                while deque.len() > 0
                    invariant
                        out@ + deque@ == orig,
                    decreases deque@.len(),
                {
                    let ghost before = deque@;
                    match deque.pop_front() {
                        Some(x) => {
                            out.push(x);
                            proof {
                                assert(out@ + deque@ =~= orig);
                            }
                        },
                        None => {},
                    }
                }
                proof {
                    assert(out@ =~= orig);
                }
                out
            },
            StreamBuffer::Chunked { chunks, current_chunk, .. } => {
                let ghost orig = chunk_items(chunks@) + current_chunk@;
                let mut all_items: Vec<Result<T, Error>> = Vec::new();
                let mut rest: Vec<Vec<Result<T, Error>>> = Vec::new();
                std::mem::swap(chunks, &mut rest);
                while rest.len() > 0
                    invariant
                        all_items@ + chunk_items(rest@) + current_chunk@ == orig,
                    decreases rest@.len(),
                {
                    let ghost before = rest@;
                    proof {
                        lemma_chunk_items_first(before);
                    }
                    let mut c = rest.remove(0);
                    all_items.append(&mut c);
                    proof {
                        assert(rest@ =~= before.subrange(1, before.len() as int));
                        assert(all_items@ + chunk_items(rest@) + current_chunk@ =~= orig);
                    }
                }
                all_items.append(current_chunk);
                proof {
                    let f = |c: Vec<Result<T, Error>>| c@;
                    assert(chunks@.map_values(f) =~= Seq::<Seq<Result<T, Error>>>::empty());
                    assert(chunk_items(rest@) =~= Seq::<Result<T, Error>>::empty()) by {
                        assert(rest@.map_values(f) =~= Seq::<Seq<Result<T, Error>>>::empty());
                    }
                    assert(all_items@ =~= orig);
                    assert(chunk_items(chunks@) + current_chunk@ =~= Seq::<Result<T, Error>>::empty());
                }
                all_items
            },
        }
    }

    /// Number of buffered items.
    pub fn len(&self) -> (r: usize)
        requires
            self@.len() <= usize::MAX,
        ensures
            r == self@.len(),
    {
        match self {
            StreamBuffer::Vector(vec) => vec.len(),
            StreamBuffer::Circular(deque) => deque.len(),
            StreamBuffer::Chunked { chunks, current_chunk, .. } => {
                let mut total: usize = 0;
                let mut i: usize = 0;
                let n = chunks.len();
                while i < n
                    invariant
                        n == chunks@.len(),
                        i <= n,
                        total == chunk_items(chunks@.take(i as int)).len(),
                        chunk_items(chunks@).len() + current_chunk@.len() <= usize::MAX,
                    decreases n - i,
                {
                    proof {
                        lemma_chunk_items_take(chunks@, i as int);
                        if i + 1 == n {
                            assert(chunks@.take(n as int) =~= chunks@);
                        } else {
                            lemma_chunk_items_take(chunks@, i as int + 1);
                        }
                    }
                    total = total + chunks[i].len();
                    i = i + 1;
                }
                proof {
                    assert(chunks@.take(n as int) =~= chunks@);
                }
                total + current_chunk.len()
            },
        }
    }

    /// Whether the buffer holds no items.
    pub fn is_empty(&self) -> (r: bool)
        requires
            self@.len() <= usize::MAX,
        ensures
            r == (self@.len() == 0),
    {
        self.len() == 0
    }
}

/// A buffer that starts empty (just made by [`StreamBuffer::new`] or just
/// drained) and then takes the pushes of `xs`, `bs[j + 1]` being `bs[j]`
/// after [`StreamBuffer::push`] of `xs[j]`, holds after `j` pushes exactly
/// the first `j` items pushed, so its [`StreamBuffer::len`] is `j`; and
/// `drained`, what [`StreamBuffer::drain_all`] then hands back, is exactly
/// the items pushed, in push order, none lost, duplicated or reordered.
pub proof fn law_pushes_then_drain<T>(
    bs: Seq<StreamBuffer<T>>,
    xs: Seq<Result<T, Error>>,
    drained: Seq<Result<T, Error>>,
)
    requires
        bs.len() == xs.len() + 1,
        bs[0]@ == Seq::<Result<T, Error>>::empty(),
        forall|j: int| 0 <= j < xs.len() ==> (#[trigger] bs[j + 1])@ == bs[j]@.push(xs[j]),
        drained == bs[xs.len() as int]@,
    ensures
        forall|j: int| 0 <= j <= xs.len() ==> (#[trigger] bs[j])@ == xs.take(j) && bs[j]@.len() == j,
        drained == xs,
{
    assert forall|j: int| 0 <= j <= xs.len() implies (#[trigger] bs[j])@ == xs.take(j) && bs[j]@.len() == j by {
        lemma_pushes_prefix(bs, xs, j);
    }
    lemma_pushes_prefix(bs, xs, xs.len() as int);
    assert(xs.take(xs.len() as int) =~= xs);
}

proof fn lemma_pushes_prefix<T>(bs: Seq<StreamBuffer<T>>, xs: Seq<Result<T, Error>>, j: int)
    requires
        bs.len() == xs.len() + 1,
        bs[0]@ == Seq::<Result<T, Error>>::empty(),
        forall|j: int| 0 <= j < xs.len() ==> (#[trigger] bs[j + 1])@ == bs[j]@.push(xs[j]),
        0 <= j <= xs.len(),
    ensures
        bs[j]@ == xs.take(j),
    decreases j,
{
    if j == 0 {
        assert(xs.take(0) =~= Seq::<Result<T, Error>>::empty());
    } else {
        lemma_pushes_prefix(bs, xs, j - 1);
        assert(bs[(j - 1) + 1]@ == bs[j - 1]@.push(xs[j - 1]));
        assert(xs.take(j) =~= xs.take(j - 1).push(xs[j - 1]));
    }
}

} // verus!
