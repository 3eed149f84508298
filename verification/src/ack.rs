//! The acknowledgement book of one streaming call: which chunk ids have been
//! handed to the client, and which messages of the bus each of them stands
//! for.

use vstd::prelude::*;

verus! {

/// The messages delivered under one chunk id.
#[derive(Debug, PartialEq, Eq)]
pub struct Chunk<M> {
    pub id: String,
    pub messages: Vec<M>,
}

/// Whether some chunk of `chunks` carries `id`.
pub open spec fn holds_chunk<M>(chunks: Seq<Chunk<M>>, id: Seq<char>) -> bool {
    exists|i: int| 0 <= i < chunks.len() && (#[trigger] chunks[i]).id@ == id
}

/// Where the chunk with `id` stands in `chunks`.
pub open spec fn chunk_position<M>(chunks: Seq<Chunk<M>>, id: Seq<char>) -> int {
    choose|i: int| 0 <= i < chunks.len() && (#[trigger] chunks[i]).id@ == id
}

/// No two chunks of `chunks` carry the same id.
pub open spec fn distinct_ids<M>(chunks: Seq<Chunk<M>>) -> bool {
    forall|i: int, j: int|
        0 <= i < j < chunks.len() ==> (#[trigger] chunks[i]).id@ != (#[trigger] chunks[j]).id@
}

/// The chunks as a map from chunk id to the messages delivered under it.
pub open spec fn chunk_map<M>(chunks: Seq<Chunk<M>>) -> Map<Seq<char>, Seq<M>> {
    Map::new(
        |id: Seq<char>| holds_chunk(chunks, id),
        |id: Seq<char>| chunks[chunk_position(chunks, id)].messages@,
    )
}

proof fn lemma_position_is_unique<M>(chunks: Seq<Chunk<M>>, at: int)
    requires
        distinct_ids(chunks),
        0 <= at < chunks.len(),
    ensures
        holds_chunk(chunks, chunks[at].id@),
        chunk_position(chunks, chunks[at].id@) == at,
        chunk_map(chunks)[chunks[at].id@] == chunks[at].messages@,
{
    let id = chunks[at].id@;
    assert(chunks[at].id@ == id);
    let found = chunk_position(chunks, id);
    assert(0 <= found < chunks.len() && chunks[found].id@ == id);
    if found < at {
        assert(chunks[found].id@ != chunks[at].id@);
    } else if at < found {
        assert(chunks[at].id@ != chunks[found].id@);
    }
}

proof fn lemma_map_after_removal<M>(chunks: Seq<Chunk<M>>, at: int)
    requires
        distinct_ids(chunks),
        0 <= at < chunks.len(),
    ensures
        distinct_ids(chunks.remove(at)),
        !holds_chunk(chunks.remove(at), chunks[at].id@),
        chunk_map(chunks.remove(at)) == chunk_map(chunks).remove(chunks[at].id@),
{
    let rest = chunks.remove(at);
    let id = chunks[at].id@;
    assert forall|i: int, j: int| 0 <= i < j < rest.len() implies (#[trigger] rest[i]).id@ != (
    #[trigger] rest[j]).id@ by {
        let before_i = if i < at { i } else { i + 1 };
        let before_j = if j < at { j } else { j + 1 };
        assert(rest[i] == chunks[before_i]);
        assert(rest[j] == chunks[before_j]);
        assert(chunks[before_i].id@ != chunks[before_j].id@);
    }
    assert forall|i: int| 0 <= i < rest.len() implies (#[trigger] rest[i]).id@ != id by {
        let before = if i < at { i } else { i + 1 };
        assert(rest[i] == chunks[before]);
        if before < at {
            assert(chunks[before].id@ != chunks[at].id@);
        } else {
            assert(chunks[at].id@ != chunks[before].id@);
        }
    }
    assert forall|key: Seq<char>| #[trigger]
        chunk_map(rest).contains_key(key) == chunk_map(chunks).remove(id).contains_key(key) by {
        if holds_chunk(rest, key) {
            let i = chunk_position(rest, key);
            let before = if i < at { i } else { i + 1 };
            assert(rest[i] == chunks[before]);
            assert(chunks[before].id@ == key);
        }
        if holds_chunk(chunks, key) && key != id {
            let before = chunk_position(chunks, key);
            let i = if before < at { before } else { before - 1 };
            assert(rest[i] == chunks[before]);
            assert(rest[i].id@ == key);
        }
    }
    assert forall|key: Seq<char>| #[trigger] chunk_map(rest).contains_key(key) implies chunk_map(
        rest,
    )[key] == chunk_map(chunks).remove(id)[key] by {
        let i = chunk_position(rest, key);
        let before = if i < at { i } else { i + 1 };
        assert(rest[i] == chunks[before]);
        lemma_position_is_unique(chunks, before);
    }
    assert(chunk_map(rest) =~= chunk_map(chunks).remove(id));
}

proof fn lemma_map_after_push<M>(chunks: Seq<Chunk<M>>, chunk: Chunk<M>)
    requires
        distinct_ids(chunks),
        !holds_chunk(chunks, chunk.id@),
    ensures
        distinct_ids(chunks.push(chunk)),
        chunk_map(chunks.push(chunk)) == chunk_map(chunks).insert(chunk.id@, chunk.messages@),
{
    let more = chunks.push(chunk);
    let last = chunks.len() as int;
    assert forall|i: int, j: int| 0 <= i < j < more.len() implies (#[trigger] more[i]).id@ != (
    #[trigger] more[j]).id@ by {
        assert(more[i] == chunks[i]);
        if j < last {
            assert(more[j] == chunks[j]);
            assert(chunks[i].id@ != chunks[j].id@);
        } else {
            assert(chunks[i].id@ != chunk.id@);
        }
    }
    assert(more[last] == chunk);
    lemma_position_is_unique(more, last);
    assert forall|key: Seq<char>| #[trigger]
        chunk_map(more).contains_key(key) == chunk_map(chunks).insert(
            chunk.id@,
            chunk.messages@,
        ).contains_key(key) by {
        if holds_chunk(more, key) {
            let i = chunk_position(more, key);
            if i < last {
                assert(more[i] == chunks[i]);
                assert(chunks[i].id@ == key);
            }
        }
        if holds_chunk(chunks, key) {
            let i = chunk_position(chunks, key);
            assert(more[i] == chunks[i]);
            assert(more[i].id@ == key);
        }
    }
    assert forall|key: Seq<char>| #[trigger] chunk_map(more).contains_key(key) implies chunk_map(
        more,
    )[key] == chunk_map(chunks).insert(chunk.id@, chunk.messages@)[key] by {
        let i = chunk_position(more, key);
        if i < last {
            assert(more[i] == chunks[i]);
            lemma_position_is_unique(chunks, i);
        }
    }
    assert(chunk_map(more) =~= chunk_map(chunks).insert(chunk.id@, chunk.messages@));
}

/// The chunks a streaming call has handed out and not yet seen acknowledged.
pub struct AckBook<M> {
    chunks: Vec<Chunk<M>>,
}

impl<M> View for AckBook<M> {
    type V = Map<Seq<char>, Seq<M>>;

    /// The book as a map from chunk id to the messages delivered under it.
    closed spec fn view(&self) -> Map<Seq<char>, Seq<M>> {
        chunk_map(self.chunks@)
    }
}

impl<M> AckBook<M> {
    /// No chunk id stands in the book twice.
    #[verifier::type_invariant]
    spec fn distinct(&self) -> bool {
        distinct_ids(self.chunks@)
    }

    /// A book without chunks.
    pub fn new() -> (book: AckBook<M>)
        ensures
            book@ == Map::<Seq<char>, Seq<M>>::empty(),
    {
        let book = AckBook { chunks: Vec::new() };
        assert(book@ =~= Map::<Seq<char>, Seq<M>>::empty());
        book
    }

    fn position(&self, chunk_id: &String) -> (position: Option<usize>)
        ensures
            match position {
                Some(at) => at < self.chunks@.len() && self.chunks@[at as int].id@ == chunk_id@,
                None => !holds_chunk(self.chunks@, chunk_id@),
            },
    {
        let mut at: usize = 0;
        while at < self.chunks.len()
            invariant
                at <= self.chunks@.len(),
                forall|i: int| 0 <= i < at ==> (#[trigger] self.chunks@[i]).id@ != chunk_id@,
            decreases self.chunks@.len() - at,
        {
            if self.chunks[at].id == *chunk_id {
                return Some(at);
            }
            at += 1;
        }
        None
    }

    /// Whether the chunk id has been handed out and not been acknowledged.
    pub fn contains(&self, chunk_id: &String) -> (known: bool)
        ensures
            known == self@.contains_key(chunk_id@),
    {
        self.position(chunk_id).is_some()
    }

    /// Whether no chunk waits for its acknowledgement.
    pub fn is_empty(&self) -> (empty: bool)
        ensures
            empty == (self@ == Map::<Seq<char>, Seq<M>>::empty()),
    {
        let empty = self.chunks.len() == 0;
        proof {
            if empty {
                assert(self@ =~= Map::<Seq<char>, Seq<M>>::empty());
            } else {
                assert(self.chunks@[0].id@ == self.chunks@[0].id@);
                assert(self@.contains_key(self.chunks@[0].id@));
            }
        }
        empty
    }

    /// Records the messages delivered under a chunk id. An id that is in the
    /// book already stands for the new messages from then on.
    pub fn record(&mut self, chunk_id: String, messages: Vec<M>)
        ensures
            final(self)@ == old(self)@.insert(chunk_id@, messages@),
    {
        proof {
            use_type_invariant(&*self);
        }
        let found = self.position(&chunk_id);
        let mut chunks: Vec<Chunk<M>> = Vec::new();
        core::mem::swap(&mut self.chunks, &mut chunks);
        if let Some(at) = found {
            proof {
                lemma_map_after_removal(chunks@, at as int);
            }
            chunks.remove(at);
        }
        let chunk = Chunk { id: chunk_id, messages };
        proof {
            lemma_map_after_push(chunks@, chunk);
            assert(old(self)@.remove(chunk.id@).insert(chunk.id@, chunk.messages@) =~= old(
                self,
            )@.insert(chunk.id@, chunk.messages@));
        }
        chunks.push(chunk);
        self.chunks = chunks;
    }

    /// Takes a chunk out of the book and hands back the messages delivered
    /// under its id, each as often as it was recorded and in the order of
    /// delivery. Of an id that is not in the book nothing is known: the book
    /// stays as it is.
    pub fn release(&mut self, chunk_id: &String) -> (released: Option<Vec<M>>)
        ensures
            released.is_some() == old(self)@.contains_key(chunk_id@),
            match released {
                Some(messages) => messages@ == old(self)@[chunk_id@] && final(self)@ == old(
                    self,
                )@.remove(chunk_id@),
                None => final(self)@ == old(self)@,
            },
    {
        proof {
            use_type_invariant(&*self);
        }
        match self.position(chunk_id) {
            Some(at) => {
                let mut chunks: Vec<Chunk<M>> = Vec::new();
                core::mem::swap(&mut self.chunks, &mut chunks);
                proof {
                    lemma_map_after_removal(chunks@, at as int);
                    lemma_position_is_unique(chunks@, at as int);
                }
                let chunk = chunks.remove(at);
                self.chunks = chunks;
                Some(chunk.messages)
            },
            None => None,
        }
    }
}

/// A chunk is acknowledged at most once: once its id has been released, the
/// book no longer knows it, and every other chunk is still there.
pub proof fn lemma_released_chunk_is_gone<M>(book: Map<Seq<char>, Seq<M>>, chunk_id: Seq<char>)
    ensures
        !book.remove(chunk_id).contains_key(chunk_id),
        forall|other: Seq<char>|
            other != chunk_id ==> (#[trigger] book.remove(chunk_id).contains_key(other)
                == book.contains_key(other)),
        forall|other: Seq<char>|
            other != chunk_id && book.contains_key(other) ==> #[trigger] book.remove(
                chunk_id,
            )[other] == book[other],
{
}

} // verus!
