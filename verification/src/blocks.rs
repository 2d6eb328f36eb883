//! Block ranges of the historical scan: the window that precedes the chain
//! head and its partition into bounded chunks.

use vstd::prelude::*;

verus! {

/// The number of blocks before the chain head that a scan covers by default.
pub const BACKFILL_WINDOW: u64 = 1000;

/// The largest number of blocks that one ranged query may span.
pub const CHUNK_BLOCKS: u64 = 499;

/// An inclusive range of block numbers.
#[derive(Clone, Copy, Debug, PartialEq, Eq, Structural)]
pub struct BlockRange {
    pub from_block: u64,
    pub to_block: u64,
}

impl BlockRange {
    /// Whether `block` lies in the range.
    pub open spec fn covers(self, block: int) -> bool {
        self.from_block <= block <= self.to_block
    }

    /// The number of blocks in the range, for a range with `from_block <= to_block`.
    pub open spec fn blocks(self) -> int {
        self.to_block - self.from_block + 1
    }
}

/// The first block of the window of `window` blocks that ends just before
/// `head`; block zero where the chain is shorter than the window.
pub open spec fn window_start(head: u64, window: u64) -> u64 {
    if head >= window {
        (head - window) as u64
    } else {
        0
    }
}

/// The last block of the chunk that starts at `from_block`, in a scan that
/// ends just before `head`.
pub open spec fn chunk_end(from_block: u64, head: u64) -> u64
    recommends
        from_block < head,
{
    if head - from_block > CHUNK_BLOCKS {
        (from_block + CHUNK_BLOCKS - 1) as u64
    } else {
        (head - 1) as u64
    }
}

/// The chunks that cover `[from_block, head)`, in ascending order.
pub open spec fn chunk_plan(from_block: u64, head: u64) -> Seq<BlockRange>
    decreases head - from_block,
{
    if from_block >= head {
        Seq::empty()
    } else {
        let to_block = chunk_end(from_block, head);
        seq![BlockRange { from_block, to_block }] + chunk_plan((to_block + 1) as u64, head)
    }
}

/// The block at which the historical scan begins.
pub fn backfill_start(head: u64, window: u64) -> (start: u64)
    ensures
        start == window_start(head, window),
        start <= head,
        head - start <= window,
{
    if head >= window {
        head - window
    } else {
        0
    }
}

/// The chunk that starts at `from_block` in a scan that ends just before
/// `head`; none where the scan has reached the head.
pub open spec fn chunk_from(from_block: u64, head: u64) -> Option<BlockRange> {
    if from_block < head {
        Some(BlockRange { from_block, to_block: chunk_end(from_block, head) })
    } else {
        None
    }
}

/// The chunk that starts at `from_block` in a scan that ends just before
/// `head`: at most `CHUNK_BLOCKS` blocks, and none beyond `head - 1`. There
/// is no chunk where the scan has reached the head.
pub fn chunk_at(from_block: u64, head: u64) -> (chunk: Option<BlockRange>)
    ensures
        chunk == chunk_from(from_block, head),
        chunk matches Some(range) ==> {
            &&& from_block <= range.to_block < head
            &&& range.blocks() <= CHUNK_BLOCKS
            &&& range.to_block == head - 1 || range.blocks() == CHUNK_BLOCKS
        },
{
    if from_block >= head {
        None
    } else if head - from_block > CHUNK_BLOCKS {
        Some(BlockRange { from_block, to_block: from_block + (CHUNK_BLOCKS - 1) })
    } else {
        Some(BlockRange { from_block, to_block: head - 1 })
    }
}

/// Every chunk of the historical scan for the given head, in query order.
pub fn plan_chunks(head: u64, window: u64) -> (chunks: Vec<BlockRange>)
    ensures
        chunks@ == chunk_plan(window_start(head, window), head),
{
    let start = backfill_start(head, window);
    let mut chunks: Vec<BlockRange> = Vec::new();
    let mut cursor: u64 = start;
    loop
        invariant
            start <= cursor <= head,
            chunks@ + chunk_plan(cursor, head) == chunk_plan(start, head),
        ensures
            chunks@ == chunk_plan(start, head),
        decreases head - cursor,
    {
        match chunk_at(cursor, head) {
            None => {
                proof {
                    assert(chunk_plan(cursor, head) == Seq::<BlockRange>::empty());
                    assert(chunks@ + Seq::<BlockRange>::empty() =~= chunks@);
                }
                break;
            },
            Some(chunk) => {
                proof {
                    let rest = chunk_plan((chunk.to_block + 1) as u64, head);
                    assert(chunk_plan(cursor, head) == seq![chunk] + rest);
                    assert(chunks@.push(chunk) + rest =~= chunks@ + (seq![chunk] + rest));
                }
                chunks.push(chunk);
                cursor = chunk.to_block + 1;
            },
        }
    }
    chunks
}

/// Each chunk of a plan starts within the scanned range, ends before the
/// head, and spans between one and `CHUNK_BLOCKS` blocks.
pub proof fn lemma_chunk_sizes(from_block: u64, head: u64)
    ensures
        forall|i: int|
            0 <= i < chunk_plan(from_block, head).len() ==> {
                let chunk = #[trigger] chunk_plan(from_block, head)[i];
                &&& from_block <= chunk.from_block <= chunk.to_block < head
                &&& 1 <= chunk.blocks() <= CHUNK_BLOCKS
            },
    decreases head - from_block,
{
    if from_block < head {
        let to_block = chunk_end(from_block, head);
        let next = (to_block + 1) as u64;
        lemma_chunk_sizes(next, head);
        let first = seq![BlockRange { from_block, to_block }];
        assert forall|i: int| 0 <= i < chunk_plan(from_block, head).len() implies {
            let chunk = #[trigger] chunk_plan(from_block, head)[i];
            &&& from_block <= chunk.from_block <= chunk.to_block < head
            &&& 1 <= chunk.blocks() <= CHUNK_BLOCKS
        } by {
            if i > 0 {
                assert(chunk_plan(from_block, head)[i] == chunk_plan(next, head)[i - 1]);
            } else {
                assert(chunk_plan(from_block, head)[0] == first[0]);
            }
        }
    }
}

/// A plan over a non-empty range starts at the range's first block, each
/// later chunk starts one block after its predecessor ends, and the last
/// chunk ends exactly one block before the head.
pub proof fn lemma_chunks_consecutive(from_block: u64, head: u64)
    requires
        from_block < head,
    ensures
        chunk_plan(from_block, head).len() >= 1,
        chunk_plan(from_block, head)[0].from_block == from_block,
        chunk_plan(from_block, head).last().to_block == head - 1,
        forall|i: int|
            0 <= i < chunk_plan(from_block, head).len() - 1 ==> (#[trigger] chunk_plan(
                from_block,
                head,
            )[i + 1]).from_block == chunk_plan(from_block, head)[i].to_block + 1,
    decreases head - from_block,
{
    let plan = chunk_plan(from_block, head);
    let to_block = chunk_end(from_block, head);
    let next = (to_block + 1) as u64;
    let rest = chunk_plan(next, head);
    let first = seq![BlockRange { from_block, to_block }];
    assert(plan == first + rest);
    assert(plan[0] == first[0]);
    if next < head {
        lemma_chunks_consecutive(next, head);
        assert(plan.last() == rest.last());
        assert forall|i: int| 0 <= i < plan.len() - 1 implies (#[trigger] plan[i + 1]).from_block
            == plan[i].to_block + 1 by {
            assert(plan[i + 1] == rest[i]);
            if i > 0 {
                assert(plan[i] == rest[i - 1]);
                assert(rest[(i - 1) + 1] == rest[i]);
            }
        }
    } else {
        assert(rest =~= Seq::<BlockRange>::empty());
        assert(plan =~= first);
    }
}

/// Every block of `[from_block, head)` lies in some chunk of the plan.
pub proof fn lemma_chunks_cover(from_block: u64, head: u64, block: int)
    requires
        from_block <= block < head,
    ensures
        exists|i: int|
            0 <= i < chunk_plan(from_block, head).len() && (#[trigger] chunk_plan(
                from_block,
                head,
            )[i]).covers(block),
    decreases head - from_block,
{
    let plan = chunk_plan(from_block, head);
    let to_block = chunk_end(from_block, head);
    let next = (to_block + 1) as u64;
    let rest = chunk_plan(next, head);
    let first = seq![BlockRange { from_block, to_block }];
    assert(plan == first + rest);
    if block <= to_block {
        assert(plan[0] == first[0]);
        assert(plan[0].covers(block));
    } else {
        lemma_chunks_cover(next, head, block);
        let j = choose|j: int| 0 <= j < rest.len() && (#[trigger] rest[j]).covers(block);
        assert(plan[j + 1] == rest[j]);
        assert(plan[j + 1].covers(block));
    }
}

/// The chunks of a plan ascend: a later chunk starts after an earlier one
/// ends, so no block lies in two chunks.
pub proof fn lemma_chunks_disjoint(from_block: u64, head: u64, i: int, j: int)
    requires
        0 <= i < j < chunk_plan(from_block, head).len(),
    ensures
        chunk_plan(from_block, head)[i].to_block < chunk_plan(from_block, head)[j].from_block,
    decreases head - from_block,
{
    let plan = chunk_plan(from_block, head);
    let to_block = chunk_end(from_block, head);
    let next = (to_block + 1) as u64;
    let rest = chunk_plan(next, head);
    let first = seq![BlockRange { from_block, to_block }];
    assert(plan == first + rest);
    assert(plan[j] == rest[j - 1]);
    if i == 0 {
        assert(plan[0] == first[0]);
        lemma_chunk_sizes(next, head);
    } else {
        assert(plan[i] == rest[i - 1]);
        lemma_chunks_disjoint(next, head, i - 1, j - 1);
    }
}

/// The scan of the window before `head` queries exactly the blocks of
/// `[head - window, head - 1]`: every such block lies in one chunk and in no
/// other, and no chunk reaches outside that range.
pub proof fn lemma_backfill_coverage(head: u64, window: u64, block: int)
    ensures
        window_start(head, window) <= block < head ==> exists|i: int|
            0 <= i < chunk_plan(window_start(head, window), head).len() && (#[trigger] chunk_plan(
                window_start(head, window),
                head,
            )[i]).covers(block),
        forall|i: int, j: int|
            0 <= i < chunk_plan(window_start(head, window), head).len() && 0 <= j < chunk_plan(
                window_start(head, window),
                head,
            ).len() && (#[trigger] chunk_plan(window_start(head, window), head)[i]).covers(block)
                && (#[trigger] chunk_plan(window_start(head, window), head)[j]).covers(block)
                ==> i == j,
        forall|i: int|
            0 <= i < chunk_plan(window_start(head, window), head).len() && (#[trigger] chunk_plan(
                window_start(head, window),
                head,
            )[i]).covers(block) ==> window_start(head, window) <= block < head,
{
    let start = window_start(head, window);
    let plan = chunk_plan(start, head);
    if start <= block < head {
        lemma_chunks_cover(start, head, block);
    }
    lemma_chunk_sizes(start, head);
    assert forall|i: int, j: int|
        0 <= i < plan.len() && 0 <= j < plan.len() && (#[trigger] plan[i]).covers(block) && (
        #[trigger] plan[j]).covers(block) implies i == j by {
        if i < j {
            lemma_chunks_disjoint(start, head, i, j);
        } else if j < i {
            lemma_chunks_disjoint(start, head, j, i);
        }
    }
}

/// No chunk of a scan spans more than `CHUNK_BLOCKS` blocks, and the last
/// chunk ends at `head - 1`.
pub proof fn lemma_chunk_sizing(head: u64, window: u64)
    ensures
        forall|i: int|
            0 <= i < chunk_plan(window_start(head, window), head).len() ==> (#[trigger] chunk_plan(
                window_start(head, window),
                head,
            )[i]).blocks() <= CHUNK_BLOCKS,
        chunk_plan(window_start(head, window), head).len() > 0 ==> chunk_plan(
            window_start(head, window),
            head,
        ).last().to_block == head - 1,
        chunk_plan(window_start(head, window), head).len() == 0 <==> window_start(head, window)
            == head,
{
    let start = window_start(head, window);
    lemma_chunk_sizes(start, head);
    if start < head {
        lemma_chunks_consecutive(start, head);
    }
}

} // verus!
