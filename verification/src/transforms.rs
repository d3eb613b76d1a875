//! Small pipeline transforms: the block queue of an expression scan, and
//! when stream columns are added to a block.
use vstd::prelude::*;
use std::collections::VecDeque;
use crate::error::ErrorCode;

verus! {

/// The blocks an expression scan has made and not yet handed on, oldest
/// first.
#[derive(Debug)]
pub struct TransformExpressionScan<B> {
    output_buffer: VecDeque<B>,
}

impl<B> TransformExpressionScan<B> {
    /// The blocks waiting, oldest first.
    pub closed spec fn pending(&self) -> Seq<B> {
        self.output_buffer@
    }

    pub fn create() -> (t: Self)
        ensures
            t.pending().len() == 0,
    {
        TransformExpressionScan { output_buffer: VecDeque::new() }
    }

    /// Queues the blocks made from one input block, one per row of values,
    /// in order.
    pub fn consume(&mut self, blocks: Vec<B>)
        ensures
            final(self).pending() == old(self).pending() + blocks@,
    {
        let ghost start = self.output_buffer@;
        let ghost all = blocks@;
        assert(all.len() == blocks.len());
        let mut rest = blocks;
        let mut taken: usize = 0;
        while rest.len() > 0
            invariant
                all.len() == taken + rest@.len(),
                all.len() <= usize::MAX,
                rest@ == all.subrange(taken as int, all.len() as int),
                self.output_buffer@ == start + all.take(taken as int),
            decreases rest.len(),
        {
            let b = rest.remove(0);
            self.output_buffer.push_back(b);
            taken = taken + 1;
            assert(rest@ =~= all.subrange(taken as int, all.len() as int));
            assert(self.output_buffer@ =~= start + all.take(taken as int));
        }
        assert(all.take(taken as int) =~= all);
    }

    /// Hands on the oldest waiting block, if any.
    pub fn transform(&mut self) -> (r: Option<B>)
        ensures
            old(self).pending().len() == 0 ==> r is None,
            old(self).pending().len() == 0 ==> final(self).pending() == old(self).pending(),
            old(self).pending().len() > 0 ==> r == Some(old(self).pending()[0]),
            old(self).pending().len() > 0 ==> final(self).pending() == old(self).pending().drop_first(),
    {
        if self.output_buffer.len() > 0 {
            self.output_buffer.pop_front()
        } else {
            None
        }
    }
}

/// Blocks come out of an expression scan in the order they were queued:
/// after queueing `a` then `b` on an empty queue, the queue is `a` then `b`.
pub proof fn lemma_expression_scan_fifo<B>(a: Seq<B>, b: Seq<B>)
    ensures
        (Seq::<B>::empty() + a + b).take(a.len() as int) == a,
        (Seq::<B>::empty() + a + b).skip(a.len() as int) == b,
{
    assert((Seq::<B>::empty() + a + b).take(a.len() as int) =~= a);
    assert((Seq::<B>::empty() + a + b).skip(a.len() as int) =~= b);
}

/// What is done with a block passing the stream-columns transform.
#[derive(Debug, PartialEq, Eq, Structural, Clone, Copy)]
pub enum StreamColumnsStep {
    /// The block goes on as it is.
    PassOn,
    /// The stream columns are computed from the block's stream metadata.
    AddColumns,
}

/// The meta a block may carry into the stream-columns transform.
#[derive(Debug, PartialEq, Eq, Structural, Clone, Copy)]
pub enum BlockMeta {
    /// Stream-column metadata.
    StreamColumns,
    /// Metadata of another kind.
    Other,
}

/// Decides what happens to a block: an empty block or one without meta
/// passes on; stream meta adds the columns; any other meta is an internal
/// error.
pub fn stream_columns_step(block_is_empty: bool, meta: Option<BlockMeta>) -> (r: Result<
    StreamColumnsStep,
    ErrorCode,
>)
    ensures
        block_is_empty || meta is None ==> r == Ok::<StreamColumnsStep, ErrorCode>(
            StreamColumnsStep::PassOn,
        ),
        !block_is_empty && meta == Some(BlockMeta::StreamColumns) ==> r == Ok::<
            StreamColumnsStep,
            ErrorCode,
        >(StreamColumnsStep::AddColumns),
        !block_is_empty && meta == Some(BlockMeta::Other) ==> (r matches Err(
            ErrorCode::Internal(m),
        ) && m@ == "It's a bug"@),
{
    if block_is_empty {
        return Ok(StreamColumnsStep::PassOn);
    }
    match meta {
        None => Ok(StreamColumnsStep::PassOn),
        Some(BlockMeta::StreamColumns) => Ok(StreamColumnsStep::AddColumns),
        Some(BlockMeta::Other) => Err(ErrorCode::Internal("It's a bug".to_owned())),
    }
}

} // verus!
