//! The decisions of partial aggregation: memory limits, when to spill, which
//! columns hold aggregate states, and which partitions are emitted.
use vstd::prelude::*;

verus! {

/// The hash table of a partial aggregation, or nothing once it was handed
/// on.
#[derive(Debug)]
pub enum HashTable<T> {
    MovedOut,
    AggregateHashTable(T),
}

impl<T> Default for HashTable<T> {
    fn default() -> (r: Self)
        ensures
            r is MovedOut,
    {
        HashTable::MovedOut
    }
}

impl<T> HashTable<T> {
    /// Hands the table on (to be spilled or emitted), leaving `MovedOut` in
    /// its place.
    pub fn take(&mut self) -> (r: HashTable<T>)
        ensures
            r == *old(self),
            *final(self) is MovedOut,
    {
        let mut out = HashTable::MovedOut;
        std::mem::swap(&mut out, self);
        out
    }
}

/// The memory limits of partial aggregation.
#[derive(Debug, PartialEq, Eq, Structural, Clone, Copy)]
pub struct AggregateSettings {
    pub max_memory_usage: usize,
    pub spilling_bytes_threshold_per_proc: usize,
}

/// The memory aggregation may use: unbounded when there is no memory limit
/// or no spilling ratio, else the limit scaled by the ratio.
pub open spec fn aggregate_memory_limit(
    max_memory_usage: u64,
    spilling_memory_ratio: u64,
    scaled_memory_usage: usize,
) -> usize {
    if max_memory_usage == 0 || spilling_memory_ratio == 0 {
        usize::MAX
    } else {
        scaled_memory_usage
    }
}

impl AggregateSettings {
    /// The limits from the settings: the maximum memory usage, the spilling
    /// ratio in percent, the limit scaled by that ratio (at most 100%), the
    /// spilling threshold per processor (0 for none), and the number of
    /// threads, which share the memory when no threshold is set.
    pub fn from_settings(
        max_threads: usize,
        max_memory_usage: u64,
        spilling_memory_ratio: u64,
        scaled_memory_usage: usize,
        spilling_bytes_threshold_per_proc: usize,
    ) -> (s: AggregateSettings)
        requires
            spilling_bytes_threshold_per_proc == 0 ==> max_threads > 0,
        ensures
            s.max_memory_usage == aggregate_memory_limit(
                max_memory_usage,
                spilling_memory_ratio,
                scaled_memory_usage,
            ),
            s.spilling_bytes_threshold_per_proc == (if spilling_bytes_threshold_per_proc == 0 {
                s.max_memory_usage / max_threads
            } else {
                spilling_bytes_threshold_per_proc
            }),
    {
        let max = if max_memory_usage == 0 || spilling_memory_ratio == 0 {
            usize::MAX
        } else {
            scaled_memory_usage
        };
        let threshold = if spilling_bytes_threshold_per_proc == 0 {
            max / max_threads
        } else {
            spilling_bytes_threshold_per_proc
        };
        AggregateSettings { max_memory_usage: max, spilling_bytes_threshold_per_proc: threshold }
    }

    /// Whether the hash table is spilled: it holds more than the threshold,
    /// or the process uses all the memory aggregation may use.
    pub fn should_spill(&self, allocated_bytes: usize, memory_usage: usize) -> (r: bool)
        ensures
            r == (allocated_bytes > self.spilling_bytes_threshold_per_proc || memory_usage
                >= self.max_memory_usage),
    {
        allocated_bytes > self.spilling_bytes_threshold_per_proc || memory_usage
            >= self.max_memory_usage
    }
}

/// A spilling threshold shared out between threads never exceeds the
/// memory aggregation may use.
pub proof fn lemma_shared_threshold_within_limit(max_memory_usage: usize, max_threads: usize)
    requires
        max_threads > 0,
    ensures
        max_memory_usage / max_threads <= max_memory_usage,
{
    assert(max_memory_usage / max_threads <= max_memory_usage) by (nonlinear_arith)
        requires
            max_threads > 0,
    ;
}

/// The columns that hold aggregate states in a block of an aggregating
/// index: the last `states_count` of its `num_columns` columns.
pub fn states_index(num_columns: usize, states_count: usize) -> (r: Vec<usize>)
    requires
        states_count <= num_columns,
    ensures
        r@ == Seq::new(states_count as nat, |i: int| (num_columns - states_count + i) as usize),
{
    let mut out: Vec<usize> = Vec::new();
    let mut c: usize = num_columns - states_count;
    while c < num_columns
        invariant
            num_columns - states_count <= c <= num_columns,
            out@ == Seq::new(
                (c - (num_columns - states_count)) as nat,
                |i: int| (num_columns - states_count + i) as usize,
            ),
        decreases num_columns - c,
    {
        out.push(c);
        c = c + 1;
        assert(out@ =~= Seq::new(
            (c - (num_columns - states_count)) as nat,
            |i: int| (num_columns - states_count + i) as usize,
        ));
    }
    out
}

/// The radix bits a new hash table starts with: the configured ones, or
/// the maximum when an aggregate function has a distinct combinator.
pub fn initial_radix_bits(has_distinct_combinator: bool, initial: u64, max_radix_bits: u64) -> (r: u64)
    ensures
        r == (if has_distinct_combinator {
            max_radix_bits
        } else {
            initial
        }),
{
    if has_distinct_combinator {
        max_radix_bits
    } else {
        initial
    }
}

/// What a block feeds the hash table besides its group columns.
#[derive(Debug, PartialEq, Eq)]
pub enum AggregateInputs {
    /// Ready aggregate states, in these columns.
    States(Vec<usize>),
    /// The arguments of the aggregate functions.
    Arguments,
}

/// What a block feeds the hash table: a block of an aggregating index holds
/// ready states in its last columns, any other block the arguments.
pub fn aggregate_inputs(is_agg_index_block: bool, num_columns: usize, states_count: usize) -> (r:
    AggregateInputs)
    requires
        is_agg_index_block ==> states_count <= num_columns,
    ensures
        is_agg_index_block ==> (r matches AggregateInputs::States(cols) && cols@ == Seq::new(
            states_count as nat,
            |i: int| (num_columns - states_count + i) as usize,
        )),
        !is_agg_index_block ==> r == AggregateInputs::Arguments,
{
    if is_agg_index_block {
        AggregateInputs::States(states_index(num_columns, states_count))
    } else {
        AggregateInputs::Arguments
    }
}

/// The buckets whose payload is not empty, in order.
pub open spec fn nonempty_buckets(lens: Seq<usize>) -> Seq<usize>
    decreases lens.len(),
{
    if lens.len() == 0 {
        Seq::empty()
    } else if lens.last() != 0 {
        nonempty_buckets(lens.drop_last()).push((lens.len() - 1) as usize)
    } else {
        nonempty_buckets(lens.drop_last())
    }
}

/// The buckets emitted when the aggregation finishes: those whose payload
/// holds rows, given the payloads' lengths by bucket.
pub fn finished_buckets(payload_lens: &Vec<usize>) -> (r: Vec<usize>)
    ensures
        r@ == nonempty_buckets(payload_lens@),
{
    let mut out: Vec<usize> = Vec::new();
    let mut b: usize = 0;
    while b < payload_lens.len()
        invariant
            b <= payload_lens@.len(),
            out@ == nonempty_buckets(payload_lens@.take(b as int)),
        decreases payload_lens.len() - b,
    {
        assert(payload_lens@.take(b + 1).drop_last() =~= payload_lens@.take(b as int));
        if payload_lens[b] != 0 {
            out.push(b);
        }
        b = b + 1;
    }
    assert(payload_lens@.take(payload_lens.len() as int) =~= payload_lens@);
    out
}

/// The number of partitions a spilled table is split into: two to the
/// power of the radix bits.
pub fn partition_count(max_radix_bits: u64) -> (n: u64)
    requires
        max_radix_bits < 64,
    ensures
        n == vstd::arithmetic::power2::pow2(max_radix_bits as nat),
{
    proof {
        vstd::bits::lemma_u64_pow2_no_overflow(max_radix_bits as nat);
        vstd::bits::lemma_u64_shl_is_mul(1, max_radix_bits);
    }
    let n = 1u64 << max_radix_bits;
    n
}

/// What partial aggregation has read so far.
#[derive(Debug, PartialEq, Eq, Structural, Clone, Copy)]
pub struct AggregateProgress {
    pub processed_bytes: usize,
    pub processed_rows: usize,
    /// Whether a first block was seen.
    pub started: bool,
}

impl AggregateProgress {
    pub fn new() -> (p: AggregateProgress)
        ensures
            p.processed_bytes == 0,
            p.processed_rows == 0,
            !p.started,
    {
        AggregateProgress { processed_bytes: 0, processed_rows: 0, started: false }
    }

    /// Counts a block of `bytes` bytes and `rows` rows.
    pub fn record_block(&mut self, bytes: usize, rows: usize)
        requires
            old(self).processed_bytes + bytes <= usize::MAX,
            old(self).processed_rows + rows <= usize::MAX,
        ensures
            final(self).processed_bytes == old(self).processed_bytes + bytes,
            final(self).processed_rows == old(self).processed_rows + rows,
            final(self).started,
            block_recorded(*old(self), *final(self), (bytes, rows)),
    {
        self.processed_bytes = self.processed_bytes + bytes;
        self.processed_rows = self.processed_rows + rows;
        self.started = true;
    }
}

/// One block of `block.0` bytes and `block.1` rows counted: `after` adds
/// it to `before` and has seen a first block.
pub open spec fn block_recorded(
    before: AggregateProgress,
    after: AggregateProgress,
    block: (usize, usize),
) -> bool {
    &&& after.processed_bytes == before.processed_bytes + block.0
    &&& after.processed_rows == before.processed_rows + block.1
    &&& after.started
}

/// The bytes of the blocks, added up.
pub open spec fn total_bytes(blocks: Seq<(usize, usize)>) -> nat
    decreases blocks.len(),
{
    if blocks.len() == 0 {
        0
    } else {
        total_bytes(blocks.drop_last()) + blocks.last().0 as nat
    }
}

/// The rows of the blocks, added up.
pub open spec fn total_rows(blocks: Seq<(usize, usize)>) -> nat
    decreases blocks.len(),
{
    if blocks.len() == 0 {
        0
    } else {
        total_rows(blocks.drop_last()) + blocks.last().1 as nat
    }
}

/// Counting blocks one after the other from a new progress gives the sums
/// of their bytes and rows; a first block is seen exactly when there was a
/// block, and once seen it stays seen.
pub proof fn lemma_progress_totals(states: Seq<AggregateProgress>, blocks: Seq<(usize, usize)>)
    requires
        states.len() == blocks.len() + 1,
        states[0].processed_bytes == 0,
        states[0].processed_rows == 0,
        !states[0].started,
        forall|j: int|
            #![trigger blocks[j]]
            0 <= j < blocks.len() ==> block_recorded(states[j], states[j + 1], blocks[j]),
    ensures
        states.last().processed_bytes == total_bytes(blocks),
        states.last().processed_rows == total_rows(blocks),
        states.last().started <==> blocks.len() > 0,
        forall|j: int| 1 <= j < states.len() ==> (#[trigger] states[j]).started,
    decreases blocks.len(),
{
    if blocks.len() > 0 {
        let n = blocks.len() - 1;
        let ss = states.drop_last();
        let bs = blocks.drop_last();
        assert forall|j: int| #![trigger bs[j]] 0 <= j < bs.len() implies block_recorded(
            ss[j],
            ss[j + 1],
            bs[j],
        ) by {
            assert(bs[j] == blocks[j]);
        }
        lemma_progress_totals(ss, bs);
        assert(block_recorded(states[n], states[n + 1], blocks[n]));
        assert forall|j: int| 1 <= j < states.len() implies (#[trigger] states[j]).started by {
            if j < states.len() - 1 {
                assert(states[j] == ss[j]);
            } else {
                assert(block_recorded(states[j - 1], states[j], blocks[j - 1]));
            }
        }
    }
}

} // verus!
