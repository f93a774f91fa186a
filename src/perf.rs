use vstd::prelude::*;

verus! {

/// Data layout code of a counter that yields a single value.
pub const PERF_SINGLE_COUNTER: u32 = 1;

/// The counter data layout of a single value per counter.
#[derive(Copy, Clone, Debug, PartialEq, Eq, Structural)]
pub struct SingleCounter;

impl SingleCounter {
    /// The layout code that the blocks of such a query must carry.
    pub fn type_code(&self) -> (r: u32)
        ensures
            r == PERF_SINGLE_COUNTER,
    {
        PERF_SINGLE_COUNTER
    }
}

/// One counter block of a query result, as returned by the system.
#[derive(Copy, Clone, Debug, PartialEq, Eq, Structural)]
pub struct CounterBlock {
    /// Status of the fetch; zero on success.
    pub status: u32,
    /// Data layout code of the block.
    pub counter_type: u32,
    /// Size of the value, in bytes.
    pub data_size: u32,
    pub value: u64,
}

/// Why a query result was rejected.
#[derive(Copy, Clone, Debug, PartialEq, Eq, Structural)]
pub enum PerfError {
    /// The header announced another number of counters than was asked for.
    CounterCount,
    /// A counter's fetch failed with this status.
    Status(u32),
    /// The block at this position has another layout than asked for.
    WrongType(usize),
    /// The block at this position holds a value of another size.
    WrongSize(usize),
    /// A counter's index points past the blocks.
    BadIndex,
}

/// Why an instance name filter was refused.
#[derive(Copy, Clone, Debug, PartialEq, Eq, Structural)]
pub enum FilterError {
    /// Empty or `*`: the filter must pick out a single instance.
    NotSingle,
}

/// The first block check that fails, in block order: status, then type, then size.
pub open spec fn first_bad_block(blocks: Seq<CounterBlock>, ty: u32, size: u32, from: int) -> Option<PerfError>
    decreases blocks.len() - from,
{
    if from >= blocks.len() || from < 0 {
        None
    } else if blocks[from].status != 0 {
        Some(PerfError::Status(blocks[from].status))
    } else if blocks[from].counter_type != ty {
        Some(PerfError::WrongType(from as usize))
    } else if blocks[from].data_size != size {
        Some(PerfError::WrongSize(from as usize))
    } else {
        first_bad_block(blocks, ty, size, from + 1)
    }
}

/// The values of a query result, ordered as the counters were added.
pub open spec fn counter_values(
    announced: u32,
    blocks: Seq<CounterBlock>,
    indexes: Seq<u32>,
    ty: u32,
    size: u32,
) -> Result<Seq<u64>, PerfError> {
    if announced != blocks.len() || indexes.len() != blocks.len() {
        Err(PerfError::CounterCount)
    } else if first_bad_block(blocks, ty, size, 0) is Some {
        Err(first_bad_block(blocks, ty, size, 0)->0)
    } else if exists|i: int| 0 <= i < indexes.len() && indexes[i] >= blocks.len() {
        Err(PerfError::BadIndex)
    } else {
        Ok(Seq::new(indexes.len(), |i: int| blocks[indexes[i] as int].value))
    }
}

/// Checks the blocks of a query result for the counters at `indexes` and
/// returns their values in the order the counters were added; see `counter_values`.
pub fn select_counter_values(
    announced: u32,
    blocks: &Vec<CounterBlock>,
    indexes: &Vec<u32>,
    ty: u32,
    size: u32,
) -> (r: Result<Vec<u64>, PerfError>)
    ensures
        r is Ok ==> counter_values(announced, blocks@, indexes@, ty, size) == Ok::<Seq<u64>, PerfError>(r->Ok_0@),
        r is Err ==> counter_values(announced, blocks@, indexes@, ty, size) == Err::<Seq<u64>, PerfError>(r->Err_0),
{
    if announced as u64 != blocks.len() as u64 || indexes.len() != blocks.len() {
        return Err(PerfError::CounterCount);
    }
    assert(announced == blocks@.len());
    let mut i: usize = 0;
    while i < blocks.len()
        invariant
            i <= blocks@.len(),
            announced == blocks@.len(),
            indexes@.len() == blocks@.len(),
            first_bad_block(blocks@, ty, size, 0) == first_bad_block(blocks@, ty, size, i as int),
        decreases blocks@.len() - i,
    {
        let b = blocks[i];
        assert(b == blocks@[i as int]);
        if b.status != 0 {
            return Err(PerfError::Status(b.status));
        }
        if b.counter_type != ty {
            return Err(PerfError::WrongType(i));
        }
        if b.data_size != size {
            return Err(PerfError::WrongSize(i));
        }
        i = i + 1;
    }
    assert(first_bad_block(blocks@, ty, size, i as int) is None);
    let mut values: Vec<u64> = Vec::new();
    let mut k: usize = 0;
    while k < indexes.len()
        invariant
            first_bad_block(blocks@, ty, size, 0) is None,
            announced == blocks@.len(),
            k <= indexes@.len(),
            indexes@.len() == blocks@.len(),
            values@.len() == k,
            forall|j: int| 0 <= j < k ==> indexes@[j] < blocks@.len(),
            forall|j: int| 0 <= j < k ==> values@[j] == blocks@[indexes@[j] as int].value,
        decreases indexes@.len() - k,
    {
        let index = indexes[k];
        if index as u64 >= blocks.len() as u64 {
            assert(indexes@[k as int] >= blocks@.len());
            return Err(PerfError::BadIndex);
        }
        values.push(blocks[index as usize].value);
        k = k + 1;
    }
    proof {
        assert(values@ =~= Seq::new(indexes@.len(), |i: int| blocks@[indexes@[i] as int].value));
        assert(!exists|i: int| 0 <= i < indexes@.len() && indexes@[i] >= blocks@.len());
    }
    Ok(values)
}

/// Checks an instance name filter and turns its bytes into UTF-16 code
/// units, one per byte.
pub fn instance_filter_units(filter: &Vec<u8>) -> (r: Result<Vec<u16>, FilterError>)
    ensures
        (filter@.len() == 0 || filter@ == seq![42u8]) ==> r == Err::<Vec<u16>, FilterError>(FilterError::NotSingle),
        !(filter@.len() == 0 || filter@ == seq![42u8]) ==> (r is Ok && r->Ok_0@ == Seq::new(filter@.len(), |i: int| filter@[i] as u16)),
{
    if filter.len() == 0 || (filter.len() == 1 && filter[0] == 42u8) {
        proof {
            if filter@.len() == 1 && filter@[0] == 42u8 {
                assert(filter@ =~= seq![42u8]);
            }
        }
        return Err(FilterError::NotSingle);
    }
    proof {
        if filter@ == seq![42u8] {
            assert(filter@.len() == 1 && filter@[0] == 42u8);
        }
    }
    let mut units: Vec<u16> = Vec::new();
    let mut i: usize = 0;
    while i < filter.len()
        invariant
            i <= filter@.len(),
            units@.len() == i,
            forall|j: int| 0 <= j < i ==> units@[j] == filter@[j] as u16,
        decreases filter@.len() - i,
    {
        units.push(filter[i] as u16);
        i = i + 1;
    }
    assert(units@ =~= Seq::new(filter@.len(), |i: int| filter@[i] as u16));
    Ok(units)
}

} // verus!
