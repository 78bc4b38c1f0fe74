//! Device memory allocations: a table of live allocations, each a buffer
//! bound to a block of device memory of a compatible, host-visible type.
use vstd::prelude::*;
use crate::driver::{BufferUsage, DriverCommand, DriverReply, MemoryRequirements, MemoryType, Step};
use crate::result_code::{
    compared, labelled, result_code_description, result_code_message, result_code_name,
    result_code_text,
};

verus! {

/// Memory-related errors.
#[derive(Debug)]
pub enum MemoryError {
    AllocationFailed(String),
    NotFound(String),
    MapFailed(String),
    InvalidMemoryType(String),
    /// A driver failure, by result code, that no other variant classifies.
    VulkanError(i32),
}

pub type MemoryResult<T> = Result<T, MemoryError>;

impl MemoryError {
    /// The message that describes the error.
    pub open spec fn text(&self) -> Seq<char> {
        match self {
            MemoryError::AllocationFailed(m) => "Memory allocation failed: "@ + m@,
            MemoryError::NotFound(m) => "Memory not found: "@ + m@,
            MemoryError::MapFailed(m) => "Memory mapping failed: "@ + m@,
            MemoryError::InvalidMemoryType(m) => "Invalid memory type: "@ + m@,
            MemoryError::VulkanError(code) => "Vulkan error: "@ + result_code_name(*code as int),
        }
    }

    pub fn to_string(&self) -> (r: String)
        ensures
            r@ == self.text(),
    {
        match self {
            MemoryError::AllocationFailed(m) => labelled("Memory allocation failed: ", m.as_str()),
            MemoryError::NotFound(m) => labelled("Memory not found: ", m.as_str()),
            MemoryError::MapFailed(m) => labelled("Memory mapping failed: ", m.as_str()),
            MemoryError::InvalidMemoryType(m) => labelled("Invalid memory type: ", m.as_str()),
            MemoryError::VulkanError(code) => {
                let name = result_code_text(*code);
                labelled("Vulkan error: ", name.as_str())
            },
        }
    }
}

/// One live allocation.
#[derive(Clone, Debug)]
pub struct AllocationInfo {
    pub handle_id: String,
    /// The size that was asked for; the memory block may be larger.
    pub size: u64,
    pub device_memory: u64,
    pub buffer: u64,
    /// The host address of the mapping, while the memory is mapped.
    pub mapped_ptr: Option<usize>,
}

/// The commands that give an allocation's resources back: unmap first if it
/// is mapped, then destroy the buffer and free the memory.
pub open spec fn release_commands(info: AllocationInfo) -> Seq<DriverCommand> {
    let tail = seq![
        DriverCommand::DestroyBuffer { buffer: info.buffer },
        DriverCommand::FreeMemory { memory: info.device_memory },
    ];
    if info.mapped_ptr is Some {
        seq![DriverCommand::UnmapMemory { memory: info.device_memory }] + tail
    } else {
        tail
    }
}

/// The release commands of every entry, in order.
pub open spec fn releases(entries: Seq<AllocationInfo>) -> Seq<DriverCommand>
    decreases entries.len(),
{
    if entries.len() == 0 {
        seq![]
    } else {
        releases(entries.drop_last()) + release_commands(entries.last())
    }
}

/// No two entries share a handle.
pub open spec fn unique_ids(entries: Seq<AllocationInfo>) -> bool {
    forall|i: int, j: int|
        0 <= i < j < entries.len() ==> entries[i].handle_id@ != entries[j].handle_id@
}

/// The entries as a map from handle to allocation.
pub open spec fn table_of(entries: Seq<AllocationInfo>) -> Map<Seq<char>, AllocationInfo> {
    Map::new(
        |k: Seq<char>| exists|i: int| 0 <= i < entries.len() && entries[i].handle_id@ == k,
        |k: Seq<char>|
            entries[choose|i: int| 0 <= i < entries.len() && entries[i].handle_id@ == k],
    )
}

/// Whether a buffer's memory-type bitmask holds the type `index`.
pub open spec fn has_type_bit(bits: u32, index: int) -> bool {
    0 <= index < 32 && (bits & (1u32 << (index as u32))) != 0
}

/// A memory type the buffer may be bound to and the host can map.
pub open spec fn acceptable_type(types: Seq<MemoryType>, bits: u32, index: int) -> bool {
    0 <= index < types.len() && has_type_bit(bits, index) && types[index].host_visible
}

/// The lowest-indexed acceptable memory type.
pub open spec fn lowest_acceptable(types: Seq<MemoryType>, bits: u32, index: int) -> bool {
    acceptable_type(types, bits, index) && forall|j: int|
        0 <= j < index ==> !acceptable_type(types, bits, j)
}

/// Check if a memory type matches a buffer's requirements: the buffer may
/// be bound to it and it is host-visible.
pub fn matches_memory_requirements(
    requirements: &MemoryRequirements,
    memory_type: &MemoryType,
    type_index: u32,
) -> (r: bool)
    ensures
        r == (has_type_bit(requirements.memory_type_bits, type_index as int)
            && memory_type.host_visible),
{
    type_index < 32 && (requirements.memory_type_bits & (1u32 << type_index)) != 0
        && memory_type.host_visible
}

/// The lowest-indexed memory type that a buffer with this bitmask may be
/// bound to and that the host can map.
pub fn lowest_compatible_type(memory_types: &Vec<MemoryType>, type_bits: u32) -> (r: Option<u32>)
    ensures
        r matches Some(i) ==> lowest_acceptable(memory_types@, type_bits, i as int),
        r is None ==> forall|j: int| !acceptable_type(memory_types@, type_bits, j),
{
    let n = memory_types.len();
    let mut i: usize = 0;
    while i < n && i < 32
        invariant
            i <= n,
            i <= 32,
            n == memory_types@.len(),
            forall|j: int| 0 <= j < i ==> !acceptable_type(memory_types@, type_bits, j),
        decreases n - i,
    {
        let index = i as u32;
        if (type_bits & (1u32 << index)) != 0 && memory_types[i].host_visible {
            return Some(index);
        }
        i += 1;
    }
    None
}

/// The memory type an allocation asked for, if acceptable; otherwise the
/// lowest-indexed acceptable one. The correction is computed once: there is
/// no second attempt.
pub fn select_memory_type(
    memory_types: &Vec<MemoryType>,
    requested: u32,
    requirements: &MemoryRequirements,
) -> (r: Option<u32>)
    ensures
        acceptable_type(memory_types@, requirements.memory_type_bits, requested as int) ==> r
            == Some(requested),
        !acceptable_type(memory_types@, requirements.memory_type_bits, requested as int) ==> {
            &&& r matches Some(i) ==> lowest_acceptable(
                memory_types@,
                requirements.memory_type_bits,
                i as int,
            )
            &&& r is None ==> forall|j: int|
                !acceptable_type(memory_types@, requirements.memory_type_bits, j)
        },
{
    if (requested as usize) < memory_types.len() && matches_memory_requirements(
        requirements,
        &memory_types[requested as usize],
        requested,
    ) {
        Some(requested)
    } else {
        lowest_compatible_type(memory_types, requirements.memory_type_bits)
    }
}

proof fn lemma_table_entry(s: Seq<AllocationInfo>, i: int)
    requires
        unique_ids(s),
        0 <= i < s.len(),
    ensures
        table_of(s).contains_key(s[i].handle_id@),
        table_of(s)[s[i].handle_id@] == s[i],
{
    let k = s[i].handle_id@;
    assert(exists|j: int| 0 <= j < s.len() && s[j].handle_id@ == k);
    let j = choose|j: int| 0 <= j < s.len() && s[j].handle_id@ == k;
    if j < i {
        assert(s[j].handle_id@ != s[i].handle_id@);
    } else if i < j {
        assert(s[i].handle_id@ != s[j].handle_id@);
    }
}

proof fn lemma_table_push(s: Seq<AllocationInfo>, info: AllocationInfo)
    requires
        unique_ids(s),
        !table_of(s).contains_key(info.handle_id@),
    ensures
        unique_ids(s.push(info)),
        table_of(s.push(info)) == table_of(s).insert(info.handle_id@, info),
{
    let t = s.push(info);
    assert forall|i: int, j: int| 0 <= i < j < t.len() implies t[i].handle_id@
        != t[j].handle_id@ by {
        if j == s.len() {
            if t[i].handle_id@ == info.handle_id@ {
                assert(s[i].handle_id@ == info.handle_id@);
            }
        } else {
            assert(t[i] == s[i] && t[j] == s[j]);
        }
    }
    let expected = table_of(s).insert(info.handle_id@, info);
    assert forall|k: Seq<char>| table_of(t).contains_key(k) <==> expected.contains_key(k) by {
        if table_of(t).contains_key(k) {
            let j = choose|j: int| 0 <= j < t.len() && t[j].handle_id@ == k;
            if j < s.len() {
                assert(s[j] == t[j]);
            }
        }
        if table_of(s).contains_key(k) {
            let j = choose|j: int| 0 <= j < s.len() && s[j].handle_id@ == k;
            assert(t[j] == s[j]);
        }
        if k == info.handle_id@ {
            assert(t[s.len() as int] == info);
        }
    }
    assert forall|k: Seq<char>| table_of(t).contains_key(k) implies table_of(t)[k]
        == expected[k] by {
        let j = choose|j: int| 0 <= j < t.len() && t[j].handle_id@ == k;
        lemma_table_entry(t, j);
        if j < s.len() {
            assert(s[j] == t[j]);
            lemma_table_entry(s, j);
        }
    }
    assert(table_of(t) =~= expected);
}

proof fn lemma_table_remove(s: Seq<AllocationInfo>, i: int)
    requires
        unique_ids(s),
        0 <= i < s.len(),
    ensures
        unique_ids(s.remove(i)),
        table_of(s.remove(i)) == table_of(s).remove(s[i].handle_id@),
{
    let t = s.remove(i);
    let gone = s[i].handle_id@;
    assert forall|a: int, b: int| 0 <= a < b < t.len() implies t[a].handle_id@
        != t[b].handle_id@ by {
        let a0 = if a < i { a } else { a + 1 };
        let b0 = if b < i { b } else { b + 1 };
        assert(t[a] == s[a0] && t[b] == s[b0]);
    }
    let expected = table_of(s).remove(gone);
    assert forall|k: Seq<char>| table_of(t).contains_key(k) <==> expected.contains_key(k) by {
        if table_of(t).contains_key(k) {
            let j = choose|j: int| 0 <= j < t.len() && t[j].handle_id@ == k;
            let j0 = if j < i { j } else { j + 1 };
            assert(t[j] == s[j0]);
            if k == gone {
                assert(s[i].handle_id@ == s[j0].handle_id@);
            }
        }
        if expected.contains_key(k) {
            let j = choose|j: int| 0 <= j < s.len() && s[j].handle_id@ == k;
            if j < i {
                assert(t[j] == s[j]);
            } else {
                assert(t[j - 1] == s[j]);
            }
        }
    }
    assert forall|k: Seq<char>| table_of(t).contains_key(k) implies table_of(t)[k]
        == expected[k] by {
        let j = choose|j: int| 0 <= j < t.len() && t[j].handle_id@ == k;
        lemma_table_entry(t, j);
        let j0 = if j < i { j } else { j + 1 };
        assert(t[j] == s[j0]);
        lemma_table_entry(s, j0);
    }
    assert(table_of(t) =~= expected);
}

proof fn lemma_table_update(s: Seq<AllocationInfo>, i: int, info: AllocationInfo)
    requires
        unique_ids(s),
        0 <= i < s.len(),
        info.handle_id@ == s[i].handle_id@,
    ensures
        unique_ids(s.update(i, info)),
        table_of(s.update(i, info)) == table_of(s).insert(info.handle_id@, info),
{
    let t = s.update(i, info);
    assert forall|a: int, b: int| 0 <= a < b < t.len() implies t[a].handle_id@
        != t[b].handle_id@ by {
        assert(t[a].handle_id@ == s[a].handle_id@ && t[b].handle_id@ == s[b].handle_id@);
    }
    let expected = table_of(s).insert(info.handle_id@, info);
    assert forall|k: Seq<char>| table_of(t).contains_key(k) <==> expected.contains_key(k) by {
        if table_of(t).contains_key(k) {
            let j = choose|j: int| 0 <= j < t.len() && t[j].handle_id@ == k;
            assert(t[j].handle_id@ == s[j].handle_id@);
        }
        if table_of(s).contains_key(k) {
            let j = choose|j: int| 0 <= j < s.len() && s[j].handle_id@ == k;
            assert(t[j].handle_id@ == s[j].handle_id@);
        }
        if k == info.handle_id@ {
            assert(t[i] == info);
        }
    }
    assert forall|k: Seq<char>| table_of(t).contains_key(k) implies table_of(t)[k]
        == expected[k] by {
        let j = choose|j: int| 0 <= j < t.len() && t[j].handle_id@ == k;
        lemma_table_entry(t, j);
        if j != i {
            assert(t[j] == s[j]);
            lemma_table_entry(s, j);
        }
    }
    assert(table_of(t) =~= expected);
}

/// Manages device memory allocations.
pub struct MemoryAllocator {
    memory_types: Vec<MemoryType>,
    allocations: Vec<AllocationInfo>,
}

/// Where a running allocation stands, with what it holds so far.
#[derive(Clone, Copy, Debug, PartialEq, Eq, Structural)]
pub enum AllocationStage {
    /// Waiting for the backing buffer.
    CreatingBuffer,
    /// Holds the buffer; waiting for its memory requirements.
    QueryingRequirements { buffer: u64 },
    /// Holds the buffer; waiting for the memory block.
    AllocatingMemory { buffer: u64 },
    /// Holds the buffer and the memory; waiting for the binding.
    Binding { buffer: u64, memory: u64 },
    /// Over: what it acquired now belongs to the table or was released.
    Finished,
}

/// The commands that release what an allocation holds at a stage.
pub open spec fn stage_release(stage: AllocationStage) -> Seq<DriverCommand> {
    match stage {
        AllocationStage::QueryingRequirements { buffer } => seq![
            DriverCommand::DestroyBuffer { buffer },
        ],
        AllocationStage::AllocatingMemory { buffer } => seq![DriverCommand::DestroyBuffer { buffer }],
        AllocationStage::Binding { buffer, memory } => seq![
            DriverCommand::FreeMemory { memory },
            DriverCommand::DestroyBuffer { buffer },
        ],
        _ => seq![],
    }
}

/// An allocation in progress: create a buffer, read its memory
/// requirements, pick a compatible memory type, allocate and bind.
pub struct PendingAllocation {
    size: u64,
    memory_type_index: u32,
    handle_id: String,
    stage: AllocationStage,
}

impl PendingAllocation {
    pub closed spec fn stage(&self) -> AllocationStage {
        self.stage
    }

    pub closed spec fn size(&self) -> u64 {
        self.size
    }

    pub closed spec fn memory_type_index(&self) -> u32 {
        self.memory_type_index
    }

    pub closed spec fn handle_id(&self) -> Seq<char> {
        self.handle_id@
    }

    pub fn is_finished(&self) -> (r: bool)
        ensures
            r == (self.stage() is Finished),
    {
        match self.stage {
            AllocationStage::Finished => true,
            _ => false,
        }
    }

    /// Ends the allocation with an error, releasing what it holds.
    fn fail(&mut self, error: MemoryError) -> (r: Step<String, MemoryError>)
        ensures
            r matches Step::Finish(release, result) && release@ == stage_release(old(self).stage)
                && result == Err::<String, MemoryError>(error),
            final(self).stage is Finished,
            final(self).size == old(self).size,
            final(self).handle_id@ == old(self).handle_id@,
            final(self).memory_type_index == old(self).memory_type_index,
    {
        let mut release: Vec<DriverCommand> = Vec::new();
        match self.stage {
            AllocationStage::QueryingRequirements { buffer } => {
                release.push(DriverCommand::DestroyBuffer { buffer });
            },
            AllocationStage::AllocatingMemory { buffer } => {
                release.push(DriverCommand::DestroyBuffer { buffer });
            },
            AllocationStage::Binding { buffer, memory } => {
                release.push(DriverCommand::FreeMemory { memory });
                release.push(DriverCommand::DestroyBuffer { buffer });
            },
            _ => {},
        }
        proof {
            assert(release@ =~= stage_release(old(self).stage));
        }
        self.stage = AllocationStage::Finished;
        Step::Finish(release, Err(error))
    }

    /// Takes the driver's reply to the last command and says what comes next.
    ///
    /// A driver failure (creating the buffer, allocating the memory or
    /// binding them) ends the allocation with `AllocationFailed`, carrying
    /// the driver's description of the failure, and releases what was created
    /// so far; on success the new record enters the table.
    pub fn resume(&mut self, allocator: &mut MemoryAllocator, reply: DriverReply) -> (r: Step<
        String,
        MemoryError,
    >)
        requires
            old(allocator).wf(),
            !(old(self).stage() is Finished),
        ensures
            final(allocator).wf(),
            final(allocator).memory_types() == old(allocator).memory_types(),
            final(self).size() == old(self).size(),
            final(self).handle_id() == old(self).handle_id(),
            final(self).memory_type_index() == old(self).memory_type_index(),
            r is Finish <==> final(self).stage() is Finished,
            // every failure gives back what the allocation holds and leaves the table alone
            r matches Step::Finish(release, result) ==> (result is Err ==> release@ == stage_release(
                old(self).stage(),
            ) && final(allocator).table() == old(allocator).table()),
            reply matches DriverReply::Failed(code) ==> (r matches Step::Finish(
                _,
                Err(MemoryError::AllocationFailed(m)),
            ) && m@ == result_code_description(code as int)),
            old(self).stage() is CreatingBuffer ==> (reply matches DriverReply::Buffer(buffer) ==> r
                == Step::<String, MemoryError>::Call(
                DriverCommand::GetBufferMemoryRequirements { buffer },
            ) && final(self).stage() == (AllocationStage::QueryingRequirements { buffer })),
            old(self).stage() matches AllocationStage::QueryingRequirements { buffer } ==> (
            reply matches DriverReply::Requirements(req) ==> {
                let types = old(allocator).memory_types();
                let bits = req.memory_type_bits;
                let wanted = old(self).memory_type_index() as int;
                &&& acceptable_type(types, bits, wanted) ==> r == Step::<String, MemoryError>::Call(
                    DriverCommand::AllocateMemory {
                        size: req.size,
                        memory_type_index: old(self).memory_type_index(),
                    },
                )
                &&& (!acceptable_type(types, bits, wanted) && exists|j: int|
                    acceptable_type(types, bits, j)) ==> (r matches Step::Call(
                    DriverCommand::AllocateMemory { size, memory_type_index },
                ) && size == req.size && lowest_acceptable(types, bits, memory_type_index as int))
                &&& (forall|j: int| !acceptable_type(types, bits, j)) ==> (r matches Step::Finish(
                    _,
                    Err(MemoryError::InvalidMemoryType(_)),
                ))
                &&& r is Call ==> final(self).stage() == (AllocationStage::AllocatingMemory {
                    buffer,
                })
            }),
            old(self).stage() matches AllocationStage::AllocatingMemory { buffer } ==> (
            reply matches DriverReply::Memory(memory) ==> r == Step::<String, MemoryError>::Call(
                DriverCommand::BindBufferMemory { buffer, memory },
            ) && final(self).stage() == (AllocationStage::Binding { buffer, memory })),
            old(self).stage() matches AllocationStage::Binding { buffer, memory } ==> ((reply is Done
                && !old(allocator).table().contains_key(old(self).handle_id())) ==> {
                let h = old(self).handle_id();
                let rec = final(allocator).table()[h];
                &&& final(allocator).table() == old(allocator).table().insert(h, rec)
                &&& rec.size == old(self).size()
                &&& rec.buffer == buffer
                &&& rec.device_memory == memory
                &&& rec.mapped_ptr is None
                &&& r matches Step::Finish(release, Ok(id)) && release@.len() == 0 && id@ == h
            }),
            (old(self).stage() is Binding && reply is Done && old(allocator).table().contains_key(
                old(self).handle_id(),
            )) ==> (r matches Step::Finish(_, Err(MemoryError::AllocationFailed(_)))),
            r is Call ==> final(allocator).table() == old(allocator).table(),
    {
        if let DriverReply::Failed(code) = reply {
            return self.fail(MemoryError::AllocationFailed(result_code_message(code)));
        }
        match self.stage {
            AllocationStage::CreatingBuffer => {
                if let DriverReply::Buffer(buffer) = reply {
                    self.stage = AllocationStage::QueryingRequirements { buffer };
                    return Step::Call(DriverCommand::GetBufferMemoryRequirements { buffer });
                }
            },
            AllocationStage::QueryingRequirements { buffer } => {
                if let DriverReply::Requirements(req) = reply {
                    match select_memory_type(&allocator.memory_types, self.memory_type_index, &req) {
                        Some(memory_type_index) => {
                            self.stage = AllocationStage::AllocatingMemory { buffer };
                            return Step::Call(
                                DriverCommand::AllocateMemory { size: req.size, memory_type_index },
                            );
                        },
                        None => {
                            return self.fail(
                                MemoryError::InvalidMemoryType(
                                    "No compatible memory type found".to_owned(),
                                ),
                            );
                        },
                    }
                }
            },
            AllocationStage::AllocatingMemory { buffer } => {
                if let DriverReply::Memory(memory) = reply {
                    self.stage = AllocationStage::Binding { buffer, memory };
                    return Step::Call(DriverCommand::BindBufferMemory { buffer, memory });
                }
            },
            AllocationStage::Binding { buffer, memory } => {
                if let DriverReply::Done = reply {
                    if allocator.position(self.handle_id.as_str()).is_some() {
                        return self.fail(
                            MemoryError::AllocationFailed("handle already in use".to_owned()),
                        );
                    }
                    let info = AllocationInfo {
                        handle_id: self.handle_id.clone(),
                        size: self.size,
                        device_memory: memory,
                        buffer,
                        mapped_ptr: None,
                    };
                    proof {
                        lemma_table_push(allocator.allocations@, info);
                        lemma_table_entry(
                            allocator.allocations@.push(info),
                            allocator.allocations@.len() as int,
                        );
                    }
                    allocator.allocations.push(info);
                    self.stage = AllocationStage::Finished;
                    return Step::Finish(Vec::new(), Ok(self.handle_id.clone()));
                }
            },
            AllocationStage::Finished => {},
        }
        self.fail(MemoryError::AllocationFailed("unexpected driver reply".to_owned()))
    }
}

impl MemoryAllocator {
    /// No two allocations share a handle.
    pub closed spec fn wf(&self) -> bool {
        unique_ids(self.allocations@)
    }

    /// The memory types the device declares.
    pub closed spec fn memory_types(&self) -> Seq<MemoryType> {
        self.memory_types@
    }

    /// The live allocations, in the order they were made.
    pub closed spec fn entries(&self) -> Seq<AllocationInfo> {
        self.allocations@
    }

    /// The live allocations by handle.
    pub open spec fn table(&self) -> Map<Seq<char>, AllocationInfo> {
        table_of(self.entries())
    }

    /// Create an allocator for a device that declares these memory types.
    pub fn new(memory_types: Vec<MemoryType>) -> (r: Self)
        ensures
            r.wf(),
            r.memory_types() == memory_types@,
            r.table() == Map::<Seq<char>, AllocationInfo>::empty(),
    {
        let r = MemoryAllocator { memory_types, allocations: Vec::new() };
        proof {
            assert(r.table() =~= Map::<Seq<char>, AllocationInfo>::empty());
        }
        r
    }

    /// Where the allocation with this handle stands in the table.
    fn position(&self, handle_id: &str) -> (r: Option<usize>)
        requires
            self.wf(),
        ensures
            r matches Some(i) ==> i < self.allocations@.len() && self.allocations@[i as int].handle_id@
                == handle_id@,
            r is None <==> !self.table().contains_key(handle_id@),
    {
        let key = handle_id.to_owned();
        let n = self.allocations.len();
        let mut i: usize = 0;
        while i < n
            invariant
                n == self.allocations@.len(),
                i <= n,
                key@ == handle_id@,
                unique_ids(self.allocations@),
                forall|j: int| 0 <= j < i ==> self.allocations@[j].handle_id@ != handle_id@,
            decreases n - i,
        {
            if self.allocations[i].handle_id == key {
                proof {
                    lemma_table_entry(self.allocations@, i as int);
                }
                return Some(i);
            }
            i += 1;
        }
        None
    }

    /// The number of live allocations.
    pub fn allocation_count(&self) -> (r: usize)
        ensures
            r == self.entries().len(),
    {
        self.allocations.len()
    }

    /// Find the lowest-indexed memory type compatible with a buffer's
    /// bitmask that the host can map.
    pub fn find_compatible_memory_type(&self, type_bits: u32) -> (r: MemoryResult<u32>)
        ensures
            r matches Ok(i) ==> lowest_acceptable(self.memory_types(), type_bits, i as int),
            r is Err ==> (r matches Err(MemoryError::InvalidMemoryType(_)) && forall|j: int|
                !acceptable_type(self.memory_types(), type_bits, j)),
    {
        match lowest_compatible_type(&self.memory_types, type_bits) {
            Some(i) => Ok(i),
            None => Err(MemoryError::InvalidMemoryType("No compatible memory type found".to_owned())),
        }
    }

    /// Start allocating `size` bytes of memory of type `memory_type_index`
    /// under `handle_id`.
    ///
    /// The inputs are checked before any driver call: a zero size and a
    /// handle already in use fail with `AllocationFailed`, a type index past
    /// the declared types with `InvalidMemoryType`. Otherwise the first
    /// command creates the backing buffer; `PendingAllocation::resume` does
    /// the rest.
    pub fn allocate(&self, size: u64, memory_type_index: u32, handle_id: String) -> (r: (
        PendingAllocation,
        Step<String, MemoryError>,
    ))
        requires
            self.wf(),
        ensures
            r.0.size() == size,
            r.0.memory_type_index() == memory_type_index,
            r.0.handle_id() == handle_id@,
            r.1 is Finish <==> r.0.stage() is Finished,
            size == 0 ==> (r.1 matches Step::Finish(release, Err(MemoryError::AllocationFailed(_)))
                && release@.len() == 0),
            size > 0 && memory_type_index >= self.memory_types().len() ==> (r.1 matches Step::Finish(
                release,
                Err(MemoryError::InvalidMemoryType(_)),
            ) && release@.len() == 0),
            size > 0 && memory_type_index < self.memory_types().len() && self.table().contains_key(
                handle_id@,
            ) ==> (r.1 matches Step::Finish(release, Err(MemoryError::AllocationFailed(_)))
                && release@.len() == 0),
            size > 0 && memory_type_index < self.memory_types().len() && !self.table().contains_key(
                handle_id@,
            ) ==> r.1 == Step::<String, MemoryError>::Call(
                DriverCommand::CreateBuffer { size, usage: BufferUsage::Storage },
            ) && r.0.stage() == AllocationStage::CreatingBuffer,
    {
        let mut pending = PendingAllocation {
            size,
            memory_type_index,
            handle_id,
            stage: AllocationStage::CreatingBuffer,
        };
        if size == 0 {
            let step = pending.fail(MemoryError::AllocationFailed("size must be > 0".to_owned()));
            return (pending, step);
        }
        if memory_type_index as usize >= self.memory_types.len() {
            let step = pending.fail(
                MemoryError::InvalidMemoryType(
                    compared(
                        "memory_type_index ",
                        memory_type_index as u64,
                        " >= memory type count ",
                        self.memory_types.len() as u64,
                    ),
                ),
            );
            return (pending, step);
        }
        if self.position(pending.handle_id.as_str()).is_some() {
            let step = pending.fail(MemoryError::AllocationFailed("handle already in use".to_owned()));
            return (pending, step);
        }
        (pending, Step::Call(DriverCommand::CreateBuffer { size, usage: BufferUsage::Storage }))
    }
}

/// What `map` needs next.
#[derive(Clone, Debug, PartialEq, Eq)]
pub enum MapStep {
    /// The allocation is already mapped at this address: nothing to run.
    Mapped(usize),
    /// Run this command and hand its reply to `MemoryAllocator::complete_map`.
    Call(DriverCommand),
}

/// The allocation with its mapping set to `mapped_ptr`.
pub open spec fn with_mapping(info: AllocationInfo, mapped_ptr: Option<usize>) -> AllocationInfo {
    AllocationInfo { mapped_ptr, ..info }
}

impl MemoryAllocator {
    fn not_found(handle_id: &str) -> (r: MemoryError)
        ensures
            r matches MemoryError::NotFound(m) && m@ == handle_id@,
    {
        MemoryError::NotFound(handle_id.to_owned())
    }

    /// Map an allocation into host memory.
    ///
    /// An allocation that is already mapped gives its address back and no
    /// command; otherwise the command maps its whole memory block. An unknown
    /// handle gives `NotFound`.
    pub fn map(&self, handle_id: &str) -> (r: MemoryResult<MapStep>)
        requires
            self.wf(),
        ensures
            !self.table().contains_key(handle_id@) ==> (r matches Err(MemoryError::NotFound(m))
                && m@ == handle_id@),
            self.table().contains_key(handle_id@) ==> {
                let info = self.table()[handle_id@];
                &&& info.mapped_ptr matches Some(p) ==> r == Ok::<MapStep, MemoryError>(
                    MapStep::Mapped(p),
                )
                &&& info.mapped_ptr is None ==> r == Ok::<MapStep, MemoryError>(
                    MapStep::Call(DriverCommand::MapMemory { memory: info.device_memory }),
                )
            },
    {
        match self.position(handle_id) {
            None => Err(Self::not_found(handle_id)),
            Some(i) => {
                proof {
                    lemma_table_entry(self.allocations@, i as int);
                }
                let info = &self.allocations[i];
                match info.mapped_ptr {
                    Some(p) => Ok(MapStep::Mapped(p)),
                    None => Ok(MapStep::Call(DriverCommand::MapMemory { memory: info.device_memory })),
                }
            },
        }
    }

    /// Record the driver's reply to the command that `map` gave.
    ///
    /// A pointer is recorded as the allocation's mapping and returned; a
    /// driver failure, or any other reply, gives `MapFailed` with the table
    /// unchanged.
    pub fn complete_map(&mut self, handle_id: &str, reply: DriverReply) -> (r: MemoryResult<usize>)
        requires
            old(self).wf(),
        ensures
            final(self).wf(),
            final(self).memory_types() == old(self).memory_types(),
            !old(self).table().contains_key(handle_id@) ==> (r matches Err(
                MemoryError::NotFound(m),
            ) && m@ == handle_id@),
            r is Err ==> final(self).table() == old(self).table(),
            old(self).table().contains_key(handle_id@) ==> {
                let info = old(self).table()[handle_id@];
                &&& reply matches DriverReply::Pointer(p) ==> r == Ok::<usize, MemoryError>(p)
                    && final(self).table() == old(self).table().insert(
                    handle_id@,
                    with_mapping(info, Some(p)),
                )
                &&& reply matches DriverReply::Failed(code) ==> (r matches Err(
                    MemoryError::MapFailed(m),
                ) && m@ == result_code_description(code as int))
                &&& !(reply is Pointer || reply is Failed) ==> (r matches Err(
                    MemoryError::MapFailed(_),
                ))
            },
    {
        match self.position(handle_id) {
            None => Err(Self::not_found(handle_id)),
            Some(i) => match reply {
                DriverReply::Pointer(p) => {
                    let old_info = &self.allocations[i];
                    let info = AllocationInfo {
                        handle_id: old_info.handle_id.clone(),
                        size: old_info.size,
                        device_memory: old_info.device_memory,
                        buffer: old_info.buffer,
                        mapped_ptr: Some(p),
                    };
                    proof {
                        lemma_table_entry(self.allocations@, i as int);
                        lemma_table_update(self.allocations@, i as int, info);
                    }
                    self.allocations.set(i, info);
                    Ok(p)
                },
                DriverReply::Failed(code) => Err(MemoryError::MapFailed(result_code_message(code))),
                _ => Err(MemoryError::MapFailed("unexpected driver reply".to_owned())),
            },
        }
    }

    /// Unmap an allocation from host memory.
    ///
    /// The command unmaps it if it is mapped; one that is not mapped needs no
    /// command and stays as it is. An unknown handle gives `NotFound`.
    pub fn unmap(&mut self, handle_id: &str) -> (r: MemoryResult<Vec<DriverCommand>>)
        requires
            old(self).wf(),
        ensures
            final(self).wf(),
            final(self).memory_types() == old(self).memory_types(),
            !old(self).table().contains_key(handle_id@) ==> (r matches Err(
                MemoryError::NotFound(m),
            ) && m@ == handle_id@) && final(self).table() == old(self).table(),
            old(self).table().contains_key(handle_id@) ==> {
                let info = old(self).table()[handle_id@];
                &&& info.mapped_ptr is Some ==> final(self).table() == old(self).table().insert(
                    handle_id@,
                    with_mapping(info, None),
                )
                &&& info.mapped_ptr is None ==> final(self).table() == old(self).table()
                &&& r matches Ok(commands) && (info.mapped_ptr is Some ==> commands@ == seq![
                    DriverCommand::UnmapMemory { memory: info.device_memory },
                ]) && (info.mapped_ptr is None ==> commands@.len() == 0)
            },
    {
        match self.position(handle_id) {
            None => Err(Self::not_found(handle_id)),
            Some(i) => {
                proof {
                    lemma_table_entry(self.allocations@, i as int);
                }
                let mut commands: Vec<DriverCommand> = Vec::new();
                if self.allocations[i].mapped_ptr.is_some() {
                    let old_info = &self.allocations[i];
                    commands.push(DriverCommand::UnmapMemory { memory: old_info.device_memory });
                    let info = AllocationInfo {
                        handle_id: old_info.handle_id.clone(),
                        size: old_info.size,
                        device_memory: old_info.device_memory,
                        buffer: old_info.buffer,
                        mapped_ptr: None,
                    };
                    proof {
                        lemma_table_update(self.allocations@, i as int, info);
                        assert(commands@ =~= seq![
                            DriverCommand::UnmapMemory { memory: old_info.device_memory },
                        ]);
                    }
                    self.allocations.set(i, info);
                }
                Ok(commands)
            },
        }
    }

    /// The commands that release one allocation, in order.
    fn release_of(info: &AllocationInfo, commands: &mut Vec<DriverCommand>)
        ensures
            final(commands)@ == old(commands)@ + release_commands(*info),
    {
        if info.mapped_ptr.is_some() {
            commands.push(DriverCommand::UnmapMemory { memory: info.device_memory });
        }
        commands.push(DriverCommand::DestroyBuffer { buffer: info.buffer });
        commands.push(DriverCommand::FreeMemory { memory: info.device_memory });
        proof {
            assert(final(commands)@ =~= old(commands)@ + release_commands(*info));
        }
    }

    /// Remove an allocation from the table and give back the commands that
    /// release it: unmap if mapped, then destroy the buffer, then free the
    /// memory. An unknown handle gives `NotFound`.
    pub fn deallocate(&mut self, handle_id: &str) -> (r: MemoryResult<Vec<DriverCommand>>)
        requires
            old(self).wf(),
        ensures
            final(self).wf(),
            final(self).memory_types() == old(self).memory_types(),
            !old(self).table().contains_key(handle_id@) ==> (r matches Err(
                MemoryError::NotFound(m),
            ) && m@ == handle_id@) && final(self).table() == old(self).table(),
            old(self).table().contains_key(handle_id@) ==> (r matches Ok(commands) && commands@
                == release_commands(old(self).table()[handle_id@])) && final(self).table() == old(
                self,
            ).table().remove(handle_id@),
    {
        match self.position(handle_id) {
            None => Err(Self::not_found(handle_id)),
            Some(i) => {
                proof {
                    lemma_table_entry(self.allocations@, i as int);
                    lemma_table_remove(self.allocations@, i as int);
                }
                let info = self.allocations.remove(i);
                let mut commands: Vec<DriverCommand> = Vec::new();
                Self::release_of(&info, &mut commands);
                proof {
                    assert(commands@ =~= release_commands(info));
                }
                Ok(commands)
            },
        }
    }

    /// Empty the table, giving back the commands that release every
    /// allocation in it, each as `deallocate` would. The caller runs all of
    /// them even where one fails.
    pub fn teardown(&mut self) -> (r: Vec<DriverCommand>)
        requires
            old(self).wf(),
        ensures
            final(self).wf(),
            final(self).memory_types() == old(self).memory_types(),
            final(self).table() == Map::<Seq<char>, AllocationInfo>::empty(),
            r@ == releases(old(self).entries()),
            forall|h: Seq<char>| #[trigger]
                old(self).table().contains_key(h) ==> r@.contains(
                    DriverCommand::DestroyBuffer { buffer: old(self).table()[h].buffer },
                ) && r@.contains(
                    DriverCommand::FreeMemory { memory: old(self).table()[h].device_memory },
                ),
    {
        proof {
            assert forall|h: Seq<char>| #[trigger]
                old(self).table().contains_key(h) implies releases(old(self).entries()).contains(
                DriverCommand::DestroyBuffer { buffer: old(self).table()[h].buffer },
            ) && releases(old(self).entries()).contains(
                DriverCommand::FreeMemory { memory: old(self).table()[h].device_memory },
            ) by {
                teardown_releases_every_allocation(old(self).entries(), h);
            }
        }
        let mut commands: Vec<DriverCommand> = Vec::new();
        let n = self.allocations.len();
        let mut i: usize = 0;
        while i < n
            invariant
                n == self.allocations@.len(),
                i <= n,
                commands@ == releases(self.allocations@.take(i as int)),
            decreases n - i,
        {
            Self::release_of(&self.allocations[i], &mut commands);
            proof {
                assert(self.allocations@.take(i + 1).drop_last() =~= self.allocations@.take(
                    i as int,
                ));
            }
            i += 1;
        }
        proof {
            assert(self.allocations@.take(n as int) =~= self.allocations@);
        }
        self.allocations.clear();
        proof {
            assert(self.table() =~= Map::<Seq<char>, AllocationInfo>::empty());
        }
        commands
    }

    /// The allocation with this handle.
    pub fn get_allocation(&self, handle_id: &str) -> (r: MemoryResult<&AllocationInfo>)
        requires
            self.wf(),
        ensures
            !self.table().contains_key(handle_id@) ==> (r matches Err(MemoryError::NotFound(m))
                && m@ == handle_id@),
            self.table().contains_key(handle_id@) ==> r == Ok::<&AllocationInfo, MemoryError>(
                &self.table()[handle_id@],
            ),
    {
        match self.position(handle_id) {
            None => Err(Self::not_found(handle_id)),
            Some(i) => {
                proof {
                    lemma_table_entry(self.allocations@, i as int);
                }
                Ok(&self.allocations[i])
            },
        }
    }
}

/// Allocating under a fresh handle and then deallocating that handle leaves
/// the table as it was, and the commands deallocation returns destroy
/// exactly the buffer and free exactly the memory the allocation bound.
///
/// `before` is the table before `allocate`, `info` the record its last step
/// inserted (never mapped), as `PendingAllocation::resume` states it.
pub proof fn allocate_then_deallocate(
    before: Map<Seq<char>, AllocationInfo>,
    handle_id: Seq<char>,
    info: AllocationInfo,
)
    requires
        !before.contains_key(handle_id),
        info.mapped_ptr is None,
    ensures
        before.insert(handle_id, info).contains_key(handle_id),
        before.insert(handle_id, info).remove(handle_id) == before,
        release_commands(before.insert(handle_id, info)[handle_id]) == seq![
            DriverCommand::DestroyBuffer { buffer: info.buffer },
            DriverCommand::FreeMemory { memory: info.device_memory },
        ],
{
    assert(before.insert(handle_id, info).remove(handle_id) =~= before);
}

/// Once `complete_map` has recorded a pointer for a handle, the table
/// holds that pointer for it: a second `map` gives the same address back,
/// as `MapStep::Mapped`, and runs no command.
pub proof fn map_is_idempotent(
    before: Map<Seq<char>, AllocationInfo>,
    handle_id: Seq<char>,
    pointer: usize,
)
    requires
        before.contains_key(handle_id),
    ensures
        ({
            let after = before.insert(handle_id, with_mapping(before[handle_id], Some(pointer)));
            &&& after.contains_key(handle_id)
            &&& after[handle_id].mapped_ptr == Some(pointer)
            &&& after[handle_id].device_memory == before[handle_id].device_memory
            &&& after[handle_id].buffer == before[handle_id].buffer
            &&& after.remove(handle_id) == before.remove(handle_id)
        }),
{
    let after = before.insert(handle_id, with_mapping(before[handle_id], Some(pointer)));
    assert(after.remove(handle_id) =~= before.remove(handle_id));
}

proof fn lemma_releases_prefix(entries: Seq<AllocationInfo>, i: int)
    requires
        0 <= i < entries.len(),
    ensures
        releases(entries).contains(DriverCommand::DestroyBuffer { buffer: entries[i].buffer }),
        releases(entries).contains(DriverCommand::FreeMemory { memory: entries[i].device_memory }),
        entries[i].mapped_ptr is Some ==> releases(entries).contains(
            DriverCommand::UnmapMemory { memory: entries[i].device_memory },
        ),
    decreases entries.len(),
{
    let front = releases(entries.drop_last());
    let last = release_commands(entries.last());
    let all = releases(entries);
    assert(all == front + last);
    if i == entries.len() - 1 {
        let off: int = if entries.last().mapped_ptr is Some { 1 } else { 0 };
        assert(all[front.len() + off] == DriverCommand::DestroyBuffer { buffer: entries[i].buffer });
        assert(all[front.len() + off + 1] == DriverCommand::FreeMemory {
            memory: entries[i].device_memory,
        });
        if entries.last().mapped_ptr is Some {
            assert(all[front.len() as int] == DriverCommand::UnmapMemory {
                memory: entries[i].device_memory,
            });
        }
    } else {
        assert(entries.drop_last()[i] == entries[i]);
        lemma_releases_prefix(entries.drop_last(), i);
        let d = DriverCommand::DestroyBuffer { buffer: entries[i].buffer };
        let k = choose|k: int| 0 <= k < front.len() && front[k] == d;
        assert(all[k] == d);
        let f = DriverCommand::FreeMemory { memory: entries[i].device_memory };
        let k2 = choose|k: int| 0 <= k < front.len() && front[k] == f;
        assert(all[k2] == f);
        if entries[i].mapped_ptr is Some {
            let u = DriverCommand::UnmapMemory { memory: entries[i].device_memory };
            let k3 = choose|k: int| 0 <= k < front.len() && front[k] == u;
            assert(all[k3] == u);
        }
    }
}

/// The commands `teardown` returns release every allocation of the table:
/// for each handle, its buffer is destroyed and its memory freed, and a
/// mapped one is unmapped.
pub proof fn teardown_releases_every_allocation(
    entries: Seq<AllocationInfo>,
    handle_id: Seq<char>,
)
    requires
        unique_ids(entries),
        table_of(entries).contains_key(handle_id),
    ensures
        ({
            let info = table_of(entries)[handle_id];
            &&& releases(entries).contains(DriverCommand::DestroyBuffer { buffer: info.buffer })
            &&& releases(entries).contains(DriverCommand::FreeMemory { memory: info.device_memory })
            &&& info.mapped_ptr is Some ==> releases(entries).contains(
                DriverCommand::UnmapMemory { memory: info.device_memory },
            )
        }),
{
    let i = choose|i: int| 0 <= i < entries.len() && entries[i].handle_id@ == handle_id;
    lemma_table_entry(entries, i);
    lemma_releases_prefix(entries, i);
}

} // verus!
