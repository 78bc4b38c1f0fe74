//! The driver operations the library consumes, as plain values.
//!
//! The library never calls the device itself: each operation is a small
//! state machine that hands out one `DriverCommand` at a time and is resumed
//! with the `DriverReply` the device gave. Handles are the driver's raw
//! 64-bit object handles; a mapped host address is an integer.
use vstd::prelude::*;

verus! {

/// How a buffer is going to be used; this fixes its usage flags at creation.
#[derive(Clone, Copy, Debug, PartialEq, Eq, Structural)]
pub enum BufferUsage {
    /// Backing buffer of an allocation: transfer source, transfer destination and storage.
    Storage,
    /// Staging buffer of an upload: transfer source only.
    UploadStaging,
    /// Staging buffer of a download: transfer destination only.
    DownloadStaging,
}

/// A memory dependency recorded between two pipeline stages.
#[derive(Clone, Copy, Debug, PartialEq, Eq, Structural)]
pub enum Barrier {
    /// Transfer writes become visible to compute-shader reads.
    TransferWriteToShaderRead,
    /// Compute-shader writes become visible to transfer reads.
    ShaderWriteToTransferRead,
}

/// What the driver reports a buffer needs: a size, an alignment and the set
/// of memory types (one bit per type index) it may be bound to.
#[derive(Clone, Copy, Debug, PartialEq, Eq, Structural)]
pub struct MemoryRequirements {
    pub size: u64,
    pub alignment: u64,
    pub memory_type_bits: u32,
}

/// One memory type the device declares.
#[derive(Clone, Copy, Debug, PartialEq, Eq, Structural)]
pub struct MemoryType {
    /// Memory of this type can be mapped into the host's address space.
    pub host_visible: bool,
}

/// One driver operation.
#[derive(Clone, Debug, PartialEq, Eq)]
pub enum DriverCommand {
    /// Create a buffer of `size` bytes, exclusively owned by one queue family.
    CreateBuffer { size: u64, usage: BufferUsage },
    /// Ask for the memory requirements of a buffer.
    GetBufferMemoryRequirements { buffer: u64 },
    /// Allocate a block of device memory of the given type.
    AllocateMemory { size: u64, memory_type_index: u32 },
    /// Bind a buffer to a memory block at offset 0.
    BindBufferMemory { buffer: u64, memory: u64 },
    /// Map the whole of a memory block into host memory.
    MapMemory { memory: u64 },
    /// Unmap a memory block.
    UnmapMemory { memory: u64 },
    /// Copy bytes to a mapped host address.
    WriteMapped { pointer: usize, bytes: Vec<u8> },
    /// Read `len` bytes at a mapped host address.
    ReadMapped { pointer: usize, len: usize },
    /// Destroy a buffer.
    DestroyBuffer { buffer: u64 },
    /// Free a memory block.
    FreeMemory { memory: u64 },
    /// Create a command pool for a queue family whose buffers can be reset one by one.
    CreateCommandPool { queue_family_index: u32 },
    /// Destroy a command pool.
    DestroyCommandPool { pool: u64 },
    /// Allocate `count` primary command buffers from a pool.
    AllocateCommandBuffers { pool: u64, count: u32 },
    /// Give a command buffer back to its pool.
    FreeCommandBuffer { pool: u64, command_buffer: u64 },
    /// Begin recording a command buffer, for a single submission if asked.
    BeginCommandBuffer { command_buffer: u64, one_time_submit: bool },
    /// Reset a command buffer to its initial state.
    ResetCommandBuffer { command_buffer: u64 },
    /// Record a copy of `size` bytes from offset 0 of `src` to offset 0 of `dst`.
    CopyBuffer { command_buffer: u64, src: u64, dst: u64, size: u64 },
    /// Record a memory barrier.
    PipelineBarrier { command_buffer: u64, barrier: Barrier },
    /// End recording a command buffer.
    EndCommandBuffer { command_buffer: u64 },
    /// Submit command buffers to a queue as one batch. With a wait semaphore
    /// every stage waits for it; a fence is signaled once the batch is done.
    Submit {
        queue: u64,
        command_buffers: Vec<u64>,
        wait_semaphore: Option<u64>,
        signal_semaphore: Option<u64>,
        fence: Option<u64>,
    },
    /// Block until a queue has no outstanding work.
    WaitIdle { queue: u64 },
    /// Create a fence, signaled from the start if asked.
    CreateFence { signaled: bool },
    /// Wait for a fence to be signaled, for at most `timeout_ns` nanoseconds.
    WaitForFence { fence: u64, timeout_ns: u64 },
    /// Reset a fence to unsignaled.
    ResetFence { fence: u64 },
    /// Destroy a fence.
    DestroyFence { fence: u64 },
}

/// What the driver answered to one command.
#[derive(Clone, Debug, PartialEq, Eq)]
pub enum DriverReply {
    /// The command succeeded and returns nothing.
    Done,
    /// A buffer was created.
    Buffer(u64),
    /// The memory requirements of a buffer.
    Requirements(MemoryRequirements),
    /// A memory block was allocated.
    Memory(u64),
    /// A memory block was mapped at this host address.
    Pointer(usize),
    /// A command pool was created.
    CommandPool(u64),
    /// Command buffers were allocated.
    CommandBuffers(Vec<u64>),
    /// A fence was created.
    Fence(u64),
    /// The bytes read from a mapped address.
    Bytes(Vec<u8>),
    /// The command failed with this driver result code.
    Failed(i32),
}

/// What an operation asks for next.
pub enum Step<T, E> {
    /// Run this command and resume the operation with the reply.
    Call(DriverCommand),
    /// The operation is over: run these release commands (their replies are
    /// not needed), and this is its result.
    Finish(Vec<DriverCommand>, Result<T, E>),
}

} // verus!
