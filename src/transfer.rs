//! Host to device, device to host and device to device copies.
//!
//! Each copy is synchronous: it records one command buffer, submits it and
//! waits for the queue to go idle before it is over. Host transfers go
//! through a staging buffer in host-visible memory, which is released on
//! every path, success or failure.
use vstd::prelude::*;
use crate::driver::{Barrier, BufferUsage, DriverCommand, DriverReply, MemoryType, Step};
use crate::memory::{acceptable_type, lowest_acceptable, lowest_compatible_type, AllocationInfo};
use crate::result_code::{
    compared, labelled, result_code_description, result_code_message, result_code_name,
    result_code_text,
};

verus! {

/// Transfer-related errors.
#[derive(Debug)]
pub enum TransferError {
    CopyFailed(String),
    StagingFailed(String),
    SynchronizationFailed(String),
    InvalidSize(String),
    /// A driver failure, by result code, that no other variant classifies.
    VulkanError(i32),
}

pub type TransferResult<T> = Result<T, TransferError>;

impl TransferError {
    /// The message that describes the error.
    pub open spec fn text(&self) -> Seq<char> {
        match self {
            TransferError::CopyFailed(m) => "Copy failed: "@ + m@,
            TransferError::StagingFailed(m) => "Staging buffer failed: "@ + m@,
            TransferError::SynchronizationFailed(m) => "Synchronization failed: "@ + m@,
            TransferError::InvalidSize(m) => "Invalid size: "@ + m@,
            TransferError::VulkanError(code) => "Vulkan error: "@ + result_code_name(*code as int),
        }
    }

    pub fn to_string(&self) -> (r: String)
        ensures
            r@ == self.text(),
    {
        match self {
            TransferError::CopyFailed(m) => labelled("Copy failed: ", m.as_str()),
            TransferError::StagingFailed(m) => labelled("Staging buffer failed: ", m.as_str()),
            TransferError::SynchronizationFailed(m) => labelled(
                "Synchronization failed: ",
                m.as_str(),
            ),
            TransferError::InvalidSize(m) => labelled("Invalid size: ", m.as_str()),
            TransferError::VulkanError(code) => {
                let name = result_code_text(*code);
                labelled("Vulkan error: ", name.as_str())
            },
        }
    }
}

/// What a transfer moves.
pub enum TransferKind {
    /// Host bytes into the start of a device buffer.
    Upload { data: Vec<u8>, destination: u64 },
    /// `size` bytes from the start of a device buffer to the host.
    Download { source: u64, size: u64 },
    /// `size` bytes from the start of one device buffer to another.
    DeviceToDevice { source: u64, destination: u64, size: u64 },
}

/// The command a transfer waits on.
#[derive(Clone, Copy, Debug, PartialEq, Eq, Structural)]
pub enum TransferPhase {
    CreatingStaging,
    QueryingStaging,
    AllocatingStaging,
    BindingStaging,
    MappingForWrite,
    Writing,
    UnmappingAfterWrite,
    AllocatingCommandBuffer,
    Beginning,
    RecordingFirst,
    RecordingSecond,
    Ending,
    Submitting,
    WaitingIdle,
    MappingForRead,
    Reading,
    UnmappingAfterRead,
    Finished,
}

/// The commands that release a staging buffer and its memory, where held.
pub open spec fn staging_release(buffer: Option<u64>, memory: Option<u64>) -> Seq<DriverCommand> {
    let b = match buffer {
        Some(buffer) => seq![DriverCommand::DestroyBuffer { buffer }],
        None => seq![],
    };
    let m = match memory {
        Some(memory) => seq![DriverCommand::FreeMemory { memory }],
        None => seq![],
    };
    b + m
}

/// The phase that follows `phase` in a transfer of this kind, when the
/// driver answers as asked: an upload fills its staging memory before it
/// records, a download reads its staging memory once the queue is idle, and
/// a copy between allocations records one command only.
pub open spec fn next_phase(kind: TransferKind, phase: TransferPhase) -> TransferPhase {
    match phase {
        TransferPhase::CreatingStaging => TransferPhase::QueryingStaging,
        TransferPhase::QueryingStaging => TransferPhase::AllocatingStaging,
        TransferPhase::AllocatingStaging => TransferPhase::BindingStaging,
        TransferPhase::BindingStaging => if kind is Upload {
            TransferPhase::MappingForWrite
        } else {
            TransferPhase::AllocatingCommandBuffer
        },
        TransferPhase::MappingForWrite => TransferPhase::Writing,
        TransferPhase::Writing => TransferPhase::UnmappingAfterWrite,
        TransferPhase::UnmappingAfterWrite => TransferPhase::AllocatingCommandBuffer,
        TransferPhase::AllocatingCommandBuffer => TransferPhase::Beginning,
        TransferPhase::Beginning => TransferPhase::RecordingFirst,
        TransferPhase::RecordingFirst => if kind is DeviceToDevice {
            TransferPhase::Ending
        } else {
            TransferPhase::RecordingSecond
        },
        TransferPhase::RecordingSecond => TransferPhase::Ending,
        TransferPhase::Ending => TransferPhase::Submitting,
        TransferPhase::Submitting => TransferPhase::WaitingIdle,
        TransferPhase::WaitingIdle => if kind is Download {
            TransferPhase::MappingForRead
        } else {
            TransferPhase::Finished
        },
        TransferPhase::MappingForRead => TransferPhase::Reading,
        TransferPhase::Reading => TransferPhase::UnmappingAfterRead,
        _ => TransferPhase::Finished,
    }
}

/// Whether a transfer of this kind passes through `phase`.
pub open spec fn on_path(kind: TransferKind, phase: TransferPhase) -> bool {
    match phase {
        TransferPhase::CreatingStaging | TransferPhase::QueryingStaging
        | TransferPhase::AllocatingStaging | TransferPhase::BindingStaging
        | TransferPhase::RecordingSecond => !(kind is DeviceToDevice),
        TransferPhase::MappingForWrite | TransferPhase::Writing
        | TransferPhase::UnmappingAfterWrite => kind is Upload,
        TransferPhase::MappingForRead | TransferPhase::Reading
        | TransferPhase::UnmappingAfterRead => kind is Download,
        _ => true,
    }
}

/// Whether a transfer of this kind holds its staging buffer in `phase`.
pub open spec fn holds_buffer(kind: TransferKind, phase: TransferPhase) -> bool {
    !(kind is DeviceToDevice) && phase != TransferPhase::CreatingStaging && phase
        != TransferPhase::Finished
}

/// Whether a transfer of this kind holds its staging memory in `phase`.
pub open spec fn holds_memory(kind: TransferKind, phase: TransferPhase) -> bool {
    holds_buffer(kind, phase) && phase != TransferPhase::QueryingStaging && phase
        != TransferPhase::AllocatingStaging
}

/// The reply the command of `phase` gets when it succeeds.
pub open spec fn answers(phase: TransferPhase, reply: DriverReply) -> bool {
    match phase {
        TransferPhase::CreatingStaging => reply is Buffer,
        TransferPhase::QueryingStaging => reply is Requirements,
        TransferPhase::AllocatingStaging => reply is Memory,
        TransferPhase::MappingForWrite | TransferPhase::MappingForRead => reply is Pointer,
        TransferPhase::Reading => reply is Bytes,
        TransferPhase::AllocatingCommandBuffer => reply matches DriverReply::CommandBuffers(v)
            && v@.len() == 1,
        _ => reply is Done,
    }
}

/// The command that gives a held command buffer back to its pool.
pub open spec fn command_release(pool: u64, command_buffer: Option<u64>) -> Seq<DriverCommand> {
    match command_buffer {
        Some(command_buffer) => seq![DriverCommand::FreeCommandBuffer { pool, command_buffer }],
        None => seq![],
    }
}

/// Whether a transfer of this kind holds its command buffer in `phase`:
/// from its allocation until the transfer is over.
pub open spec fn holds_commands(kind: TransferKind, phase: TransferPhase) -> bool {
    match phase {
        TransferPhase::Beginning | TransferPhase::RecordingFirst | TransferPhase::RecordingSecond
        | TransferPhase::Ending | TransferPhase::Submitting | TransferPhase::WaitingIdle => true,
        TransferPhase::MappingForRead | TransferPhase::Reading
        | TransferPhase::UnmappingAfterRead => kind is Download,
        _ => false,
    }
}

/// The error a driver failure gives in `phase`, with the driver's
/// description of the failure: the staging steps fail with `StagingFailed`,
/// recording and submitting the copy with `CopyFailed`, and waiting for the
/// queue with `SynchronizationFailed`.
pub open spec fn failure_in(phase: TransferPhase, error: TransferError, code: i32) -> bool {
    let d = result_code_description(code as int);
    match phase {
        TransferPhase::WaitingIdle => error matches TransferError::SynchronizationFailed(m)
            && m@ == d,
        TransferPhase::AllocatingCommandBuffer | TransferPhase::Beginning
        | TransferPhase::RecordingFirst | TransferPhase::RecordingSecond | TransferPhase::Ending
        | TransferPhase::Submitting => error matches TransferError::CopyFailed(m) && m@ == d,
        _ => error matches TransferError::StagingFailed(m) && m@ == d,
    }
}

/// The error for a driver failure in `phase`.
fn failure(phase: TransferPhase, code: i32) -> (r: TransferError)
    ensures
        failure_in(phase, r, code),
{
    let detail = result_code_message(code);
    match phase {
        TransferPhase::WaitingIdle => TransferError::SynchronizationFailed(detail),
        TransferPhase::AllocatingCommandBuffer | TransferPhase::Beginning
        | TransferPhase::RecordingFirst | TransferPhase::RecordingSecond | TransferPhase::Ending
        | TransferPhase::Submitting => TransferError::CopyFailed(detail),
        _ => TransferError::StagingFailed(detail),
    }
}

/// A copy in progress.
pub struct PendingTransfer {
    kind: TransferKind,
    phase: TransferPhase,
    pool: u64,
    staging_buffer: Option<u64>,
    staging_memory: Option<u64>,
    command_buffer: u64,
    holds_commands: bool,
    read_back: Vec<u8>,
}

/// Manages buffer-to-buffer copies on one queue, with command buffers from
/// one pool.
pub struct DataTransfer {
    queue: u64,
    command_pool: u64,
    memory_types: Vec<MemoryType>,
}

impl PendingTransfer {
    pub closed spec fn kind(&self) -> TransferKind {
        self.kind
    }

    pub closed spec fn phase(&self) -> TransferPhase {
        self.phase
    }

    pub closed spec fn staging_buffer(&self) -> Option<u64> {
        self.staging_buffer
    }

    pub closed spec fn staging_memory(&self) -> Option<u64> {
        self.staging_memory
    }

    pub closed spec fn command_buffer(&self) -> u64 {
        self.command_buffer
    }

    /// The pool its command buffer comes from.
    pub closed spec fn pool(&self) -> u64 {
        self.pool
    }

    /// The command buffer the transfer holds, once allocated.
    pub closed spec fn held_command_buffer(&self) -> Option<u64> {
        if self.holds_commands {
            Some(self.command_buffer)
        } else {
            None
        }
    }

    pub closed spec fn read_back(&self) -> Seq<u8> {
        self.read_back@
    }

    /// The transfer is on its kind's path and holds exactly the staging
    /// resources of its phase.
    pub closed spec fn wf(&self) -> bool {
        &&& on_path(self.kind, self.phase)
        &&& self.staging_buffer is Some <==> holds_buffer(self.kind, self.phase)
        &&& self.staging_memory is Some <==> holds_memory(self.kind, self.phase)
        &&& self.holds_commands <==> holds_commands(self.kind, self.phase)
    }

    /// The reply lets the transfer go on: it is the one its command gets on
    /// success, a host-visible memory type fits the staging buffer, the
    /// download fits in host memory, and the read gave as many bytes as asked.
    pub open spec fn succeeds(&self, transfer: &DataTransfer, reply: DriverReply) -> bool {
        &&& answers(self.phase(), reply)
        &&& reply matches DriverReply::Requirements(req) ==> exists|j: int|
            acceptable_type(transfer.memory_types(), req.memory_type_bits, j)
        &&& self.kind() matches TransferKind::Download { size, .. } ==> {
            &&& self.phase() == TransferPhase::MappingForRead ==> size <= usize::MAX
            &&& self.phase() == TransferPhase::UnmappingAfterRead ==> self.read_back().len()
                == size
        }
    }

    /// The commands that release what the transfer holds: its staging
    /// buffer and memory, then its command buffer.
    pub open spec fn held(&self) -> Seq<DriverCommand> {
        staging_release(self.staging_buffer(), self.staging_memory()) + command_release(
            self.pool(),
            self.held_command_buffer(),
        )
    }

    /// `command` is the one that enters this transfer's phase, with the
    /// staging buffer and memory, command buffer, pool and queue it holds.
    pub open spec fn enters_with(&self, transfer: &DataTransfer, command: DriverCommand) -> bool {
        let c = self.command_buffer();
        match self.phase() {
            TransferPhase::QueryingStaging => self.staging_buffer() matches Some(buffer) && command
                == (DriverCommand::GetBufferMemoryRequirements { buffer }),
            TransferPhase::AllocatingStaging => command is AllocateMemory,
            TransferPhase::BindingStaging => self.staging_buffer() matches Some(buffer)
                && self.staging_memory() matches Some(memory) && command
                == (DriverCommand::BindBufferMemory { buffer, memory }),
            TransferPhase::MappingForWrite => self.staging_memory() matches Some(memory) && command
                == (DriverCommand::MapMemory { memory }),
            TransferPhase::MappingForRead => self.staging_memory() matches Some(memory) && command
                == (DriverCommand::MapMemory { memory }),
            TransferPhase::Writing => command is WriteMapped,
            TransferPhase::Reading => command is ReadMapped,
            TransferPhase::UnmappingAfterWrite => self.staging_memory() matches Some(memory)
                && command == (DriverCommand::UnmapMemory { memory }),
            TransferPhase::UnmappingAfterRead => self.staging_memory() matches Some(memory)
                && command == (DriverCommand::UnmapMemory { memory }),
            TransferPhase::AllocatingCommandBuffer => command == (
            DriverCommand::AllocateCommandBuffers { pool: transfer.command_pool(), count: 1 }),
            TransferPhase::Beginning => command == (DriverCommand::BeginCommandBuffer {
                command_buffer: c,
                one_time_submit: true,
            }),
            TransferPhase::RecordingFirst => {
                ||| command matches DriverCommand::CopyBuffer { command_buffer, .. }
                    && command_buffer == c
                ||| command matches DriverCommand::PipelineBarrier { command_buffer, .. }
                    && command_buffer == c
            },
            TransferPhase::RecordingSecond => {
                ||| command matches DriverCommand::CopyBuffer { command_buffer, .. }
                    && command_buffer == c
                ||| command matches DriverCommand::PipelineBarrier { command_buffer, .. }
                    && command_buffer == c
            },
            TransferPhase::Ending => command == (DriverCommand::EndCommandBuffer {
                command_buffer: c,
            }),
            TransferPhase::Submitting => command matches DriverCommand::Submit {
                queue,
                command_buffers,
                wait_semaphore,
                signal_semaphore,
                fence,
            } && queue == transfer.queue() && command_buffers@ == seq![c] && wait_semaphore is None
                && signal_semaphore is None && fence is None,
            TransferPhase::WaitingIdle => command == (DriverCommand::WaitIdle {
                queue: transfer.queue(),
            }),
            _ => false,
        }
    }

    pub fn is_finished(&self) -> (r: bool)
        ensures
            r == (self.phase() == TransferPhase::Finished),
    {
        self.phase == TransferPhase::Finished
    }

    fn started(kind: TransferKind, phase: TransferPhase, pool: u64) -> (r: Self)
        ensures
            r.kind == kind,
            r.phase == phase,
            r.pool == pool,
            r.staging_buffer is None,
            r.staging_memory is None,
            !r.holds_commands,
            r.read_back@.len() == 0,
    {
        PendingTransfer {
            kind,
            phase,
            pool,
            staging_buffer: None,
            staging_memory: None,
            command_buffer: 0,
            holds_commands: false,
            read_back: Vec::new(),
        }
    }

    /// Ends the transfer with this result, releasing what it holds.
    fn finish(&mut self, result: TransferResult<Vec<u8>>) -> (r: Step<Vec<u8>, TransferError>)
        ensures
            r matches Step::Finish(release, res) && release@ == old(self).held() && res == result,
            final(self).phase == TransferPhase::Finished,
            final(self).staging_buffer is None,
            final(self).staging_memory is None,
            !final(self).holds_commands,
            final(self).kind == old(self).kind,
            final(self).pool == old(self).pool,
            final(self).read_back == old(self).read_back,
            final(self).command_buffer == old(self).command_buffer,
    {
        let mut release: Vec<DriverCommand> = Vec::new();
        if let Some(buffer) = self.staging_buffer {
            release.push(DriverCommand::DestroyBuffer { buffer });
        }
        if let Some(memory) = self.staging_memory {
            release.push(DriverCommand::FreeMemory { memory });
        }
        if self.holds_commands {
            release.push(
                DriverCommand::FreeCommandBuffer {
                    pool: self.pool,
                    command_buffer: self.command_buffer,
                },
            );
        }
        proof {
            assert(release@ =~= old(self).held());
        }
        self.staging_buffer = None;
        self.staging_memory = None;
        self.holds_commands = false;
        self.phase = TransferPhase::Finished;
        Step::Finish(release, result)
    }

    fn unexpected(&mut self) -> (r: Step<Vec<u8>, TransferError>)
        ensures
            r matches Step::Finish(release, Err(TransferError::CopyFailed(_))) && release@ == old(self).held(),
            final(self).phase == TransferPhase::Finished,
            final(self).staging_buffer is None,
            final(self).staging_memory is None,
            !final(self).holds_commands,
            final(self).kind == old(self).kind,
            final(self).pool == old(self).pool,
            final(self).read_back == old(self).read_back,
            final(self).command_buffer == old(self).command_buffer,
    {
        self.finish(Err(TransferError::CopyFailed("unexpected driver reply".to_owned())))
    }

    fn call(&mut self, phase: TransferPhase, command: DriverCommand) -> (r: Step<
        Vec<u8>,
        TransferError,
    >)
        ensures
            r == Step::<Vec<u8>, TransferError>::Call(command),
            final(self).phase == phase,
            final(self).staging_buffer == old(self).staging_buffer,
            final(self).staging_memory == old(self).staging_memory,
            final(self).holds_commands == old(self).holds_commands,
            final(self).kind == old(self).kind,
            final(self).pool == old(self).pool,
            final(self).read_back == old(self).read_back,
            final(self).command_buffer == old(self).command_buffer,
    {
        self.phase = phase;
        Step::Call(command)
    }

    /// Takes the driver's reply to the last command and says what comes next.
    ///
    /// A driver failure ends the transfer with the error `failure_in` names
    /// for its phase. Whenever the transfer ends, the staging buffer and
    /// memory and the command buffer it holds are released.
    pub fn resume(&mut self, transfer: &DataTransfer, reply: DriverReply) -> (r: Step<
        Vec<u8>,
        TransferError,
    >)
        requires
            old(self).wf(),
            old(self).phase() != TransferPhase::Finished,
        ensures
            final(self).wf(),
            final(self).kind() == old(self).kind(),
            final(self).pool() == old(self).pool(),
            // the handles it holds are the ones the driver gave it
            reply matches DriverReply::Buffer(buffer) ==> (old(self).phase()
                == TransferPhase::CreatingStaging && r is Call ==> final(self).staging_buffer()
                == Some(buffer)),
            reply matches DriverReply::Memory(memory) ==> (old(self).phase()
                == TransferPhase::AllocatingStaging && r is Call ==> final(self).staging_memory()
                == Some(memory)),
            reply matches DriverReply::CommandBuffers(v) ==> (old(self).phase()
                == TransferPhase::AllocatingCommandBuffer && r is Call
                ==> final(self).command_buffer() == v@[0]),
            old(self).phase() != TransferPhase::CreatingStaging && r is Call
                ==> final(self).staging_buffer() == old(self).staging_buffer(),
            old(self).phase() != TransferPhase::AllocatingStaging && r is Call
                ==> final(self).staging_memory() == old(self).staging_memory(),
            old(self).phase() != TransferPhase::AllocatingCommandBuffer
                ==> final(self).command_buffer() == old(self).command_buffer(),
            // a reply that lets the transfer go on moves it to its next phase
            old(self).succeeds(transfer, reply) ==> {
                &&& next_phase(old(self).kind(), old(self).phase()) == TransferPhase::Finished
                    ==> (r matches Step::Finish(_, Ok(_)))
                &&& next_phase(old(self).kind(), old(self).phase()) != TransferPhase::Finished
                    ==> r is Call
            },
            r is Finish <==> final(self).phase() == TransferPhase::Finished,
            // the transfer goes through its phases in order, one command each
            r matches Step::Call(command) ==> final(self).phase() == next_phase(
                old(self).kind(),
                old(self).phase(),
            ) && final(self).enters_with(transfer, command),
            r matches Step::Finish(_, Ok(_)) ==> next_phase(old(self).kind(), old(self).phase())
                == TransferPhase::Finished,
            // nothing the transfer created outlives it
            r matches Step::Finish(release, _) ==> release@ == old(self).held()
                && final(self).held() == Seq::<DriverCommand>::empty(),
            // what it holds grows only by what the driver just gave it
            reply matches DriverReply::Buffer(buffer) ==> (old(self).phase()
                == TransferPhase::CreatingStaging && r is Call ==> old(self).held().len() == 0
                && final(self).held() == seq![DriverCommand::DestroyBuffer { buffer }]),
            reply matches DriverReply::Memory(memory) ==> (old(self).phase()
                == TransferPhase::AllocatingStaging && r is Call ==> final(self).held() == old(self).held() + seq![DriverCommand::FreeMemory { memory }]),
            reply matches DriverReply::CommandBuffers(v) ==> (old(self).phase()
                == TransferPhase::AllocatingCommandBuffer && r is Call ==> final(self).held()
                == old(self).held() + seq![
                DriverCommand::FreeCommandBuffer { pool: old(self).pool(), command_buffer: v@[0] },
            ]),
            (r is Call && old(self).phase() != TransferPhase::CreatingStaging && old(self).phase()
                != TransferPhase::AllocatingStaging && old(self).phase()
                != TransferPhase::AllocatingCommandBuffer) ==> final(self).held() == old(self).held(),
            reply matches DriverReply::Failed(code) ==> (r matches Step::Finish(_, Err(e))
                && failure_in(old(self).phase(), e, code)),
            // the barriers: after the copy for an upload, before it for a download
            (old(self).kind() is Upload && old(self).phase() == TransferPhase::RecordingFirst
                && reply is Done) ==> r == Step::<Vec<u8>, TransferError>::Call(
                DriverCommand::PipelineBarrier {
                    command_buffer: old(self).command_buffer(),
                    barrier: Barrier::TransferWriteToShaderRead,
                },
            ),
            (old(self).kind() is Download && old(self).phase() == TransferPhase::Beginning
                && reply is Done) ==> r == Step::<Vec<u8>, TransferError>::Call(
                DriverCommand::PipelineBarrier {
                    command_buffer: old(self).command_buffer(),
                    barrier: Barrier::ShaderWriteToTransferRead,
                },
            ),
            // staging memory is host-visible and fit for the staging buffer
            old(self).phase() == TransferPhase::QueryingStaging ==> (
            reply matches DriverReply::Requirements(req) ==> {
                &&& (exists|j: int| acceptable_type(transfer.memory_types(), req.memory_type_bits, j))
                    ==> (r matches Step::Call(
                    DriverCommand::AllocateMemory { size, memory_type_index },
                ) && size == req.size && lowest_acceptable(
                    transfer.memory_types(),
                    req.memory_type_bits,
                    memory_type_index as int,
                ))
                &&& (forall|j: int|
                    !acceptable_type(transfer.memory_types(), req.memory_type_bits, j)) ==> (
                r matches Step::Finish(_, Err(TransferError::StagingFailed(_))))
            }),
            // an upload writes exactly its bytes into the mapped staging memory
            old(self).kind() matches TransferKind::Upload { data, destination } ==> (
            reply matches DriverReply::Pointer(p) ==> (old(self).phase()
                == TransferPhase::MappingForWrite ==> (r matches Step::Call(
                DriverCommand::WriteMapped { pointer, bytes },
            ) && pointer == p && bytes@ == data@))),
            // an upload copies the staging buffer into the destination
            old(self).kind() matches TransferKind::Upload { data, destination } ==> ((
            old(self).phase() == TransferPhase::Beginning && reply is Done
                && old(self).staging_buffer() is Some) ==> r == Step::<Vec<u8>, TransferError>::Call(
                DriverCommand::CopyBuffer {
                    command_buffer: old(self).command_buffer(),
                    src: old(self).staging_buffer().unwrap(),
                    dst: destination,
                    size: data@.len() as u64,
                },
            )),
            // a download copies the source into the staging buffer
            old(self).kind() matches TransferKind::Download { source, size } ==> ((
            old(self).phase() == TransferPhase::RecordingFirst && reply is Done
                && old(self).staging_buffer() is Some) ==> r == Step::<Vec<u8>, TransferError>::Call(
                DriverCommand::CopyBuffer {
                    command_buffer: old(self).command_buffer(),
                    src: source,
                    dst: old(self).staging_buffer().unwrap(),
                    size,
                },
            )),
            old(self).kind() matches TransferKind::DeviceToDevice { source, destination, size } ==> ((
            old(self).phase() == TransferPhase::Beginning && reply is Done) ==> r == Step::<
                Vec<u8>,
                TransferError,
            >::Call(
                DriverCommand::CopyBuffer {
                    command_buffer: old(self).command_buffer(),
                    src: source,
                    dst: destination,
                    size,
                },
            )),
            // success comes only once the queue is idle (and, for a download,
            // the staging memory was read and unmapped)
            r matches Step::Finish(_, Ok(bytes)) ==> {
                &&& !(old(self).kind() is Download) ==> old(self).phase()
                    == TransferPhase::WaitingIdle && bytes@.len() == 0
                &&& old(self).kind() matches TransferKind::Download { source, size } ==> old(self).phase() == TransferPhase::UnmappingAfterRead && bytes@ == old(self).read_back()
                    && bytes@.len() == size
            },
            // a download keeps what it read
            reply matches DriverReply::Bytes(v) ==> (old(self).phase() == TransferPhase::Reading
                ==> final(self).read_back() == v@),
    {
        if let DriverReply::Failed(code) = reply {
            let error = failure(self.phase, code);
            return self.finish(Err(error));
        }
        match self.phase {
            TransferPhase::CreatingStaging => {
                if let DriverReply::Buffer(buffer) = reply {
                    if self.staging_buffer.is_some() || self.staging_memory.is_some() {
                        return self.unexpected();
                    }
                    self.staging_buffer = Some(buffer);
                    proof {
                        assert(self.held() =~= seq![DriverCommand::DestroyBuffer { buffer }]);
                    }
                    return self.call(
                        TransferPhase::QueryingStaging,
                        DriverCommand::GetBufferMemoryRequirements { buffer },
                    );
                }
            },
            TransferPhase::QueryingStaging => {
                if let DriverReply::Requirements(req) = reply {
                    let found = lowest_compatible_type(&transfer.memory_types, req.memory_type_bits);
                    proof {
                        assert(transfer.memory_types@ == transfer.memory_types());
                    }
                    return match found {
                        Some(memory_type_index) => self.call(
                            TransferPhase::AllocatingStaging,
                            DriverCommand::AllocateMemory { size: req.size, memory_type_index },
                        ),
                        None => self.finish(
                            Err(
                                TransferError::StagingFailed(
                                    "no host-visible memory type".to_owned(),
                                ),
                            ),
                        ),
                    };
                }
            },
            TransferPhase::AllocatingStaging => {
                if let (DriverReply::Memory(memory), Some(buffer)) = (
                    &reply,
                    self.staging_buffer,
                ) {
                    let memory = *memory;
                    if self.staging_memory.is_none() {
                        self.staging_memory = Some(memory);
                        proof {
                            assert(self.held() =~= old(self).held() + seq![
                                DriverCommand::FreeMemory { memory },
                            ]);
                        }
                        return self.call(
                            TransferPhase::BindingStaging,
                            DriverCommand::BindBufferMemory { buffer, memory },
                        );
                    }
                }
            },
            TransferPhase::BindingStaging => {
                if let (DriverReply::Done, Some(memory)) = (&reply, self.staging_memory) {
                    return match &self.kind {
                        TransferKind::Upload { .. } => self.call(
                            TransferPhase::MappingForWrite,
                            DriverCommand::MapMemory { memory },
                        ),
                        _ => {
                            let pool = transfer.command_pool;
                            self.call(
                                TransferPhase::AllocatingCommandBuffer,
                                DriverCommand::AllocateCommandBuffers { pool, count: 1 },
                            )
                        },
                    };
                }
            },
            TransferPhase::MappingForWrite => {
                if let DriverReply::Pointer(pointer) = reply {
                    if let TransferKind::Upload { data, .. } = &self.kind {
                        let bytes = data.clone();
                        return self.call(
                            TransferPhase::Writing,
                            DriverCommand::WriteMapped { pointer, bytes },
                        );
                    }
                }
            },
            TransferPhase::Writing => {
                if let (DriverReply::Done, Some(memory)) = (&reply, self.staging_memory) {
                    return self.call(
                        TransferPhase::UnmappingAfterWrite,
                        DriverCommand::UnmapMemory { memory },
                    );
                }
            },
            TransferPhase::UnmappingAfterWrite => {
                if let DriverReply::Done = reply {
                    let pool = transfer.command_pool;
                    return self.call(
                        TransferPhase::AllocatingCommandBuffer,
                        DriverCommand::AllocateCommandBuffers { pool, count: 1 },
                    );
                }
            },
            TransferPhase::AllocatingCommandBuffer => {
                if let DriverReply::CommandBuffers(buffers) = reply {
                    if buffers.len() == 1 && !self.holds_commands {
                        let command_buffer = buffers[0];
                        self.command_buffer = command_buffer;
                        self.holds_commands = true;
                        proof {
                            assert(self.held() =~= old(self).held() + seq![
                                DriverCommand::FreeCommandBuffer {
                                    pool: old(self).pool(),
                                    command_buffer,
                                },
                            ]);
                        }
                        return self.call(
                            TransferPhase::Beginning,
                            DriverCommand::BeginCommandBuffer {
                                command_buffer,
                                one_time_submit: true,
                            },
                        );
                    }
                }
            },
            TransferPhase::Beginning => {
                if let DriverReply::Done = reply {
                    let command_buffer = self.command_buffer;
                    match &self.kind {
                        TransferKind::Upload { data, destination } => {
                            if let Some(src) = self.staging_buffer {
                                let dst = *destination;
                                let size = data.len() as u64;
                                return self.call(
                                    TransferPhase::RecordingFirst,
                                    DriverCommand::CopyBuffer { command_buffer, src, dst, size },
                                );
                            }
                        },
                        TransferKind::Download { .. } => {
                            return self.call(
                                TransferPhase::RecordingFirst,
                                DriverCommand::PipelineBarrier {
                                    command_buffer,
                                    barrier: Barrier::ShaderWriteToTransferRead,
                                },
                            );
                        },
                        TransferKind::DeviceToDevice { source, destination, size } => {
                            let (src, dst, size) = (*source, *destination, *size);
                            return self.call(
                                TransferPhase::RecordingFirst,
                                DriverCommand::CopyBuffer { command_buffer, src, dst, size },
                            );
                        },
                    }
                }
            },
            TransferPhase::RecordingFirst => {
                if let DriverReply::Done = reply {
                    let command_buffer = self.command_buffer;
                    match &self.kind {
                        TransferKind::Upload { .. } => {
                            return self.call(
                                TransferPhase::RecordingSecond,
                                DriverCommand::PipelineBarrier {
                                    command_buffer,
                                    barrier: Barrier::TransferWriteToShaderRead,
                                },
                            );
                        },
                        TransferKind::Download { source, size } => {
                            if let Some(dst) = self.staging_buffer {
                                let (src, size) = (*source, *size);
                                return self.call(
                                    TransferPhase::RecordingSecond,
                                    DriverCommand::CopyBuffer { command_buffer, src, dst, size },
                                );
                            }
                        },
                        TransferKind::DeviceToDevice { .. } => {
                            return self.call(
                                TransferPhase::Ending,
                                DriverCommand::EndCommandBuffer { command_buffer },
                            );
                        },
                    }
                }
            },
            TransferPhase::RecordingSecond => {
                if let DriverReply::Done = reply {
                    let command_buffer = self.command_buffer;
                    return self.call(
                        TransferPhase::Ending,
                        DriverCommand::EndCommandBuffer { command_buffer },
                    );
                }
            },
            TransferPhase::Ending => {
                if let DriverReply::Done = reply {
                    let queue = transfer.queue;
                    let mut command_buffers: Vec<u64> = Vec::new();
                    command_buffers.push(self.command_buffer);
                    return self.call(
                        TransferPhase::Submitting,
                        DriverCommand::Submit {
                            queue,
                            command_buffers,
                            wait_semaphore: None,
                            signal_semaphore: None,
                            fence: None,
                        },
                    );
                }
            },
            TransferPhase::Submitting => {
                if let DriverReply::Done = reply {
                    let queue = transfer.queue;
                    return self.call(TransferPhase::WaitingIdle, DriverCommand::WaitIdle { queue });
                }
            },
            TransferPhase::WaitingIdle => {
                if let DriverReply::Done = reply {
                    match &self.kind {
                        TransferKind::Download { .. } => {
                            if let Some(memory) = self.staging_memory {
                                return self.call(
                                    TransferPhase::MappingForRead,
                                    DriverCommand::MapMemory { memory },
                                );
                            }
                        },
                        _ => {
                            return self.finish(Ok(Vec::new()));
                        },
                    }
                }
            },
            TransferPhase::MappingForRead => {
                if let DriverReply::Pointer(pointer) = reply {
                    if let TransferKind::Download { size, .. } = &self.kind {
                        if *size > usize::MAX as u64 {
                            return self.finish(
                                Err(TransferError::InvalidSize("copy size exceeds host memory".to_owned())),
                            );
                        }
                        let len = *size as usize;
                        return self.call(
                            TransferPhase::Reading,
                            DriverCommand::ReadMapped { pointer, len },
                        );
                    }
                }
            },
            TransferPhase::Reading => {
                if let DriverReply::Bytes(bytes) = reply {
                    self.read_back = bytes;
                    if let Some(memory) = self.staging_memory {
                        return self.call(
                            TransferPhase::UnmappingAfterRead,
                            DriverCommand::UnmapMemory { memory },
                        );
                    }
                }
            },
            TransferPhase::UnmappingAfterRead => {
                if let DriverReply::Done = reply {
                    if let TransferKind::Download { size, .. } = &self.kind {
                        if self.read_back.len() as u64 == *size {
                            let bytes = self.read_back.clone();
                            return self.finish(Ok(bytes));
                        } else {
                            return self.finish(
                                Err(
                                    TransferError::CopyFailed(
                                        "driver read back the wrong length".to_owned(),
                                    ),
                                ),
                            );
                        }
                    }
                }
            },
            TransferPhase::Finished => {},
        }
        self.unexpected()
    }
}

impl DataTransfer {
    /// The memory types the device declares.
    pub closed spec fn memory_types(&self) -> Seq<MemoryType> {
        self.memory_types@
    }

    pub closed spec fn queue(&self) -> u64 {
        self.queue
    }

    pub closed spec fn command_pool(&self) -> u64 {
        self.command_pool
    }

    /// Create a transfer manager for one queue and a command pool of the
    /// same queue family, on a device that declares these memory types.
    pub fn new(queue: u64, command_pool: u64, memory_types: Vec<MemoryType>) -> (r: Self)
        ensures
            r.queue() == queue,
            r.command_pool() == command_pool,
            r.memory_types() == memory_types@,
    {
        DataTransfer { queue, command_pool, memory_types }
    }

    /// Start copying `host_data` to the start of an allocation.
    ///
    /// More bytes than the allocation holds fail with `InvalidSize`, and no
    /// bytes succeed at once; neither runs a driver command. Otherwise the
    /// first command creates a staging buffer of exactly the data's length.
    pub fn copy_to_device(&self, host_data: &[u8], device_allocation: &AllocationInfo) -> (r: (
        PendingTransfer,
        Step<Vec<u8>, TransferError>,
    ))
        ensures
            r.1 is Finish <==> r.0.phase() == TransferPhase::Finished,
            r.0.wf(),
            r.0.held() == Seq::<DriverCommand>::empty(),
            host_data@.len() > device_allocation.size ==> (r.1 matches Step::Finish(
                release,
                Err(TransferError::InvalidSize(_)),
            ) && release@.len() == 0),
            host_data@.len() == 0 ==> (r.1 matches Step::Finish(release, Ok(bytes))
                && release@.len() == 0 && bytes@.len() == 0),
            0 < host_data@.len() <= device_allocation.size ==> {
                &&& r.1 == Step::<Vec<u8>, TransferError>::Call(
                    DriverCommand::CreateBuffer {
                        size: host_data@.len() as u64,
                        usage: BufferUsage::UploadStaging,
                    },
                )
                &&& r.0.phase() == TransferPhase::CreatingStaging
                &&& r.0.kind() matches TransferKind::Upload { data, destination } && data@
                    == host_data@ && destination == device_allocation.buffer
            },
    {
        let data = vstd::slice::slice_to_vec(host_data);
        let kind = TransferKind::Upload { data, destination: device_allocation.buffer };
        let mut pending = PendingTransfer::started(
            kind,
            TransferPhase::CreatingStaging,
            self.command_pool,
        );
        proof {
            assert(pending.held() =~= Seq::<DriverCommand>::empty());
        }
        if host_data.len() as u64 > device_allocation.size {
            let step = pending.finish(
                Err(
                    TransferError::InvalidSize(
                        compared(
                            "host data size ",
                            host_data.len() as u64,
                            " > device allocation size ",
                            device_allocation.size,
                        ),
                    ),
                ),
            );
            return (pending, step);
        }
        if host_data.len() == 0 {
            let step = pending.finish(Ok(Vec::new()));
            return (pending, step);
        }
        let size = host_data.len() as u64;
        (
            pending,
            Step::Call(DriverCommand::CreateBuffer { size, usage: BufferUsage::UploadStaging }),
        )
    }

    /// Start copying `size` bytes from the start of an allocation to the host.
    ///
    /// More bytes than the allocation holds fail with `InvalidSize`, and
    /// zero bytes give an empty result at once; neither runs a driver
    /// command. Otherwise the first command creates a staging buffer of
    /// `size` bytes.
    pub fn copy_from_device(&self, device_allocation: &AllocationInfo, size: u64) -> (r: (
        PendingTransfer,
        Step<Vec<u8>, TransferError>,
    ))
        ensures
            r.1 is Finish <==> r.0.phase() == TransferPhase::Finished,
            r.0.wf(),
            r.0.held() == Seq::<DriverCommand>::empty(),
            size > device_allocation.size ==> (r.1 matches Step::Finish(
                release,
                Err(TransferError::InvalidSize(_)),
            ) && release@.len() == 0),
            size == 0 ==> (r.1 matches Step::Finish(release, Ok(bytes)) && release@.len() == 0
                && bytes@.len() == 0),
            0 < size <= device_allocation.size ==> {
                &&& r.1 == Step::<Vec<u8>, TransferError>::Call(
                    DriverCommand::CreateBuffer { size, usage: BufferUsage::DownloadStaging },
                )
                &&& r.0.phase() == TransferPhase::CreatingStaging
                &&& r.0.kind() == (TransferKind::Download {
                    source: device_allocation.buffer,
                    size,
                })
            },
    {
        let kind = TransferKind::Download { source: device_allocation.buffer, size };
        let mut pending = PendingTransfer::started(
            kind,
            TransferPhase::CreatingStaging,
            self.command_pool,
        );
        proof {
            assert(pending.held() =~= Seq::<DriverCommand>::empty());
        }
        if size > device_allocation.size {
            let step = pending.finish(
                Err(
                    TransferError::InvalidSize(
                        compared("copy size ", size, " > device allocation size ", device_allocation.size),
                    ),
                ),
            );
            return (pending, step);
        }
        if size == 0 {
            let step = pending.finish(Ok(Vec::new()));
            return (pending, step);
        }
        (
            pending,
            Step::Call(DriverCommand::CreateBuffer { size, usage: BufferUsage::DownloadStaging }),
        )
    }

    /// Start copying `size` bytes between the starts of two allocations,
    /// with no staging buffer and no barrier.
    ///
    /// A size larger than either allocation fails with `InvalidSize`, and
    /// zero bytes succeed at once; neither runs a driver command. Otherwise
    /// the first command allocates the command buffer.
    pub fn copy_device_to_device(
        &self,
        src: &AllocationInfo,
        dst: &AllocationInfo,
        size: u64,
    ) -> (r: (PendingTransfer, Step<Vec<u8>, TransferError>))
        ensures
            r.1 is Finish <==> r.0.phase() == TransferPhase::Finished,
            r.0.wf(),
            r.0.held() == Seq::<DriverCommand>::empty(),
            (size > src.size || size > dst.size) ==> (r.1 matches Step::Finish(
                release,
                Err(TransferError::InvalidSize(_)),
            ) && release@.len() == 0),
            (size == 0) ==> (r.1 matches Step::Finish(release, Ok(bytes)) && release@.len() == 0
                && bytes@.len() == 0),
            (0 < size && size <= src.size && size <= dst.size) ==> {
                &&& r.1 == Step::<Vec<u8>, TransferError>::Call(
                    DriverCommand::AllocateCommandBuffers { pool: self.command_pool(), count: 1 },
                )
                &&& r.0.phase() == TransferPhase::AllocatingCommandBuffer
                &&& r.0.kind() == (TransferKind::DeviceToDevice {
                    source: src.buffer,
                    destination: dst.buffer,
                    size,
                })
            },
    {
        let kind = TransferKind::DeviceToDevice {
            source: src.buffer,
            destination: dst.buffer,
            size,
        };
        let mut pending = PendingTransfer::started(
            kind,
            TransferPhase::AllocatingCommandBuffer,
            self.command_pool,
        );
        proof {
            assert(pending.held() =~= Seq::<DriverCommand>::empty());
        }
        if size > src.size || size > dst.size {
            let step = pending.finish(
                Err(TransferError::InvalidSize("copy size exceeds allocation size".to_owned())),
            );
            return (pending, step);
        }
        if size == 0 {
            let step = pending.finish(Ok(Vec::new()));
            return (pending, step);
        }
        (pending, Step::Call(DriverCommand::AllocateCommandBuffers { pool: self.command_pool, count: 1 }))
    }
}

/// Buffer contents after `CopyBuffer` moves the first `size` bytes of `src`
/// to the start of `dst`.
pub open spec fn after_copy(
    contents: Map<u64, Seq<u8>>,
    src: u64,
    dst: u64,
    size: nat,
) -> Map<u64, Seq<u8>> {
    contents.insert(
        dst,
        contents[src].subrange(0, size as int) + contents[dst].subrange(
            size as int,
            contents[dst].len() as int,
        ),
    )
}

/// Buffer contents after `WriteMapped` puts `bytes` at the start of the
/// memory bound to `buffer`.
pub open spec fn after_write(
    contents: Map<u64, Seq<u8>>,
    buffer: u64,
    bytes: Seq<u8>,
) -> Map<u64, Seq<u8>> {
    contents.insert(
        buffer,
        bytes + contents[buffer].subrange(bytes.len() as int, contents[buffer].len() as int),
    )
}

/// An upload followed by a download of the same length gives the uploaded
/// bytes back, where each command acts on buffer contents as its
/// description says: the upload writes `data` into its staging buffer and
/// copies `data.len()` bytes of it to the destination (as `resume` states
/// of an upload), and the download copies that many bytes of the same
/// allocation into its own staging buffer and returns what it reads there
/// (as `resume` states of a download).
pub proof fn upload_then_download_round_trips(
    contents: Map<u64, Seq<u8>>,
    data: Seq<u8>,
    upload_staging: u64,
    allocation: u64,
    download_staging: u64,
)
    requires
        upload_staging != allocation,
        download_staging != allocation,
        contents.contains_key(upload_staging),
        contents.contains_key(allocation),
        contents.contains_key(download_staging),
        contents[upload_staging].len() >= data.len(),
        contents[allocation].len() >= data.len(),
        contents[download_staging].len() >= data.len(),
    ensures
        ({
            let written = after_write(contents, upload_staging, data);
            let uploaded = after_copy(written, upload_staging, allocation, data.len());
            let downloaded = after_copy(uploaded, allocation, download_staging, data.len());
            downloaded[download_staging].subrange(0, data.len() as int) == data
        }),
{
    let n = data.len() as int;
    let written = after_write(contents, upload_staging, data);
    assert(written[upload_staging].subrange(0, n) =~= data);
    let uploaded = after_copy(written, upload_staging, allocation, data.len());
    assert(uploaded[allocation].subrange(0, n) =~= data);
    let downloaded = after_copy(uploaded, allocation, download_staging, data.len());
    assert(downloaded[download_staging].subrange(0, n) =~= data);
}

} // verus!
