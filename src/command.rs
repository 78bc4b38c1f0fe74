//! Command pools, queues and fences.
//!
//! Each operation is a driver command built here; the driver's reply comes
//! back to the matching `*_outcome` function, which turns it into a result.
use vstd::prelude::*;
use crate::driver::{Barrier, DriverCommand, DriverReply};
use crate::result_code::{
    is_timeout, labelled, result_code_description, result_code_message, result_code_name,
    result_code_text,
};

verus! {

/// Command buffer related errors.
#[derive(Debug)]
pub enum CommandError {
    PoolCreationFailed(String),
    AllocationFailed(String),
    RecordingFailed(String),
    SubmissionFailed(String),
    SynchronizationFailed(String),
    /// A driver call failed with this result code.
    VulkanError(i32),
}

pub type CommandResult<T> = Result<T, CommandError>;

impl CommandError {
    /// The message that describes the error.
    pub open spec fn text(&self) -> Seq<char> {
        match self {
            CommandError::PoolCreationFailed(m) => "Command pool creation failed: "@ + m@,
            CommandError::AllocationFailed(m) => "Command buffer allocation failed: "@ + m@,
            CommandError::RecordingFailed(m) => "Command recording failed: "@ + m@,
            CommandError::SubmissionFailed(m) => "Queue submission failed: "@ + m@,
            CommandError::SynchronizationFailed(m) => "Synchronization failed: "@ + m@,
            CommandError::VulkanError(code) => "Vulkan error: "@ + result_code_name(*code as int),
        }
    }

    pub fn to_string(&self) -> (r: String)
        ensures
            r@ == self.text(),
    {
        match self {
            CommandError::PoolCreationFailed(m) => labelled(
                "Command pool creation failed: ",
                m.as_str(),
            ),
            CommandError::AllocationFailed(m) => labelled(
                "Command buffer allocation failed: ",
                m.as_str(),
            ),
            CommandError::RecordingFailed(m) => labelled("Command recording failed: ", m.as_str()),
            CommandError::SubmissionFailed(m) => labelled("Queue submission failed: ", m.as_str()),
            CommandError::SynchronizationFailed(m) => labelled(
                "Synchronization failed: ",
                m.as_str(),
            ),
            CommandError::VulkanError(code) => {
                let name = result_code_text(*code);
                labelled("Vulkan error: ", name.as_str())
            },
        }
    }
}

/// The error detail for a reply that does not fit the command.
fn unexpected_reply() -> (r: String) {
    "unexpected driver reply".to_owned()
}

/// A command pool scoped to one queue family.
pub struct CommandPool {
    pool: u64,
    queue_family_index: u32,
}

impl CommandPool {
    pub closed spec fn raw(&self) -> u64 {
        self.pool
    }

    pub closed spec fn family(&self) -> u32 {
        self.queue_family_index
    }

    /// The command that creates a pool for a queue family.
    pub fn create(queue_family_index: u32) -> (r: DriverCommand)
        ensures
            r == (DriverCommand::CreateCommandPool { queue_family_index }),
    {
        DriverCommand::CreateCommandPool { queue_family_index }
    }

    /// The pool the driver created in reply to `create`; a driver failure
    /// gives `VulkanError`.
    pub fn new(queue_family_index: u32, reply: DriverReply) -> (r: CommandResult<CommandPool>)
        ensures
            reply matches DriverReply::CommandPool(pool) ==> (r matches Ok(p) && p.raw() == pool
                && p.family() == queue_family_index),
            reply matches DriverReply::Failed(code) ==> (r matches Err(CommandError::VulkanError(c))
                && c == code),
            !(reply is CommandPool || reply is Failed) ==> (r matches Err(
                CommandError::PoolCreationFailed(_),
            )),
    {
        match reply {
            DriverReply::CommandPool(pool) => Ok(CommandPool { pool, queue_family_index }),
            DriverReply::Failed(code) => Err(CommandError::VulkanError(code)),
            _ => Err(CommandError::PoolCreationFailed(unexpected_reply())),
        }
    }

    /// The command that allocates `count` primary command buffers from this
    /// pool. A count of 0 is not rejected, but allocates nothing.
    pub fn allocate_buffers(&self, count: u32) -> (r: DriverCommand)
        ensures
            r == (DriverCommand::AllocateCommandBuffers { pool: self.raw(), count }),
    {
        DriverCommand::AllocateCommandBuffers { pool: self.pool, count }
    }

    /// The buffers of the driver's reply to `allocate_buffers(count)`: as
    /// many as were asked for, or `AllocationFailed`.
    pub fn allocation_outcome(&self, count: u32, reply: DriverReply) -> (r: CommandResult<Vec<u64>>)
        ensures
            reply matches DriverReply::CommandBuffers(v) ==> (v@.len() == count ==> (r matches Ok(
                buffers,
            ) && buffers@ == v@)),
            reply matches DriverReply::Failed(code) ==> (r matches Err(
                CommandError::AllocationFailed(m),
            ) && m@ == result_code_description(code as int)),
            r matches Ok(buffers) ==> (reply matches DriverReply::CommandBuffers(v) && buffers@
                == v@ && v@.len() == count),
            r is Err ==> (r matches Err(CommandError::AllocationFailed(_))),
    {
        match reply {
            DriverReply::CommandBuffers(buffers) => {
                if buffers.len() as u64 == count as u64 {
                    Ok(buffers)
                } else {
                    Err(CommandError::AllocationFailed(unexpected_reply()))
                }
            },
            DriverReply::Failed(code) => Err(CommandError::AllocationFailed(result_code_message(code))),
            _ => Err(CommandError::AllocationFailed(unexpected_reply())),
        }
    }

    /// The command that begins recording a buffer of this pool.
    pub fn begin_recording(&self, buffer: u64, one_time_submit: bool) -> (r: DriverCommand)
        ensures
            r == (DriverCommand::BeginCommandBuffer { command_buffer: buffer, one_time_submit }),
    {
        DriverCommand::BeginCommandBuffer { command_buffer: buffer, one_time_submit }
    }

    /// The command that ends recording a buffer.
    pub fn end_recording(&self, buffer: u64) -> (r: DriverCommand)
        ensures
            r == (DriverCommand::EndCommandBuffer { command_buffer: buffer }),
    {
        DriverCommand::EndCommandBuffer { command_buffer: buffer }
    }

    /// The outcome of `begin_recording` or `end_recording`: a driver
    /// failure, such as ending a buffer that is not recording, gives
    /// `RecordingFailed`.
    pub fn recording_outcome(reply: DriverReply) -> (r: CommandResult<()>)
        ensures
            reply is Done ==> r is Ok,
            reply matches DriverReply::Failed(code) ==> (r matches Err(
                CommandError::RecordingFailed(m),
            ) && m@ == result_code_description(code as int)),
            !(reply is Done) ==> (r matches Err(CommandError::RecordingFailed(_))),
    {
        match reply {
            DriverReply::Done => Ok(()),
            DriverReply::Failed(code) => Err(CommandError::RecordingFailed(result_code_message(code))),
            _ => Err(CommandError::RecordingFailed(unexpected_reply())),
        }
    }

    /// The command that resets a buffer for reuse.
    pub fn reset_buffer(&self, buffer: u64) -> (r: DriverCommand)
        ensures
            r == (DriverCommand::ResetCommandBuffer { command_buffer: buffer }),
    {
        DriverCommand::ResetCommandBuffer { command_buffer: buffer }
    }

    /// The outcome of `reset_buffer`: a driver failure gives `VulkanError`.
    pub fn reset_outcome(reply: DriverReply) -> (r: CommandResult<()>)
        ensures
            reply is Done ==> r is Ok,
            reply matches DriverReply::Failed(code) ==> (r matches Err(CommandError::VulkanError(c))
                && c == code),
            !(reply is Done || reply is Failed) ==> (r matches Err(
                CommandError::RecordingFailed(_),
            )),
    {
        match reply {
            DriverReply::Done => Ok(()),
            DriverReply::Failed(code) => Err(CommandError::VulkanError(code)),
            _ => Err(CommandError::RecordingFailed(unexpected_reply())),
        }
    }

    /// The command that records a memory barrier into a recording buffer.
    pub fn record_barrier(&self, buffer: u64, barrier: Barrier) -> (r: DriverCommand)
        ensures
            r == (DriverCommand::PipelineBarrier { command_buffer: buffer, barrier }),
    {
        DriverCommand::PipelineBarrier { command_buffer: buffer, barrier }
    }

    /// The queue family of this pool.
    pub fn queue_family_index(&self) -> (r: u32)
        ensures
            r == self.family(),
    {
        self.queue_family_index
    }

    /// The command that destroys the pool, once none of its buffers is in
    /// flight.
    pub fn destroy(self) -> (r: DriverCommand)
        ensures
            r == (DriverCommand::DestroyCommandPool { pool: self.raw() }),
    {
        DriverCommand::DestroyCommandPool { pool: self.pool }
    }
}

/// One submission channel of a queue family.
pub struct Queue {
    queue: u64,
    queue_family_index: u32,
}

impl Queue {
    pub closed spec fn raw(&self) -> u64 {
        self.queue
    }

    pub closed spec fn family(&self) -> u32 {
        self.queue_family_index
    }

    pub fn new(queue: u64, queue_family_index: u32) -> (r: Queue)
        ensures
            r.raw() == queue,
            r.family() == queue_family_index,
    {
        Queue { queue, queue_family_index }
    }

    /// The command that submits `buffers` as one batch, waiting for
    /// `wait_semaphore` and signaling `signal_semaphore` and `fence` where
    /// given.
    pub fn submit(
        &self,
        buffers: &[u64],
        wait_semaphore: Option<u64>,
        signal_semaphore: Option<u64>,
        fence: Option<u64>,
    ) -> (r: DriverCommand)
        ensures
            r matches DriverCommand::Submit { queue, command_buffers, wait_semaphore: w, signal_semaphore: s, fence: f }
                && queue == self.raw() && command_buffers@ == buffers@ && w == wait_semaphore
                && s == signal_semaphore && f == fence,
    {
        let command_buffers = vstd::slice::slice_to_vec(buffers);
        DriverCommand::Submit {
            queue: self.queue,
            command_buffers,
            wait_semaphore,
            signal_semaphore,
            fence,
        }
    }

    /// The outcome of `submit`: a driver failure gives `SubmissionFailed`.
    pub fn submission_outcome(reply: DriverReply) -> (r: CommandResult<()>)
        ensures
            reply is Done ==> r is Ok,
            reply matches DriverReply::Failed(code) ==> (r matches Err(
                CommandError::SubmissionFailed(m),
            ) && m@ == result_code_description(code as int)),
            !(reply is Done) ==> (r matches Err(CommandError::SubmissionFailed(_))),
    {
        match reply {
            DriverReply::Done => Ok(()),
            DriverReply::Failed(code) => Err(CommandError::SubmissionFailed(result_code_message(code))),
            _ => Err(CommandError::SubmissionFailed(unexpected_reply())),
        }
    }

    /// The command that blocks until the queue has no outstanding work.
    pub fn wait_idle(&self) -> (r: DriverCommand)
        ensures
            r == (DriverCommand::WaitIdle { queue: self.raw() }),
    {
        DriverCommand::WaitIdle { queue: self.queue }
    }

    /// The outcome of `wait_idle`: a driver failure gives
    /// `SynchronizationFailed`.
    pub fn idle_outcome(reply: DriverReply) -> (r: CommandResult<()>)
        ensures
            reply is Done ==> r is Ok,
            reply matches DriverReply::Failed(code) ==> (r matches Err(
                CommandError::SynchronizationFailed(m),
            ) && m@ == result_code_description(code as int)),
            !(reply is Done) ==> (r matches Err(CommandError::SynchronizationFailed(_))),
    {
        match reply {
            DriverReply::Done => Ok(()),
            DriverReply::Failed(code) => Err(
                CommandError::SynchronizationFailed(result_code_message(code)),
            ),
            _ => Err(CommandError::SynchronizationFailed(unexpected_reply())),
        }
    }

    /// The queue family of this queue.
    pub fn queue_family_index(&self) -> (r: u32)
        ensures
            r == self.family(),
    {
        self.queue_family_index
    }
}

/// A binary synchronization object, with the state last observed of it.
pub struct Fence {
    fence: u64,
    signaled: bool,
}

impl Fence {
    pub closed spec fn handle(&self) -> u64 {
        self.fence
    }

    /// Whether the fence was last seen signaled.
    pub closed spec fn signaled(&self) -> bool {
        self.signaled
    }

    /// The command that creates a fence, signaled from the start if asked.
    pub fn create(signaled: bool) -> (r: DriverCommand)
        ensures
            r == (DriverCommand::CreateFence { signaled }),
    {
        DriverCommand::CreateFence { signaled }
    }

    /// The fence the driver created in reply to `create(signaled)`; a driver
    /// failure gives `VulkanError`.
    pub fn new(signaled: bool, reply: DriverReply) -> (r: CommandResult<Fence>)
        ensures
            reply matches DriverReply::Fence(fence) ==> (r matches Ok(f) && f.handle() == fence
                && f.signaled() == signaled),
            reply matches DriverReply::Failed(code) ==> (r matches Err(CommandError::VulkanError(c))
                && c == code),
            !(reply is Fence || reply is Failed) ==> (r matches Err(
                CommandError::SynchronizationFailed(_),
            )),
    {
        match reply {
            DriverReply::Fence(fence) => Ok(Fence { fence, signaled }),
            DriverReply::Failed(code) => Err(CommandError::VulkanError(code)),
            _ => Err(CommandError::SynchronizationFailed(unexpected_reply())),
        }
    }

    /// The command that waits for the fence for at most `timeout_ns`.
    pub fn wait(&self, timeout_ns: u64) -> (r: DriverCommand)
        ensures
            r == (DriverCommand::WaitForFence { fence: self.handle(), timeout_ns }),
    {
        DriverCommand::WaitForFence { fence: self.fence, timeout_ns }
    }

    /// The outcome of `wait`: `true` once signaled, `false` on a timeout,
    /// `SynchronizationFailed` on any other driver failure.
    pub fn wait_outcome(&mut self, reply: DriverReply) -> (r: CommandResult<bool>)
        ensures
            final(self).handle() == old(self).handle(),
            reply is Done ==> r == Ok::<bool, CommandError>(true) && final(self).signaled(),
            reply matches DriverReply::Failed(code) ==> (code == 2 ==> r == Ok::<
                bool,
                CommandError,
            >(false) && final(self).signaled() == old(self).signaled()),
            reply matches DriverReply::Failed(code) ==> (code != 2 ==> (r matches Err(
                CommandError::SynchronizationFailed(m),
            ) && m@ == result_code_description(code as int))),
            !(reply is Done || reply is Failed) ==> (r matches Err(
                CommandError::SynchronizationFailed(_),
            )),
            r is Err ==> final(self).signaled() == old(self).signaled(),
    {
        match reply {
            DriverReply::Done => {
                self.signaled = true;
                Ok(true)
            },
            DriverReply::Failed(code) => {
                if is_timeout(code) {
                    Ok(false)
                } else {
                    Err(CommandError::SynchronizationFailed(result_code_message(code)))
                }
            },
            _ => Err(CommandError::SynchronizationFailed(unexpected_reply())),
        }
    }

    /// The command that resets the fence to unsignaled; no pending
    /// submission may use it.
    pub fn reset(&self) -> (r: DriverCommand)
        ensures
            r == (DriverCommand::ResetFence { fence: self.handle() }),
    {
        DriverCommand::ResetFence { fence: self.fence }
    }

    /// The outcome of `reset`: the fence is unsignaled, or a driver failure
    /// gives `VulkanError` and the state stays.
    pub fn reset_outcome(&mut self, reply: DriverReply) -> (r: CommandResult<()>)
        ensures
            final(self).handle() == old(self).handle(),
            reply is Done ==> r is Ok && !final(self).signaled(),
            reply matches DriverReply::Failed(code) ==> (r matches Err(CommandError::VulkanError(c))
                && c == code),
            !(reply is Done || reply is Failed) ==> (r matches Err(
                CommandError::SynchronizationFailed(_),
            )),
            r is Err ==> final(self).signaled() == old(self).signaled(),
    {
        match reply {
            DriverReply::Done => {
                self.signaled = false;
                Ok(())
            },
            DriverReply::Failed(code) => Err(CommandError::VulkanError(code)),
            _ => Err(CommandError::SynchronizationFailed(unexpected_reply())),
        }
    }

    /// The raw fence handle.
    pub fn raw(&self) -> (r: u64)
        ensures
            r == self.handle(),
    {
        self.fence
    }

    /// Whether the fence was last seen signaled.
    pub fn is_signaled(&self) -> (r: bool)
        ensures
            r == self.signaled(),
    {
        self.signaled
    }

    /// The command that destroys the fence, once no submission uses it.
    pub fn destroy(self) -> (r: DriverCommand)
        ensures
            r == (DriverCommand::DestroyFence { fence: self.handle() }),
    {
        DriverCommand::DestroyFence { fence: self.fence }
    }
}

} // verus!
