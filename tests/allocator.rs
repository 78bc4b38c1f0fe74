use std::collections::HashMap;

use exo_vulkan::driver::{
    Barrier, BufferUsage, DriverCommand, DriverReply, MemoryRequirements, MemoryType, Step,
};
use exo_vulkan::memory::{
    lowest_compatible_type, matches_memory_requirements, select_memory_type, AllocationInfo,
    MapStep, MemoryAllocator, MemoryError,
};
use exo_vulkan::transfer::{DataTransfer, TransferError};

const ERROR_OUT_OF_DEVICE_MEMORY: i32 = -2;

/// A device double: buffers, memory blocks with contents, mappings and
/// command buffers, with a bound on live objects and one injectable failure.
struct FakeDevice {
    next: u64,
    capacity: usize,
    type_bits: u32,
    buffers: HashMap<u64, Option<u64>>,
    memories: HashMap<u64, Vec<u8>>,
    mappings: HashMap<usize, u64>,
    recorded: HashMap<u64, Vec<(u64, u64, u64)>>,
    fail_on: Option<&'static str>,
    log: Vec<DriverCommand>,
}

fn kind(command: &DriverCommand) -> &'static str {
    match command {
        DriverCommand::CreateBuffer { .. } => "create_buffer",
        DriverCommand::GetBufferMemoryRequirements { .. } => "requirements",
        DriverCommand::AllocateMemory { .. } => "allocate_memory",
        DriverCommand::BindBufferMemory { .. } => "bind",
        DriverCommand::MapMemory { .. } => "map",
        DriverCommand::UnmapMemory { .. } => "unmap",
        DriverCommand::WriteMapped { .. } => "write",
        DriverCommand::ReadMapped { .. } => "read",
        DriverCommand::DestroyBuffer { .. } => "destroy_buffer",
        DriverCommand::FreeMemory { .. } => "free_memory",
        DriverCommand::CreateCommandPool { .. } => "create_pool",
        DriverCommand::DestroyCommandPool { .. } => "destroy_pool",
        DriverCommand::AllocateCommandBuffers { .. } => "allocate_command_buffer",
        DriverCommand::FreeCommandBuffer { .. } => "free_command_buffer",
        DriverCommand::BeginCommandBuffer { .. } => "begin",
        DriverCommand::ResetCommandBuffer { .. } => "reset_command_buffer",
        DriverCommand::CopyBuffer { .. } => "copy",
        DriverCommand::PipelineBarrier { .. } => "barrier",
        DriverCommand::EndCommandBuffer { .. } => "end",
        DriverCommand::Submit { .. } => "submit",
        DriverCommand::WaitIdle { .. } => "wait_idle",
        DriverCommand::CreateFence { .. } => "create_fence",
        DriverCommand::WaitForFence { .. } => "wait_fence",
        DriverCommand::ResetFence { .. } => "reset_fence",
        DriverCommand::DestroyFence { .. } => "destroy_fence",
    }
}

impl FakeDevice {
    fn new(capacity: usize, type_bits: u32) -> FakeDevice {
        FakeDevice {
            next: 1,
            capacity,
            type_bits,
            buffers: HashMap::new(),
            memories: HashMap::new(),
            mappings: HashMap::new(),
            recorded: HashMap::new(),
            fail_on: None,
            log: Vec::new(),
        }
    }

    fn live(&self) -> usize {
        self.buffers.len() + self.memories.len() + self.recorded.len()
    }

    fn fresh(&mut self) -> u64 {
        self.next += 1;
        self.next
    }

    fn count(&self, name: &str) -> usize {
        self.log.iter().filter(|c| kind(c) == name).count()
    }

    fn run(&mut self, command: &DriverCommand) -> DriverReply {
        self.log.push(command.clone());
        if self.fail_on == Some(kind(command)) {
            self.fail_on = None;
            return DriverReply::Failed(ERROR_OUT_OF_DEVICE_MEMORY);
        }
        match command {
            DriverCommand::CreateBuffer { .. } => {
                if self.live() >= self.capacity {
                    return DriverReply::Failed(ERROR_OUT_OF_DEVICE_MEMORY);
                }
                let b = self.fresh();
                self.buffers.insert(b, None);
                DriverReply::Buffer(b)
            }
            DriverCommand::GetBufferMemoryRequirements { .. } => {
                DriverReply::Requirements(MemoryRequirements {
                    size: 4096,
                    alignment: 256,
                    memory_type_bits: self.type_bits,
                })
            }
            DriverCommand::AllocateMemory { size, .. } => {
                if self.live() >= self.capacity {
                    return DriverReply::Failed(ERROR_OUT_OF_DEVICE_MEMORY);
                }
                let m = self.fresh();
                self.memories.insert(m, vec![0u8; *size as usize]);
                DriverReply::Memory(m)
            }
            DriverCommand::BindBufferMemory { buffer, memory } => {
                self.buffers.insert(*buffer, Some(*memory));
                DriverReply::Done
            }
            DriverCommand::MapMemory { memory } => {
                let p = (*memory as usize) * 0x1000;
                self.mappings.insert(p, *memory);
                DriverReply::Pointer(p)
            }
            DriverCommand::UnmapMemory { memory } => {
                self.mappings.retain(|_, m| *m != *memory);
                DriverReply::Done
            }
            DriverCommand::WriteMapped { pointer, bytes } => {
                let m = self.mappings[pointer];
                let block = self.memories.get_mut(&m).unwrap();
                block[..bytes.len()].copy_from_slice(bytes);
                DriverReply::Done
            }
            DriverCommand::ReadMapped { pointer, len } => {
                let m = self.mappings[pointer];
                DriverReply::Bytes(self.memories[&m][..*len].to_vec())
            }
            DriverCommand::DestroyBuffer { buffer } => {
                self.buffers.remove(buffer);
                DriverReply::Done
            }
            DriverCommand::FreeMemory { memory } => {
                self.memories.remove(memory);
                DriverReply::Done
            }
            DriverCommand::AllocateCommandBuffers { count, .. } => {
                let mut buffers = Vec::new();
                for _ in 0..*count {
                    let c = self.fresh();
                    self.recorded.insert(c, Vec::new());
                    buffers.push(c);
                }
                DriverReply::CommandBuffers(buffers)
            }
            DriverCommand::FreeCommandBuffer { command_buffer, .. } => {
                self.recorded.remove(command_buffer);
                DriverReply::Done
            }
            DriverCommand::CopyBuffer { command_buffer, src, dst, size } => {
                self.recorded.get_mut(command_buffer).unwrap().push((*src, *dst, *size));
                DriverReply::Done
            }
            DriverCommand::Submit { command_buffers, .. } => {
                let command_buffer = &command_buffers[0];
                for (src, dst, size) in self.recorded[command_buffer].clone() {
                    let from = self.buffers[&src].unwrap();
                    let to = self.buffers[&dst].unwrap();
                    let bytes = self.memories[&from][..size as usize].to_vec();
                    self.memories.get_mut(&to).unwrap()[..size as usize].copy_from_slice(&bytes);
                }
                DriverReply::Done
            }
            _ => DriverReply::Done,
        }
    }
}

fn two_types() -> Vec<MemoryType> {
    vec![MemoryType { host_visible: false }, MemoryType { host_visible: true }]
}

fn allocate(
    device: &mut FakeDevice,
    allocator: &mut MemoryAllocator,
    size: u64,
    memory_type_index: u32,
    handle_id: &str,
) -> Result<String, MemoryError> {
    let (mut pending, mut step) = allocator.allocate(size, memory_type_index, handle_id.to_string());
    loop {
        match step {
            Step::Call(command) => {
                let reply = device.run(&command);
                step = pending.resume(allocator, reply);
            }
            Step::Finish(release, result) => {
                for command in &release {
                    device.run(command);
                }
                return result;
            }
        }
    }
}

fn run_all(device: &mut FakeDevice, commands: &[DriverCommand]) {
    for command in commands {
        let _ = device.run(command);
    }
}

fn map(device: &mut FakeDevice, allocator: &mut MemoryAllocator, handle_id: &str) -> usize {
    match allocator.map(handle_id) {
        Ok(MapStep::Mapped(p)) => p,
        Ok(MapStep::Call(command)) => {
            let reply = device.run(&command);
            allocator.complete_map(handle_id, reply).expect("map")
        }
        Err(e) => panic!("map failed: {}", e.to_string()),
    }
}

fn transfer(
    device: &mut FakeDevice,
    engine: &DataTransfer,
    started: (exo_vulkan::transfer::PendingTransfer, Step<Vec<u8>, TransferError>),
) -> Result<Vec<u8>, TransferError> {
    let (mut pending, mut step) = started;
    loop {
        match step {
            Step::Call(command) => {
                let reply = device.run(&command);
                step = pending.resume(engine, reply);
            }
            Step::Finish(release, result) => {
                run_all(device, &release);
                return result;
            }
        }
    }
}

fn info(allocator: &MemoryAllocator, handle_id: &str) -> AllocationInfo {
    allocator.get_allocation(handle_id).expect("allocation").clone()
}

#[test]
fn test_memory_error_display() {
    let err = MemoryError::AllocationFailed("test".to_string());
    assert!(err.to_string().contains("test"));
}

#[test]
fn test_transfer_error_display() {
    let err = TransferError::CopyFailed("test".to_string());
    assert!(err.to_string().contains("test"));
}

#[test]
fn error_messages_name_the_driver_code() {
    assert_eq!(
        MemoryError::VulkanError(ERROR_OUT_OF_DEVICE_MEMORY).to_string(),
        "Vulkan error: ERROR_OUT_OF_DEVICE_MEMORY"
    );
    assert_eq!(
        TransferError::VulkanError(2).to_string(),
        "Vulkan error: TIMEOUT"
    );
    assert_eq!(MemoryError::NotFound("h".to_string()).to_string(), "Memory not found: h");
    assert_eq!(MemoryError::MapFailed("x".to_string()).to_string(), "Memory mapping failed: x");
    assert_eq!(
        MemoryError::InvalidMemoryType("y".to_string()).to_string(),
        "Invalid memory type: y"
    );
    assert_eq!(TransferError::InvalidSize("z".to_string()).to_string(), "Invalid size: z");
    assert_eq!(
        TransferError::StagingFailed("s".to_string()).to_string(),
        "Staging buffer failed: s"
    );
    assert_eq!(
        TransferError::SynchronizationFailed("w".to_string()).to_string(),
        "Synchronization failed: w"
    );
}

#[test]
fn memory_type_matching() {
    let req = MemoryRequirements { size: 64, alignment: 16, memory_type_bits: 0b0110 };
    let visible = MemoryType { host_visible: true };
    let local = MemoryType { host_visible: false };
    assert!(matches_memory_requirements(&req, &visible, 1));
    assert!(matches_memory_requirements(&req, &visible, 2));
    assert!(!matches_memory_requirements(&req, &visible, 0));
    assert!(!matches_memory_requirements(&req, &local, 1));
    assert!(!matches_memory_requirements(&req, &visible, 40));
    let types = vec![visible, local, visible];
    assert_eq!(lowest_compatible_type(&types, 0b0110), Some(2));
    assert_eq!(lowest_compatible_type(&types, 0b0010), None);
    assert_eq!(lowest_compatible_type(&types, 0b0111), Some(0));
    assert_eq!(select_memory_type(&types, 2, &req), Some(2));
    assert_eq!(select_memory_type(&types, 1, &req), Some(2));
    assert_eq!(select_memory_type(&types, 9, &req), Some(2));
}

#[test]
fn allocate_then_deallocate_does_not_leak() {
    let mut device = FakeDevice::new(4, 0b10);
    let mut allocator = MemoryAllocator::new(two_types());
    for round in 0..10 {
        let id = format!("buf{}", round);
        let handle = allocate(&mut device, &mut allocator, 100, 1, &id);
        assert_eq!(handle.expect("allocate"), id);
        assert_eq!(allocator.allocation_count(), 1);
        assert_eq!(device.live(), 2);
        let commands = allocator.deallocate(&id).expect("deallocate");
        assert_eq!(commands.len(), 2);
        run_all(&mut device, &commands);
        assert!(matches!(allocator.get_allocation(&id), Err(MemoryError::NotFound(_))));
        assert_eq!(allocator.allocation_count(), 0);
        assert_eq!(device.live(), 0);
    }
}

#[test]
fn allocation_record_holds_requested_size_and_handles() {
    let mut device = FakeDevice::new(8, 0b10);
    let mut allocator = MemoryAllocator::new(two_types());
    allocate(&mut device, &mut allocator, 100, 1, "a").expect("allocate");
    let record = info(&allocator, "a");
    assert_eq!(record.handle_id, "a");
    assert_eq!(record.size, 100);
    assert_eq!(record.mapped_ptr, None);
    assert_eq!(device.buffers[&record.buffer], Some(record.device_memory));
    assert_eq!(device.memories[&record.device_memory].len(), 4096);
    assert_eq!(
        device.log[0],
        DriverCommand::CreateBuffer { size: 100, usage: BufferUsage::Storage }
    );
}

#[test]
fn allocate_rejects_bad_inputs_without_driver_calls() {
    let mut device = FakeDevice::new(8, 0b10);
    let mut allocator = MemoryAllocator::new(two_types());
    assert!(matches!(
        allocate(&mut device, &mut allocator, 0, 1, "a"),
        Err(MemoryError::AllocationFailed(_))
    ));
    assert!(matches!(
        allocate(&mut device, &mut allocator, 16, 2, "a"),
        Err(MemoryError::InvalidMemoryType(_))
    ));
    assert!(device.log.is_empty());
    allocate(&mut device, &mut allocator, 16, 1, "a").expect("allocate");
    let calls = device.log.len();
    assert!(matches!(
        allocate(&mut device, &mut allocator, 16, 1, "a"),
        Err(MemoryError::AllocationFailed(_))
    ));
    assert_eq!(device.log.len(), calls);
    assert_eq!(allocator.allocation_count(), 1);
}

#[test]
fn map_twice_returns_the_same_pointer() {
    let mut device = FakeDevice::new(8, 0b10);
    let mut allocator = MemoryAllocator::new(two_types());
    allocate(&mut device, &mut allocator, 64, 1, "m").expect("allocate");
    let first = map(&mut device, &mut allocator, "m");
    let second = map(&mut device, &mut allocator, "m");
    assert_eq!(first, second);
    assert_eq!(device.count("map"), 1);
    assert_eq!(info(&allocator, "m").mapped_ptr, Some(first));
}

#[test]
fn unmap_of_unmapped_allocation_is_a_no_op() {
    let mut device = FakeDevice::new(8, 0b10);
    let mut allocator = MemoryAllocator::new(two_types());
    allocate(&mut device, &mut allocator, 64, 1, "u").expect("allocate");
    let commands = allocator.unmap("u").expect("unmap");
    assert!(commands.is_empty());
    assert_eq!(info(&allocator, "u").mapped_ptr, None);
}

#[test]
fn unmap_after_map_clears_the_pointer() {
    let mut device = FakeDevice::new(8, 0b10);
    let mut allocator = MemoryAllocator::new(two_types());
    allocate(&mut device, &mut allocator, 64, 1, "u").expect("allocate");
    map(&mut device, &mut allocator, "u");
    let memory = info(&allocator, "u").device_memory;
    let commands = allocator.unmap("u").expect("unmap");
    assert_eq!(commands, vec![DriverCommand::UnmapMemory { memory }]);
    assert_eq!(info(&allocator, "u").mapped_ptr, None);
}

#[test]
fn deallocate_unmaps_before_freeing() {
    let mut device = FakeDevice::new(8, 0b10);
    let mut allocator = MemoryAllocator::new(two_types());
    allocate(&mut device, &mut allocator, 64, 1, "d").expect("allocate");
    map(&mut device, &mut allocator, "d");
    let record = info(&allocator, "d");
    let commands = allocator.deallocate("d").expect("deallocate");
    assert_eq!(
        commands,
        vec![
            DriverCommand::UnmapMemory { memory: record.device_memory },
            DriverCommand::DestroyBuffer { buffer: record.buffer },
            DriverCommand::FreeMemory { memory: record.device_memory },
        ]
    );
}

#[test]
fn unknown_handle_is_not_found_and_changes_nothing() {
    let mut device = FakeDevice::new(8, 0b10);
    let mut allocator = MemoryAllocator::new(two_types());
    allocate(&mut device, &mut allocator, 64, 1, "known").expect("allocate");
    let before = info(&allocator, "known");
    match allocator.map("ghost") {
        Err(MemoryError::NotFound(h)) => assert_eq!(h, "ghost"),
        _ => panic!("expected NotFound"),
    }
    assert!(matches!(allocator.unmap("ghost"), Err(MemoryError::NotFound(_))));
    assert!(matches!(allocator.deallocate("ghost"), Err(MemoryError::NotFound(_))));
    assert!(matches!(
        allocator.complete_map("ghost", DriverReply::Pointer(7)),
        Err(MemoryError::NotFound(_))
    ));
    assert_eq!(allocator.allocation_count(), 1);
    let after = info(&allocator, "known");
    assert_eq!(after.buffer, before.buffer);
    assert_eq!(after.mapped_ptr, None);
}

#[test]
fn failed_map_leaves_the_allocation_unmapped() {
    let mut device = FakeDevice::new(8, 0b10);
    let mut allocator = MemoryAllocator::new(two_types());
    allocate(&mut device, &mut allocator, 64, 1, "f").expect("allocate");
    assert!(matches!(
        allocator.complete_map("f", DriverReply::Failed(-5)),
        Err(MemoryError::MapFailed(ref m)) if m.as_str() == "Mapping of a memory object has failed"
    ));
    assert!(matches!(
        allocator.complete_map("f", DriverReply::Done),
        Err(MemoryError::MapFailed(_))
    ));
    assert_eq!(info(&allocator, "f").mapped_ptr, None);
}

#[test]
fn incompatible_memory_type_is_corrected_once() {
    // type 0 is device-local only, type 1 host-visible; the buffer accepts both
    let mut device = FakeDevice::new(8, 0b11);
    let mut allocator = MemoryAllocator::new(two_types());
    let handle = allocate(&mut device, &mut allocator, 4096, 0, "corrected");
    assert_eq!(handle.expect("allocate"), "corrected");
    assert_eq!(device.count("create_buffer"), 1);
    assert!(device.log.contains(&DriverCommand::AllocateMemory {
        size: 4096,
        memory_type_index: 1
    }));
    assert_eq!(device.live(), 2);
}

#[test]
fn no_acceptable_memory_type_fails_and_releases_the_buffer() {
    // the buffer accepts only the device-local type
    let mut device = FakeDevice::new(8, 0b01);
    let mut allocator = MemoryAllocator::new(two_types());
    let result = allocate(&mut device, &mut allocator, 4096, 0, "none");
    assert!(matches!(result, Err(MemoryError::InvalidMemoryType(_))));
    assert_eq!(device.live(), 0);
    assert_eq!(allocator.allocation_count(), 0);
}

#[test]
fn bind_failure_releases_buffer_and_memory() {
    let mut device = FakeDevice::new(8, 0b10);
    device.fail_on = Some("bind");
    let mut allocator = MemoryAllocator::new(two_types());
    let result = allocate(&mut device, &mut allocator, 256, 1, "broken");
    match result {
        Err(MemoryError::AllocationFailed(m)) => {
            assert_eq!(m, "A device memory allocation has failed")
        }
        other => panic!("expected AllocationFailed, got {:?}", other),
    }
    assert_eq!(device.count("destroy_buffer"), 1);
    assert_eq!(device.count("free_memory"), 1);
    assert_eq!(device.live(), 0);
    assert!(matches!(allocator.get_allocation("broken"), Err(MemoryError::NotFound(_))));
}

#[test]
fn memory_allocation_failure_releases_the_buffer() {
    let mut device = FakeDevice::new(8, 0b10);
    device.fail_on = Some("allocate_memory");
    let mut allocator = MemoryAllocator::new(two_types());
    let result = allocate(&mut device, &mut allocator, 256, 1, "broken");
    assert!(matches!(result, Err(MemoryError::AllocationFailed(_))));
    assert_eq!(device.count("destroy_buffer"), 1);
    assert_eq!(device.live(), 0);
    assert_eq!(allocator.allocation_count(), 0);
}

#[test]
fn teardown_cleans_up_the_rest_when_one_release_fails() {
    let mut device = FakeDevice::new(16, 0b10);
    let mut allocator = MemoryAllocator::new(two_types());
    for id in ["a", "b", "c"] {
        allocate(&mut device, &mut allocator, 128, 1, id).expect("allocate");
    }
    map(&mut device, &mut allocator, "b");
    let failing = info(&allocator, "a");
    let commands = allocator.teardown();
    assert_eq!(commands.len(), 7);
    assert_eq!(allocator.allocation_count(), 0);
    device.fail_on = Some("destroy_buffer");
    run_all(&mut device, &commands);
    // only the buffer whose destruction failed is left
    assert_eq!(device.buffers.len(), 1);
    assert!(device.buffers.contains_key(&failing.buffer));
    assert!(device.memories.is_empty());
    assert!(device.mappings.is_empty());
}

#[test]
fn copy_of_nothing_runs_no_command() {
    let mut device = FakeDevice::new(8, 0b10);
    let mut allocator = MemoryAllocator::new(two_types());
    allocate(&mut device, &mut allocator, 64, 1, "t").expect("allocate");
    let calls = device.log.len();
    let engine = DataTransfer::new(1, 2, two_types());
    let target = info(&allocator, "t");
    let result = transfer(&mut device, &engine, engine.copy_to_device(&[], &target));
    assert_eq!(result.expect("upload"), Vec::<u8>::new());
    let result = transfer(&mut device, &engine, engine.copy_from_device(&target, 0));
    assert_eq!(result.expect("download"), Vec::<u8>::new());
    let result = transfer(&mut device, &engine, engine.copy_device_to_device(&target, &target, 0));
    assert!(result.is_ok());
    assert_eq!(device.log.len(), calls);
}

#[test]
fn oversized_copies_fail_with_invalid_size() {
    let mut device = FakeDevice::new(8, 0b10);
    let mut allocator = MemoryAllocator::new(two_types());
    allocate(&mut device, &mut allocator, 4, 1, "small").expect("allocate");
    allocate(&mut device, &mut allocator, 8, 1, "large").expect("allocate");
    let calls = device.log.len();
    let engine = DataTransfer::new(1, 2, two_types());
    let small = info(&allocator, "small");
    let large = info(&allocator, "large");
    let result = transfer(&mut device, &engine, engine.copy_to_device(&[1, 2, 3, 4, 5], &small));
    assert!(matches!(result, Err(TransferError::InvalidSize(_))));
    let result = transfer(&mut device, &engine, engine.copy_from_device(&small, 5));
    assert!(matches!(result, Err(TransferError::InvalidSize(_))));
    let result = transfer(&mut device, &engine, engine.copy_device_to_device(&large, &small, 6));
    assert!(matches!(result, Err(TransferError::InvalidSize(_))));
    assert_eq!(device.log.len(), calls);
}

#[test]
fn upload_then_download_round_trips() {
    let mut device = FakeDevice::new(16, 0b10);
    let mut allocator = MemoryAllocator::new(two_types());
    allocate(&mut device, &mut allocator, 6, 1, "rt").expect("allocate");
    let engine = DataTransfer::new(1, 2, two_types());
    let target = info(&allocator, "rt");
    let data = vec![9u8, 8, 7, 6, 5, 4];
    let live = device.live();
    transfer(&mut device, &engine, engine.copy_to_device(&data, &target)).expect("upload");
    assert_eq!(device.live(), live);
    let back = transfer(&mut device, &engine, engine.copy_from_device(&target, 6)).expect("download");
    assert_eq!(back, data);
    assert_eq!(device.live(), live);
    assert!(device.log.contains(&DriverCommand::PipelineBarrier {
        command_buffer: match device.log.iter().find(|c| kind(c) == "begin") {
            Some(DriverCommand::BeginCommandBuffer { command_buffer, one_time_submit: true }) => {
                *command_buffer
            }
            _ => panic!("no command buffer"),
        },
        barrier: Barrier::TransferWriteToShaderRead,
    }));
    assert_eq!(device.count("wait_idle"), 2);
}

#[test]
fn device_to_device_copy_moves_bytes() {
    let mut device = FakeDevice::new(16, 0b10);
    let mut allocator = MemoryAllocator::new(two_types());
    allocate(&mut device, &mut allocator, 4, 1, "src").expect("allocate");
    allocate(&mut device, &mut allocator, 4, 1, "dst").expect("allocate");
    let engine = DataTransfer::new(1, 2, two_types());
    let src = info(&allocator, "src");
    let dst = info(&allocator, "dst");
    transfer(&mut device, &engine, engine.copy_to_device(&[1, 2, 3, 4], &src)).expect("upload");
    let result = transfer(&mut device, &engine, engine.copy_device_to_device(&src, &dst, 4));
    assert_eq!(result.expect("copy"), Vec::<u8>::new());
    let back = transfer(&mut device, &engine, engine.copy_from_device(&dst, 4)).expect("download");
    assert_eq!(back, vec![1, 2, 3, 4]);
    assert_eq!(device.count("barrier"), 2);
}

#[test]
fn transfer_failures_release_staging_resources() {
    for step in ["allocate_memory", "bind", "map", "allocate_command_buffer", "begin", "end", "submit", "wait_idle"] {
        let mut device = FakeDevice::new(16, 0b10);
        let mut allocator = MemoryAllocator::new(two_types());
        allocate(&mut device, &mut allocator, 8, 1, "x").expect("allocate");
        let engine = DataTransfer::new(1, 2, two_types());
        let target = info(&allocator, "x");
        let live = device.live();
        device.fail_on = Some(step);
        let result = transfer(&mut device, &engine, engine.copy_to_device(&[1, 2, 3], &target));
        let expected = |e: &TransferError| match step {
            "wait_idle" => matches!(e, TransferError::SynchronizationFailed(_)),
            "allocate_command_buffer" | "begin" | "end" | "submit" => {
                matches!(e, TransferError::CopyFailed(_))
            }
            _ => matches!(e, TransferError::StagingFailed(_)),
        };
        match &result {
            Err(e) => assert!(expected(e), "upload failing at {} gave {:?}", step, e),
            Ok(_) => panic!("upload succeeded though {} failed", step),
        }
        assert_eq!(device.live(), live, "upload leaked at {}", step);
        device.fail_on = Some(step);
        let result = transfer(&mut device, &engine, engine.copy_from_device(&target, 3));
        match &result {
            Err(e) => assert!(expected(e), "download failing at {} gave {:?}", step, e),
            Ok(_) => panic!("download succeeded though {} failed", step),
        }
        assert_eq!(device.live(), live, "download leaked at {}", step);
    }
}

#[test]
fn staging_memory_is_host_visible() {
    let mut device = FakeDevice::new(16, 0b11);
    let mut allocator = MemoryAllocator::new(two_types());
    allocate(&mut device, &mut allocator, 8, 1, "x").expect("allocate");
    let engine = DataTransfer::new(1, 2, two_types());
    let target = info(&allocator, "x");
    transfer(&mut device, &engine, engine.copy_to_device(&[5; 8], &target)).expect("upload");
    let staging: Vec<_> = device
        .log
        .iter()
        .filter(|c| kind(c) == "allocate_memory")
        .cloned()
        .collect();
    assert_eq!(
        staging[1],
        DriverCommand::AllocateMemory { size: 4096, memory_type_index: 1 }
    );
    let no_visible = DataTransfer::new(1, 2, vec![MemoryType { host_visible: false }]);
    let live = device.live();
    let result = transfer(&mut device, &no_visible, no_visible.copy_to_device(&[1], &target));
    assert!(matches!(result, Err(TransferError::StagingFailed(_))));
    assert_eq!(device.live(), live);
}

#[test]
fn upload_issues_its_commands_in_order() {
    let mut device = FakeDevice::new(16, 0b10);
    let mut allocator = MemoryAllocator::new(two_types());
    allocate(&mut device, &mut allocator, 16, 1, "dst").expect("allocate");
    let target = info(&allocator, "dst");
    let engine = DataTransfer::new(70, 80, two_types());
    let start = device.log.len();
    transfer(&mut device, &engine, engine.copy_to_device(&[1, 2, 3], &target)).expect("upload");
    let kinds: Vec<&str> = device.log[start..].iter().map(kind).collect();
    assert_eq!(
        kinds,
        vec![
            "create_buffer",
            "requirements",
            "allocate_memory",
            "bind",
            "map",
            "write",
            "unmap",
            "allocate_command_buffer",
            "begin",
            "copy",
            "barrier",
            "end",
            "submit",
            "wait_idle",
            "destroy_buffer",
            "free_memory",
            "free_command_buffer",
        ]
    );
    assert_eq!(
        device.log[start],
        DriverCommand::CreateBuffer { size: 3, usage: BufferUsage::UploadStaging }
    );
    assert_eq!(
        device.log[start + 7],
        DriverCommand::AllocateCommandBuffers { pool: 80, count: 1 }
    );
    match &device.log[start + 9] {
        DriverCommand::CopyBuffer { dst, size, .. } => {
            assert_eq!(*dst, target.buffer);
            assert_eq!(*size, 3);
        }
        other => panic!("expected a copy, got {:?}", other),
    }
    assert_eq!(device.log[start + 13], DriverCommand::WaitIdle { queue: 70 });
}

#[test]
fn download_issues_its_commands_in_order() {
    let mut device = FakeDevice::new(16, 0b10);
    let mut allocator = MemoryAllocator::new(two_types());
    allocate(&mut device, &mut allocator, 16, 1, "src").expect("allocate");
    let source = info(&allocator, "src");
    let engine = DataTransfer::new(70, 80, two_types());
    let start = device.log.len();
    let bytes = transfer(&mut device, &engine, engine.copy_from_device(&source, 5)).expect("download");
    assert_eq!(bytes, vec![0u8; 5]);
    let kinds: Vec<&str> = device.log[start..].iter().map(kind).collect();
    assert_eq!(
        kinds,
        vec![
            "create_buffer",
            "requirements",
            "allocate_memory",
            "bind",
            "allocate_command_buffer",
            "begin",
            "barrier",
            "copy",
            "end",
            "submit",
            "wait_idle",
            "map",
            "read",
            "unmap",
            "destroy_buffer",
            "free_memory",
            "free_command_buffer",
        ]
    );
    assert_eq!(
        device.log[start],
        DriverCommand::CreateBuffer { size: 5, usage: BufferUsage::DownloadStaging }
    );
}

#[test]
fn short_read_fails_and_releases_staging() {
    let engine = DataTransfer::new(1, 2, two_types());
    let source = AllocationInfo {
        handle_id: "s".to_string(),
        size: 8,
        device_memory: 100,
        buffer: 101,
        mapped_ptr: None,
    };
    let (mut pending, mut step) = engine.copy_from_device(&source, 4);
    let replies = vec![
        DriverReply::Buffer(5),
        DriverReply::Requirements(MemoryRequirements { size: 64, alignment: 4, memory_type_bits: 0b10 }),
        DriverReply::Memory(6),
        DriverReply::Done,
        DriverReply::CommandBuffers(vec![7]),
        DriverReply::Done,
        DriverReply::Done,
        DriverReply::Done,
        DriverReply::Done,
        DriverReply::Done,
        DriverReply::Done,
        DriverReply::Pointer(0x4000),
        DriverReply::Bytes(vec![1, 2]),
        DriverReply::Done,
    ];
    for reply in replies {
        match step {
            Step::Call(_) => step = pending.resume(&engine, reply),
            Step::Finish(..) => panic!("finished early"),
        }
    }
    match step {
        Step::Finish(release, result) => {
            assert!(matches!(result, Err(TransferError::CopyFailed(_))));
            assert_eq!(
                release,
                vec![
                    DriverCommand::DestroyBuffer { buffer: 5 },
                    DriverCommand::FreeMemory { memory: 6 },
                    DriverCommand::FreeCommandBuffer { pool: 2, command_buffer: 7 },
                ]
            );
        }
        Step::Call(command) => panic!("still running: {:?}", command),
    }
    assert!(pending.is_finished());
}

#[test]
fn size_errors_report_the_sizes() {
    let allocator = MemoryAllocator::new(two_types());
    let (_, step) = allocator.allocate(16, 5, "x".to_string());
    match step {
        Step::Finish(release, Err(MemoryError::InvalidMemoryType(m))) => {
            assert!(release.is_empty());
            assert_eq!(m, "memory_type_index 5 >= memory type count 2");
        }
        _ => panic!("expected InvalidMemoryType"),
    }
    let engine = DataTransfer::new(1, 2, two_types());
    let small = AllocationInfo {
        handle_id: "s".to_string(),
        size: 2,
        device_memory: 3,
        buffer: 4,
        mapped_ptr: None,
    };
    match engine.copy_to_device(&[1, 2, 3], &small).1 {
        Step::Finish(_, Err(TransferError::InvalidSize(m))) => {
            assert_eq!(m, "host data size 3 > device allocation size 2")
        }
        _ => panic!("expected InvalidSize"),
    }
    match engine.copy_from_device(&small, 10).1 {
        Step::Finish(_, Err(TransferError::InvalidSize(m))) => {
            assert_eq!(m, "copy size 10 > device allocation size 2")
        }
        _ => panic!("expected InvalidSize"),
    }
}

#[test]
fn transfers_give_their_command_buffer_back() {
    let mut device = FakeDevice::new(16, 0b10);
    let mut allocator = MemoryAllocator::new(two_types());
    allocate(&mut device, &mut allocator, 8, 1, "a").expect("allocate");
    allocate(&mut device, &mut allocator, 8, 1, "b").expect("allocate");
    let engine = DataTransfer::new(1, 2, two_types());
    let a = info(&allocator, "a");
    let b = info(&allocator, "b");
    transfer(&mut device, &engine, engine.copy_device_to_device(&a, &b, 8)).expect("copy");
    assert!(device.recorded.is_empty());
    assert_eq!(device.count("free_command_buffer"), 1);
}
