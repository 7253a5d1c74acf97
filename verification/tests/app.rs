use vk_compute::app::{AllocationPlan, HOST_MEMORY_FLAGS};
use vk_compute::commands::{BindPoint, Command, CommandBufferLevel};
use vk_compute::engine::{ExecutionEngine, WaitOutcome};
use vk_compute::error::Error;
use vk_compute::flags::{MEMORY_DEVICE_LOCAL, MEMORY_HOST_COHERENT, MEMORY_HOST_VISIBLE};
use vk_compute::layout::BufferView;
use vk_compute::memory::{MemoryHeap, MemoryProperties, MemoryType};
use vk_compute::shader::ByteOrder;
use vk_compute::App;

const NUM_FLOATS: u32 = 16384;

fn memory() -> MemoryProperties {
    let properties = MemoryProperties {
        memory_types: vec![
            MemoryType { property_flags: MEMORY_DEVICE_LOCAL, heap_index: 0 },
            MemoryType {
                property_flags: MEMORY_HOST_VISIBLE | MEMORY_HOST_COHERENT,
                heap_index: 1,
            },
        ],
        memory_heaps: vec![
            MemoryHeap { size: 1 << 32, flags: 1 },
            MemoryHeap { size: 1 << 28, flags: 0 },
        ],
    };
    assert!(properties.is_valid());
    properties
}

fn app() -> App {
    App::create(NUM_FLOATS, 2, &[3, 2, 35, 7], &memory()).expect("setup")
}

#[test]
fn host_memory_flags_are_visible_and_coherent() {
    assert_eq!(HOST_MEMORY_FLAGS, MEMORY_HOST_VISIBLE | MEMORY_HOST_COHERENT);
}

#[test]
fn create_loads_the_shader_and_resolves_memory() {
    let app = app();
    assert_eq!(app.element_count, NUM_FLOATS);
    assert_eq!(app.queue_index, 2);
    assert_eq!(app.memory_index, 1);
    assert_eq!(app.shader.words(ByteOrder::LittleEndian), vec![0x0723_0203]);
    assert_eq!(
        app.allocation(),
        AllocationPlan { size: 131072, memory_type_index: 1 }
    );
}

#[test]
fn create_rejects_misaligned_bytecode_first() {
    // Neither the shader nor the memory is usable: the shader is judged first.
    let none = MemoryProperties { memory_types: vec![], memory_heaps: vec![] };
    assert!(matches!(App::create(NUM_FLOATS, 0, &[1, 2, 3], &none), Err(Error::Format)));
    assert!(matches!(App::create(NUM_FLOATS, 0, &[1, 2, 3], &memory()), Err(Error::Format)));
}

#[test]
fn create_fails_without_host_memory() {
    let device_only = MemoryProperties {
        memory_types: vec![MemoryType { property_flags: MEMORY_DEVICE_LOCAL, heap_index: 0 }],
        memory_heaps: vec![MemoryHeap { size: 1 << 32, flags: 1 }],
    };
    match App::create(NUM_FLOATS, 0, &[0; 4], &device_only) {
        Ok(_) => panic!("set up without host memory"),
        Err(e) => {
            assert!(matches!(e, Error::Suitability(_)));
            assert_eq!(e.message(), "no suitable memory type");
        }
    }
}

#[test]
fn create_needs_room_for_both_buffers() {
    let heap = |size: u64| MemoryProperties {
        memory_types: vec![MemoryType { property_flags: HOST_MEMORY_FLAGS, heap_index: 0 }],
        memory_heaps: vec![MemoryHeap { size, flags: 0 }],
    };
    assert!(App::create(NUM_FLOATS, 0, &[], &heap(131072)).is_ok());
    assert!(App::create(NUM_FLOATS, 0, &[], &heap(131071)).is_err());
    // One buffer alone would fit, two do not.
    assert!(App::create(NUM_FLOATS, 0, &[], &heap(65536)).is_err());
}

#[test]
fn populate_maps_the_input_buffer() {
    assert_eq!(app().populate_buffer(), BufferView { offset: 0, size: 65536 });
}

#[test]
fn bind_places_the_output_after_the_input() {
    let layout = app().bind_buffer_layout();
    assert_eq!(layout.allocation_size, 131072);
    assert_eq!(layout.input, BufferView { offset: 0, size: 65536 });
    assert_eq!(layout.output, BufferView { offset: 65536, size: 65536 });
    assert_eq!(layout.bindings.len(), 2);
    assert_eq!(layout.bindings[0].binding, 0);
    assert_eq!(layout.bindings[1].binding, 1);
}

#[test]
fn pipeline_runs_the_shader_from_main() {
    let plan = app().create_pipeine_with_layout(0x77, 0x88);
    assert_eq!(plan.module, 0x77);
    assert_eq!(plan.set_layouts, vec![0x88]);
    assert_eq!(plan.push_constant_range_count, 0);
    assert_eq!(plan.entry_point, "main");
}

#[test]
fn command_pool_is_on_the_run_queue_family() {
    let plan = app().create_command_pool_and_buffer();
    assert_eq!(plan.queue_family_index, 2);
    assert_eq!(plan.level, CommandBufferLevel::Primary);
    assert_eq!(plan.command_buffer_count, 1);
}

#[test]
fn recording_dispatches_one_workgroup_per_element() {
    let sequence = app().record_commands_to_buffer(1, 2, 3);
    let commands = sequence.commands();
    assert_eq!(commands.len(), 5);
    assert_eq!(commands[0], Command::Begin { flags: 1 });
    assert_eq!(
        commands[1],
        Command::BindPipeline { bind_point: BindPoint::Compute, pipeline: 1 }
    );
    assert_eq!(
        commands[2],
        Command::BindDescriptorSet {
            bind_point: BindPoint::Compute,
            layout: 2,
            first_set: 0,
            descriptor_set: 3,
        }
    );
    assert_eq!(commands[3], Command::Dispatch { x: 16384, y: 1, z: 1 });
    assert_eq!(commands[4], Command::End);
}

#[test]
fn readback_waits_for_completion() {
    let app = app();
    let mut engine = ExecutionEngine::new();
    assert_eq!(app.read_back(&engine), None);
    engine.submit();
    assert_eq!(app.read_back(&engine), None);
    assert!(engine.wait(WaitOutcome::Expired).is_err());
    assert_eq!(app.read_back(&engine), None);
    assert!(engine.wait(WaitOutcome::Signaled).is_ok());
    assert_eq!(app.read_back(&engine), Some(BufferView { offset: 65536, size: 65536 }));
}

// A device that copies nothing and computes `output[i] = i` from
// `input[i] = i * 0.5`, on a block laid out as the run plans it.
fn simulated_dispatch(block: &mut [u8], input: BufferView, output: BufferView, x: u32) {
    for i in 0..x as usize {
        let at = input.offset as usize + 4 * i;
        let value = f32::from_ne_bytes([block[at], block[at + 1], block[at + 2], block[at + 3]]);
        let result = value / 0.5;
        let to = output.offset as usize + 4 * i;
        block[to..to + 4].copy_from_slice(&result.to_ne_bytes());
    }
}

#[test]
fn round_trip_with_a_simulated_device() {
    let app = app();
    let mut block = vec![0u8; app.allocation().size as usize];

    let input = app.populate_buffer();
    for i in 0..app.element_count as usize {
        let value = (i as f32) * 0.5;
        let at = input.offset as usize + 4 * i;
        block[at..at + 4].copy_from_slice(&value.to_ne_bytes());
    }

    let layout = app.bind_buffer_layout();
    assert_eq!(layout.input, input);
    let sequence = app.record_commands_to_buffer(1, 2, 3);
    let mut engine = ExecutionEngine::new();
    engine.submit();
    for command in sequence.commands() {
        if let Command::Dispatch { x, y, z } = *command {
            assert_eq!((y, z), (1, 1));
            simulated_dispatch(&mut block, layout.input, layout.output, x);
        }
    }
    assert!(engine.wait(WaitOutcome::Signaled).is_ok());

    let range = app.read_back(&engine).expect("the submission has completed");
    assert_eq!(range, layout.output);
    let results: Vec<f32> = (0..app.element_count as usize)
        .map(|i| {
            let at = range.offset as usize + 4 * i;
            f32::from_ne_bytes([block[at], block[at + 1], block[at + 2], block[at + 3]])
        })
        .collect();
    assert_eq!(results.len(), 16384);
    for (i, value) in results.iter().enumerate() {
        assert_eq!(value.round(), i as f32);
    }
    // The input is untouched: the two buffers do not overlap.
    for i in 0..app.element_count as usize {
        let at = input.offset as usize + 4 * i;
        let value = f32::from_ne_bytes([block[at], block[at + 1], block[at + 2], block[at + 3]]);
        assert_eq!(value, (i as f32) * 0.5);
    }
}
