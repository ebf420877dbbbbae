use ash::vk;
use drm_fourcc::DrmFourcc;
use wayvek::renderer::calls::{
    BufferFormat, CallFailure, CallResult, DmaBuffer, Draw, FrameData, GpuCall, GpuReply, Stage,
};
use wayvek::renderer::device::{
    MemoryTypes, VK_MEMORY_PROPERTY_DEVICE_LOCAL_BIT, VK_QUEUE_GRAPHICS_BIT, VK_TRUE,
};
use wayvek::renderer::error::{GpuStep, RenderError};
use wayvek::renderer::vulkan::{drm_fourcc_to_vk, ModifierProperties, Teardown, Vulkan};
use wayvek::DmaPlane;

const XRGB: u32 = 0x3432_5258;
const MODIFIER: u64 = 0x0100_0000_0000_0002;

fn types() -> MemoryTypes {
    let mut property_flags = [0u32; 32];
    property_flags[2] = 1;
    MemoryTypes {
        count: 3,
        property_flags,
    }
}

/// A device on which everything works. Handles count up from 100, descriptors
/// from 10.
struct Device {
    handle: u64,
    fd: i32,
    calls: Vec<GpuCall>,
    fail_at: Option<GpuStep>,
}

impl Device {
    fn new() -> Self {
        Device {
            handle: 99,
            fd: 9,
            calls: Vec::new(),
            fail_at: None,
        }
    }

    fn answer(&mut self, call: GpuCall) -> CallResult {
        self.calls.push(call);
        if call.failing_step().is_some() && call.failing_step() == self.fail_at {
            return Err(CallFailure {
                code: -4,
                cause: "lost".to_string(),
            });
        }
        Ok(match call {
            GpuCall::CreateImage { .. }
            | GpuCall::AllocateMemory { .. }
            | GpuCall::CreateCommandPool { .. }
            | GpuCall::AllocateCommandBuffer { .. }
            | GpuCall::CreateFence => {
                self.handle += 1;
                GpuReply::Handle(self.handle)
            }
            GpuCall::ExportMemory { .. }
            | GpuCall::ExportFence { .. }
            | GpuCall::DuplicateFd { .. } => {
                self.fd += 1;
                GpuReply::Fd(self.fd)
            }
            GpuCall::MemoryRequirements { .. } => GpuReply::Requirements {
                size: 4096,
                memory_type_bits: 0b110,
                types: types(),
            },
            GpuCall::PlaneLayout { .. } => GpuReply::Layout {
                offset: 64,
                row_pitch: 2560,
            },
            _ => GpuReply::Done,
        })
    }

    fn run(&mut self, renderer: &mut Vulkan, slot: usize, width: u32, height: u32) -> Draw {
        self.calls.clear();
        let mut draw = renderer.draw(slot, width, height);
        while let Some(call) = draw.call() {
            let result = self.answer(call);
            draw = renderer.step(draw, result);
        }
        assert!(self.calls.len() <= 19);
        draw
    }
}

fn ready() -> Vulkan {
    let mut renderer = Vulkan::new(3);
    renderer.set_buffer_format(XRGB, MODIFIER);
    renderer
}

fn buffer(image: u64, memory: u64, fd: i32) -> DmaBuffer {
    DmaBuffer {
        image,
        memory,
        fd,
        plane: DmaPlane {
            offset: 64,
            stride: 2560,
        },
    }
}

fn render_calls(slot: usize, buffer: DmaBuffer, frame: FrameData) -> Vec<GpuCall> {
    let command_buffer = frame.command_buffer;
    let fence = frame.fence;
    vec![
        GpuCall::BeginCommands { command_buffer },
        GpuCall::Record {
            slot,
            command_buffer,
            image: buffer.image,
        },
        GpuCall::EndCommands { command_buffer },
        GpuCall::ResetFence { fence },
        GpuCall::Submit {
            command_buffer,
            fence,
        },
        GpuCall::ExportFence { fence },
        GpuCall::DuplicateFd { fd: buffer.fd },
    ]
}

#[test]
fn drm_formats_have_their_vulkan_formats() {
    let pairs = vec![
        (DrmFourcc::Xrgb8888, vk::Format::B8G8R8A8_UNORM),
        (DrmFourcc::Argb8888, vk::Format::B8G8R8A8_UNORM),
        (DrmFourcc::Xbgr8888, vk::Format::R8G8B8A8_UNORM),
        (DrmFourcc::Abgr8888, vk::Format::R8G8B8A8_UNORM),
        (DrmFourcc::Rgb565, vk::Format::R5G6B5_UNORM_PACK16),
        (DrmFourcc::Nv12, vk::Format::G8_B8R8_2PLANE_420_UNORM),
        (DrmFourcc::Yuyv, vk::Format::UNDEFINED),
        (DrmFourcc::Xrgb2101010, vk::Format::UNDEFINED),
    ];
    for (fourcc, format) in pairs {
        assert_eq!(drm_fourcc_to_vk(fourcc as u32), format.as_raw());
    }
}

#[test]
fn the_flags_are_vulkans() {
    assert_eq!(VK_TRUE, vk::TRUE);
    assert_eq!(VK_QUEUE_GRAPHICS_BIT, vk::QueueFlags::GRAPHICS.as_raw());
    assert_eq!(
        VK_MEMORY_PROPERTY_DEVICE_LOCAL_BIT,
        vk::MemoryPropertyFlags::DEVICE_LOCAL.as_raw()
    );
}

#[test]
fn modifiers_are_reported_in_the_devices_order() {
    let renderer = Vulkan::new(0);
    let report = |format: i32| {
        assert_eq!(format, vk::Format::R5G6B5_UNORM_PACK16.as_raw());
        vec![
            ModifierProperties {
                drm_format_modifier: 5,
                plane_count: 1,
                tiling_features: 0,
            },
            ModifierProperties {
                drm_format_modifier: 0,
                plane_count: 2,
                tiling_features: 7,
            },
        ]
    };
    assert_eq!(
        renderer.get_supported_modifiers(DrmFourcc::Rgb565 as u32, report),
        vec![5, 0]
    );
}

#[test]
fn unhandled_formats_have_no_modifiers() {
    let renderer = Vulkan::new(0);
    let unasked = |_: i32| -> Vec<ModifierProperties> { panic!("not a format to ask about") };
    assert_eq!(
        renderer.get_supported_modifiers(DrmFourcc::Yuyv as u32, unasked),
        Vec::<u64>::new()
    );
    assert_eq!(
        renderer.get_supported_modifiers(0xdead_beef, unasked),
        Vec::<u64>::new()
    );
}

#[test]
fn an_unknown_format_leaves_the_configured_one() {
    let mut renderer = Vulkan::new(3);
    renderer.set_buffer_format(0xdead_beef, 1);
    let mut device = Device::new();
    let draw = device.run(&mut renderer, 0, 640, 480);
    assert_eq!(draw.finish(), Ok(Err(RenderError::NoFormat)));

    let mut renderer = ready();
    renderer.set_buffer_format(0xdead_beef, 1);
    let draw = device.run(&mut renderer, 0, 640, 480);
    let (frame, _) = draw.finish().unwrap().unwrap();
    assert_eq!(frame.format, XRGB);
    assert_eq!(frame.modifier, MODIFIER);
}

#[test]
fn a_recognized_format_without_a_vulkan_format_is_configured_all_the_same() {
    let mut renderer = Vulkan::new(3);
    renderer.set_buffer_format(DrmFourcc::Yuyv as u32, 1);
    let mut device = Device::new();
    device.run(&mut renderer, 0, 640, 480);
    assert!(device.calls.contains(&GpuCall::CreateImage {
        width: 640,
        height: 480,
        vk_format: 0,
        modifier: 1
    }));
}

#[test]
fn without_a_format_nothing_is_created() {
    let mut renderer = Vulkan::new(3);
    let mut device = Device::new();
    let draw = device.run(&mut renderer, 1, 640, 480);
    assert_eq!(draw.finish(), Ok(Err(RenderError::NoFormat)));
    assert_eq!(
        device.calls,
        vec![
            GpuCall::WaitIdle,
            GpuCall::ReleaseBuffers {
                first: None,
                second: None
            }
        ]
    );
    let draw = device.run(&mut renderer, 1, 640, 480);
    assert_eq!(draw.finish(), Ok(Err(RenderError::NoFormat)));
    assert_eq!(device.calls, vec![]);
}

#[test]
fn without_a_format_the_slot_does_not_matter() {
    let mut renderer = Vulkan::new(3);
    assert!(!renderer.has_format());
    let mut device = Device::new();
    for _ in 0..2 {
        let draw = device.run(&mut renderer, 5, 640, 480);
        match draw.finish() {
            Ok(Err(error)) => assert_eq!(error.message(), "no DRM format"),
            other => panic!("the draw has not failed: {:?}", other),
        }
    }
    assert!(ready().has_format());
}

#[test]
fn the_first_frame_creates_everything() {
    let mut renderer = ready();
    let mut device = Device::new();
    let draw = device.run(&mut renderer, 1, 640, 480);
    let made = buffer(100, 101, 10);
    let frame = FrameData {
        command_buffer: 103,
        fence: 104,
    };
    let mut calls = vec![
        GpuCall::WaitIdle,
        GpuCall::ReleaseBuffers {
            first: None,
            second: None,
        },
        GpuCall::CreateImage {
            width: 640,
            height: 480,
            vk_format: vk::Format::B8G8R8A8_UNORM.as_raw(),
            modifier: MODIFIER,
        },
        GpuCall::MemoryRequirements { image: 100 },
        GpuCall::AllocateMemory {
            image: 100,
            size: 4096,
            memory_type_index: 2,
        },
        GpuCall::BindMemory {
            image: 100,
            memory: 101,
        },
        GpuCall::ExportMemory { memory: 101 },
        GpuCall::PlaneLayout { image: 100 },
        GpuCall::CreateCommandPool { queue_family: 3 },
        GpuCall::AllocateCommandBuffer { command_pool: 102 },
        GpuCall::CreateFence,
    ];
    calls.extend(render_calls(1, made, frame));
    assert_eq!(device.calls, calls);

    let (shown, sync_fd) = draw.finish().unwrap().unwrap();
    assert_eq!(sync_fd, 11);
    assert_eq!(shown.fd, 12);
    assert_eq!(shown.width, 640);
    assert_eq!(shown.height, 480);
    assert_eq!(shown.format, XRGB);
    assert_eq!(shown.modifier, MODIFIER);
    assert_eq!(
        shown.planes,
        vec![DmaPlane {
            offset: 64,
            stride: 2560
        }]
    );
}

#[test]
fn later_frames_reuse_what_exists() {
    let mut renderer = ready();
    let mut device = Device::new();
    device.run(&mut renderer, 1, 640, 480);
    let frame = FrameData {
        command_buffer: 103,
        fence: 104,
    };

    // The other slot gets a buffer of its own; pool, commands and fence are shared.
    device.run(&mut renderer, 0, 640, 480);
    assert_eq!(device.calls.len(), 6 + 7);
    assert_eq!(device.calls[6..], render_calls(0, buffer(105, 106, 13), frame));

    // The first slot's buffer is still there.
    device.run(&mut renderer, 1, 640, 480);
    assert_eq!(device.calls, render_calls(1, buffer(100, 101, 10), frame));
}

#[test]
fn a_new_size_releases_both_buffers() {
    let mut renderer = ready();
    let mut device = Device::new();
    device.run(&mut renderer, 1, 640, 480);
    device.run(&mut renderer, 0, 640, 480);
    device.run(&mut renderer, 1, 640, 481);
    assert_eq!(
        device.calls[0..2],
        [
            GpuCall::WaitIdle,
            GpuCall::ReleaseBuffers {
                first: Some(buffer(105, 106, 13)),
                second: Some(buffer(100, 101, 10)),
            }
        ]
    );
    assert_eq!(
        device.calls[2],
        GpuCall::CreateImage {
            width: 640,
            height: 481,
            vk_format: vk::Format::B8G8R8A8_UNORM.as_raw(),
            modifier: MODIFIER,
        }
    );
    // Slot 0 has no buffer of the new size yet.
    device.run(&mut renderer, 0, 640, 481);
    assert!(matches!(device.calls[0], GpuCall::CreateImage { .. }));
}

#[test]
fn every_failure_is_reported_under_its_step() {
    let steps = vec![
        (GpuStep::WaitIdle, None),
        (GpuStep::CreateImage, None),
        (GpuStep::AllocateMemory, None),
        (GpuStep::BindMemory, None),
        (GpuStep::ExportMemory, None),
        // The exported descriptor belongs to no buffer yet.
        (GpuStep::CreateCommandPool, Some(10)),
        (GpuStep::AllocateCommandBuffer, Some(10)),
        (GpuStep::CreateFence, Some(10)),
        (GpuStep::BeginCommands, None),
        (GpuStep::EndCommands, None),
        (GpuStep::ResetFence, None),
        (GpuStep::Submit, None),
        (GpuStep::ExportFence, None),
        // The sync-file is still in hand.
        (GpuStep::DuplicateFd, Some(11)),
    ];
    for (step, closed) in steps {
        let mut renderer = ready();
        let mut device = Device::new();
        device.fail_at = Some(step);
        let draw = device.run(&mut renderer, 0, 640, 480);
        assert_eq!(
            draw.finish(),
            Ok(Err(RenderError::Call {
                step,
                code: -4,
                cause: "lost".to_string()
            }))
        );
        let last = device.calls[device.calls.len() - 1];
        match closed {
            Some(fd) => assert_eq!(last, GpuCall::CloseFd { fd }),
            None => assert_eq!(last.failing_step(), Some(step)),
        }
    }
}

#[test]
fn a_failed_resize_is_tried_again() {
    let mut renderer = ready();
    let mut device = Device::new();
    device.run(&mut renderer, 0, 640, 480);
    device.fail_at = Some(GpuStep::WaitIdle);
    device.run(&mut renderer, 0, 800, 600);
    assert_eq!(device.calls, vec![GpuCall::WaitIdle]);
    // The old size still has its buffer.
    device.fail_at = None;
    device.run(&mut renderer, 0, 640, 480);
    assert_eq!(device.calls.len(), 7);
}

#[test]
fn a_pool_that_exists_is_not_created_again() {
    let mut renderer = ready();
    let mut device = Device::new();
    device.fail_at = Some(GpuStep::CreateFence);
    device.run(&mut renderer, 0, 640, 480);
    device.fail_at = None;
    device.run(&mut renderer, 0, 640, 480);
    assert!(!device
        .calls
        .contains(&GpuCall::CreateCommandPool { queue_family: 3 }));
    assert!(device
        .calls
        .contains(&GpuCall::AllocateCommandBuffer { command_pool: 102 }));
}

#[test]
fn an_image_that_no_memory_fits_is_an_error() {
    let mut renderer = ready();
    let mut device = Device::new();
    let mut draw = renderer.draw(0, 640, 480);
    while let Some(call) = draw.call() {
        let result = match call {
            GpuCall::MemoryRequirements { .. } => Ok(GpuReply::Requirements {
                size: 4096,
                memory_type_bits: 0b011,
                types: types(),
            }),
            call => device.answer(call),
        };
        draw = renderer.step(draw, result);
    }
    assert_eq!(draw.finish(), Ok(Err(RenderError::NoMemoryType)));
}

#[test]
fn an_answer_of_another_kind_changes_nothing() {
    let mut renderer = ready();
    let draw = renderer.draw(0, 640, 480);
    let draw = renderer.step(draw, Ok(GpuReply::Fd(3)));
    assert_eq!(
        draw,
        Draw {
            slot: 0,
            width: 640,
            height: 480,
            stage: Stage::Resize
        }
    );
    assert_eq!(draw.call(), Some(GpuCall::WaitIdle));
    let given_back = draw.finish();
    assert!(given_back.is_err());
}

#[test]
fn a_draw_can_be_picked_up_at_any_stage() {
    let format = BufferFormat {
        fourcc: XRGB,
        vk_format: 44,
        modifier: MODIFIER,
    };
    let mut renderer = ready();
    let draw = Draw {
        slot: 0,
        width: 640,
        height: 480,
        stage: Stage::Duplicate {
            format,
            buffer: buffer(1, 2, 3),
            sync_fd: 4,
        },
    };
    let draw = renderer.step(draw, Ok(GpuReply::Fd(5)));
    let (frame, sync_fd) = draw.finish().unwrap().unwrap();
    assert_eq!((frame.fd, sync_fd), (5, 4));
}

#[test]
fn teardown_releases_in_order_and_once() {
    let mut renderer = ready();
    assert_eq!(
        renderer.teardown(),
        vec![
            Teardown::WaitIdle,
            Teardown::DestroyDevice,
            Teardown::DestroyInstance
        ]
    );

    let mut renderer = ready();
    let mut device = Device::new();
    device.run(&mut renderer, 1, 640, 480);
    device.run(&mut renderer, 0, 640, 480);
    assert_eq!(
        renderer.teardown(),
        vec![
            Teardown::WaitIdle,
            Teardown::DestroyFence(104),
            Teardown::ReleaseBuffer(buffer(105, 106, 13)),
            Teardown::ReleaseBuffer(buffer(100, 101, 10)),
            Teardown::DestroyCommandPool(102),
            Teardown::DestroyDevice,
            Teardown::DestroyInstance,
        ]
    );
}

/// No descriptor stays open that nobody holds, whichever call fails.
#[test]
fn descriptors_are_accounted_for() {
    let steps = vec![
        None,
        Some(GpuStep::ExportMemory),
        Some(GpuStep::CreateCommandPool),
        Some(GpuStep::CreateFence),
        Some(GpuStep::Submit),
        Some(GpuStep::ExportFence),
        Some(GpuStep::DuplicateFd),
    ];
    for step in steps {
        let mut renderer = ready();
        let mut device = Device::new();
        device.fail_at = step;
        let draw = device.run(&mut renderer, 0, 640, 480);
        let mut open: Vec<i32> = (10..=device.fd).collect();
        for call in &device.calls {
            if let GpuCall::CloseFd { fd } = call {
                open.retain(|f| f != fd);
            }
        }
        let mut held = Vec::new();
        for item in renderer.teardown() {
            if let Teardown::ReleaseBuffer(buffer) = item {
                held.push(buffer.fd);
            }
        }
        if let Ok(Ok((frame, sync_fd))) = draw.finish() {
            held.push(sync_fd);
            held.push(frame.fd);
        }
        assert_eq!(open, held);
    }
}
