use wayvek::renderer::calls::CallFailure;
use wayvek::renderer::device::{
    pick_exportable_memory_type, pick_physical_device, MemoryTypes, PhysicalDevice,
};
use wayvek::renderer::error::{GpuStep, RenderError};
use wayvek::renderer::setup::{Setup, SetupReply};

/// 226:128, as Linux packs it.
const NODE: u64 = 0xe280;

fn device(has_render: u32, major: i64, minor: i64, queue_flags: Vec<u32>) -> PhysicalDevice {
    PhysicalDevice {
        has_render,
        render_major: major,
        render_minor: minor,
        queue_flags,
    }
}

fn no_device() -> RenderError {
    RenderError::NoMatchingDevice {
        major: 226,
        minor: 128,
    }
}

fn failure(code: i32) -> CallFailure {
    CallFailure {
        code,
        cause: "it broke".to_string(),
    }
}

#[test]
fn the_device_of_the_render_node_is_picked() {
    let devices = vec![
        device(1, 226, 129, vec![1]),
        device(1, 225, 128, vec![1]),
        device(0, 226, 128, vec![1]),
        device(1, 226, 128, vec![4, 7, 1]),
        device(1, 226, 128, vec![1]),
    ];
    assert_eq!(pick_physical_device(&devices, NODE), Ok((3, 1)));
}

#[test]
fn a_device_without_a_graphics_queue_is_passed_over() {
    let devices = vec![
        device(1, 226, 128, vec![]),
        device(1, 226, 128, vec![2, 4, 6]),
        device(1, 226, 128, vec![3]),
    ];
    assert_eq!(pick_physical_device(&devices, NODE), Ok((2, 0)));
    assert_eq!(pick_physical_device(&devices[0..2], NODE), Err(no_device()));
    assert_eq!(pick_physical_device(&[], NODE), Err(no_device()));
}

#[test]
fn large_device_numbers_are_split_as_linux_packs_them() {
    let dev = rustix::fs::makedev(70_001, 1_000_003);
    let devices = vec![device(1, 70_001, 1_000_003, vec![1])];
    assert_eq!(pick_physical_device(&devices, dev), Ok((0, 0)));
    assert_eq!(
        pick_physical_device(&[], dev),
        Err(RenderError::NoMatchingDevice {
            major: 70_001,
            minor: 1_000_003
        })
    );
}

#[test]
fn the_first_fitting_memory_type_is_picked() {
    let mut property_flags = [0u32; 32];
    property_flags[1] = 0x1;
    property_flags[3] = 0x7;
    property_flags[31] = 0x1;
    let types = MemoryTypes {
        count: 4,
        property_flags,
    };
    assert_eq!(pick_exportable_memory_type(0b1111, &types), Some(1));
    assert_eq!(pick_exportable_memory_type(0b1001, &types), Some(3));
    assert_eq!(pick_exportable_memory_type(0b0101, &types), None);
    assert_eq!(pick_exportable_memory_type(0, &types), None);
    // Types beyond the count do not exist.
    assert_eq!(pick_exportable_memory_type(1 << 31, &types), None);
    let types = MemoryTypes { count: 32, ..types };
    assert_eq!(pick_exportable_memory_type(1 << 31, &types), Some(31));
    let types = MemoryTypes {
        count: u32::MAX,
        ..types
    };
    assert_eq!(pick_exportable_memory_type(1 << 30, &types), None);
}

#[test]
fn the_setup_goes_from_the_loader_to_the_device() {
    let setup = Setup::start(NODE);
    assert!(matches!(setup, Setup::Load { main_device: NODE }));
    let setup = setup.step(SetupReply::Done);
    assert!(matches!(setup, Setup::Instance { main_device: NODE }));
    let setup = setup.step(SetupReply::Done);
    assert!(matches!(setup, Setup::Devices { main_device: NODE }));
    let setup = setup.step(SetupReply::Devices(vec![
        device(0, 0, 0, vec![]),
        device(1, 226, 128, vec![2, 1]),
    ]));
    assert!(matches!(
        setup,
        Setup::Device {
            device: 1,
            queue_family: 1
        }
    ));
    let setup = setup.step(SetupReply::Done);
    assert!(matches!(
        setup,
        Setup::Ready {
            device: 1,
            queue_family: 1
        }
    ));
    // Nothing moves a setup that is ready.
    let setup = setup.step(SetupReply::Failed(failure(-1)));
    assert!(matches!(setup, Setup::Ready { .. }));
}

fn error_of(setup: Setup) -> RenderError {
    match setup {
        Setup::Failed { error } => error,
        other => panic!("the setup has not failed: {:?}", other),
    }
}

#[test]
fn a_failed_setup_says_where_it_failed() {
    let setup = Setup::start(NODE).step(SetupReply::Failed(failure(0)));
    assert_eq!(error_of(setup), RenderError::Load("it broke".to_string()));

    let setup = Setup::Instance { main_device: NODE }.step(SetupReply::Failed(failure(-9)));
    assert_eq!(
        error_of(setup),
        RenderError::Call {
            step: GpuStep::CreateInstance,
            code: -9,
            cause: "it broke".to_string()
        }
    );

    let setup = Setup::Devices { main_device: NODE }.step(SetupReply::Failed(failure(-3)));
    assert_eq!(
        error_of(setup),
        RenderError::Call {
            step: GpuStep::EnumerateDevices,
            code: -3,
            cause: "it broke".to_string()
        }
    );

    let setup = Setup::Devices { main_device: NODE }.step(SetupReply::Devices(vec![]));
    assert_eq!(error_of(setup), no_device());

    let setup = Setup::Device {
        device: 0,
        queue_family: 0,
    }
    .step(SetupReply::Failed(failure(-7)));
    assert_eq!(
        error_of(setup),
        RenderError::Call {
            step: GpuStep::CreateDevice,
            code: -7,
            cause: "it broke".to_string()
        }
    );
}

#[test]
fn a_reply_to_another_stage_changes_nothing() {
    let setup = Setup::start(NODE).step(SetupReply::Devices(vec![]));
    assert!(matches!(setup, Setup::Load { main_device: NODE }));
    let setup = Setup::Devices { main_device: NODE }.step(SetupReply::Done);
    assert!(matches!(setup, Setup::Devices { main_device: NODE }));
}
