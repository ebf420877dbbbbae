use wayvek::error::{Errno, IoError};
use wayvek::renderer::error::{GpuStep, RenderError};
use wayvek::WayvekError;

fn call(step: GpuStep, code: i32) -> RenderError {
    RenderError::Call {
        step,
        code,
        cause: "device lost".to_string(),
    }
}

#[test]
fn every_step_has_its_message() {
    let messages = vec![
        (GpuStep::CreateInstance, "create instance: device lost"),
        (
            GpuStep::EnumerateDevices,
            "enumerate physical devices: device lost",
        ),
        (GpuStep::CreateDevice, "create device: device lost"),
        (GpuStep::WaitIdle, "wait idle on resize: device lost"),
        (GpuStep::CreateImage, "create drm image: device lost"),
        (
            GpuStep::AllocateMemory,
            "allocate external memory: device lost",
        ),
        (GpuStep::BindMemory, "bind image memory: device lost"),
        (GpuStep::ExportMemory, "export dmabuf fd: device lost"),
        (GpuStep::CreateCommandPool, "create command pool: device lost"),
        (
            GpuStep::AllocateCommandBuffer,
            "allocate command buffer: device lost",
        ),
        (GpuStep::CreateFence, "create frame fence: device lost"),
        (GpuStep::BeginCommands, "begin command buffer: device lost"),
        (GpuStep::EndCommands, "end command buffer: device lost"),
        (GpuStep::ResetFence, "reset fence: device lost"),
        (GpuStep::Submit, "queue submit2: device lost"),
        (GpuStep::ExportFence, "export fence fd: device lost"),
        (GpuStep::DuplicateFd, "dup dmabuf fd: device lost"),
    ];
    for (step, message) in messages {
        assert_eq!(call(step, -4).message(), message);
    }
}

#[test]
fn the_other_errors_have_messages_too() {
    assert_eq!(
        RenderError::Load("no libvulkan".to_string()).message(),
        "no libvulkan"
    );
    assert_eq!(
        RenderError::NoMatchingDevice {
            major: 226,
            minor: 128
        }
        .message(),
        "no Vulkan device matched main DRM 226:128"
    );
    assert_eq!(RenderError::NoFormat.message(), "no DRM format");
    assert_eq!(
        RenderError::NoMemoryType.message(),
        "no exportable device-local memory type"
    );
}

#[test]
fn every_error_funnels_into_the_librarys() {
    assert_eq!(
        WayvekError::from(RenderError::Load("no libvulkan".to_string())),
        WayvekError::LoadLibrary("no libvulkan".to_string())
    );
    assert_eq!(
        WayvekError::from(call(GpuStep::Submit, -4)),
        WayvekError::Vulkan(-4)
    );
    assert_eq!(
        WayvekError::from(call(GpuStep::DuplicateFd, 24)),
        WayvekError::Io(IoError::Os(24))
    );
    assert_eq!(
        WayvekError::from(RenderError::NoMatchingDevice {
            major: 226,
            minor: 128
        }),
        WayvekError::NoMatchingDevice {
            major: 226,
            minor: 128
        }
    );
    assert_eq!(
        WayvekError::from(RenderError::NoFormat),
        WayvekError::NoNegotiatedFormat
    );
    assert_eq!(
        WayvekError::from(RenderError::NoMemoryType),
        WayvekError::NoExportableMemoryType
    );
    assert_eq!(
        WayvekError::from(Errno(5)),
        WayvekError::Io(IoError::Os(5))
    );
}
