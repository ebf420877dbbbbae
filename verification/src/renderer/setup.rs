//! Getting from nothing to a device that can render.

use vstd::prelude::*;

use crate::drm::{dev_major, dev_minor};
use crate::renderer::calls::CallFailure;
use crate::renderer::device::{
    is_choice, law_matching_device_is_found, pick_physical_device, PhysicalDevice,
};
use crate::renderer::error::{GpuStep, RenderError};

verus! {

/// What comes back of a step of the setup.
#[derive(Debug)]
pub enum SetupReply {
    Done,
    /// The physical devices, as the instance enumerates them.
    Devices(Vec<PhysicalDevice>),
    Failed(CallFailure),
}

/// How far the setup has come: each stage names what is to be done next.
#[derive(Debug)]
pub enum Setup {
    /// Load the Vulkan library.
    Load { main_device: u64 },
    /// Create an instance.
    Instance { main_device: u64 },
    /// Enumerate the physical devices, with what the choice looks at.
    Devices { main_device: u64 },
    /// Create a device on the physical device at this place, with one queue of
    /// this family.
    Device { device: usize, queue_family: u32 },
    /// The device is there.
    Ready { device: usize, queue_family: u32 },
    Failed { error: RenderError },
}

/// `next` is where `setup` goes when `reply` comes back. A reply that does not
/// answer the stage changes nothing.
pub open spec fn setup_goes_on(setup: Setup, reply: SetupReply, next: Setup) -> bool {
    match (setup, reply) {
        (Setup::Load { main_device }, SetupReply::Done) => next == Setup::Instance { main_device },
        (Setup::Load { .. }, SetupReply::Failed(failure)) => next == Setup::Failed {
            error: RenderError::Load(failure.cause),
        },
        (Setup::Instance { main_device }, SetupReply::Done) => next == Setup::Devices {
            main_device,
        },
        (Setup::Instance { .. }, SetupReply::Failed(failure)) => next == failed_at(
            GpuStep::CreateInstance,
            failure,
        ),
        (Setup::Devices { main_device }, SetupReply::Devices(devices)) => match next {
            Setup::Device { device, queue_family } => is_choice(
                devices@,
                main_device,
                Ok((device, queue_family)),
            ),
            Setup::Failed { error } => is_choice(devices@, main_device, Err(error)),
            _ => false,
        },
        (Setup::Devices { .. }, SetupReply::Failed(failure)) => next == failed_at(
            GpuStep::EnumerateDevices,
            failure,
        ),
        (Setup::Device { device, queue_family }, SetupReply::Done) => next == Setup::Ready {
            device,
            queue_family,
        },
        (Setup::Device { .. }, SetupReply::Failed(failure)) => next == failed_at(
            GpuStep::CreateDevice,
            failure,
        ),
        _ => next == setup,
    }
}

/// The setup after a call has failed.
pub open spec fn failed_at(step: GpuStep, failure: CallFailure) -> Setup {
    Setup::Failed {
        error: RenderError::Call { step, code: failure.code, cause: failure.cause },
    }
}

fn fail(step: GpuStep, failure: CallFailure) -> (setup: Setup)
    ensures
        setup == failed_at(step, failure),
{
    Setup::Failed {
        error: RenderError::Call { step, code: failure.code, cause: failure.cause },
    }
}

impl Setup {
    /// Set up a renderer on the GPU whose render node is `main_device`.
    pub fn start(main_device: u64) -> (setup: Self)
        ensures
            setup == (Setup::Load { main_device }),
    {
        Setup::Load { main_device }
    }

    /// Move the setup on: `reply` is what came back of its stage.
    pub fn step(self, reply: SetupReply) -> (next: Self)
        ensures
            setup_goes_on(self, reply, next),
    {
        match (self, reply) {
            (Setup::Load { main_device }, SetupReply::Done) => Setup::Instance { main_device },
            (Setup::Load { .. }, SetupReply::Failed(failure)) => Setup::Failed {
                error: RenderError::Load(failure.cause),
            },
            (Setup::Instance { main_device }, SetupReply::Done) => Setup::Devices { main_device },
            (Setup::Instance { .. }, SetupReply::Failed(failure)) => fail(
                GpuStep::CreateInstance,
                failure,
            ),
            (Setup::Devices { main_device }, SetupReply::Devices(devices)) => {
                match pick_physical_device(devices.as_slice(), main_device) {
                    Ok((device, queue_family)) => Setup::Device { device, queue_family },
                    Err(error) => Setup::Failed { error },
                }
            },
            (Setup::Devices { .. }, SetupReply::Failed(failure)) => fail(
                GpuStep::EnumerateDevices,
                failure,
            ),
            (Setup::Device { device, queue_family }, SetupReply::Done) => Setup::Ready {
                device,
                queue_family,
            },
            (Setup::Device { .. }, SetupReply::Failed(failure)) => fail(
                GpuStep::CreateDevice,
                failure,
            ),
            (setup, _) => setup,
        }
    }
}

/// How many steps the setup still takes, at most.
pub open spec fn steps_left(setup: Setup) -> nat {
    match setup {
        Setup::Load { .. } => 4,
        Setup::Instance { .. } => 3,
        Setup::Devices { .. } => 2,
        Setup::Device { .. } => 1,
        Setup::Ready { .. } => 0,
        Setup::Failed { .. } => 0,
    }
}

/// `reply` answers the stage of the setup.
pub open spec fn answers(setup: Setup, reply: SetupReply) -> bool {
    match reply {
        SetupReply::Done => setup is Load || setup is Instance || setup is Device,
        SetupReply::Devices(_) => setup is Devices,
        SetupReply::Failed(_) => steps_left(setup) > 0,
    }
}

/// Every answer moves the setup on, and a failure ends it, so that it is ready or
/// has failed after at most four steps. Nothing moves it after that.
pub proof fn law_every_setup_ends(setup: Setup, reply: SetupReply, next: Setup)
    requires
        setup_goes_on(setup, reply, next),
    ensures
        answers(setup, reply) ==> steps_left(next) < steps_left(setup),
        answers(setup, reply) && reply is Failed ==> next is Failed,
        steps_left(setup) <= 4,
        steps_left(setup) == 0 ==> next == setup,
{
}

/// The device that is set up is the choice among those that were enumerated, for
/// the render node that the setup was started with.
pub proof fn law_setup_takes_the_chosen_device(
    main_device: u64,
    devices: Vec<PhysicalDevice>,
    chosen: Setup,
    ready: Setup,
)
    requires
        setup_goes_on(Setup::Devices { main_device }, SetupReply::Devices(devices), chosen),
        setup_goes_on(chosen, SetupReply::Done, ready),
    ensures
        match ready {
            Setup::Ready { device, queue_family } => is_choice(
                devices@,
                main_device,
                Ok((device, queue_family)),
            ),
            Setup::Failed { error } => is_choice(devices@, main_device, Err(error)),
            _ => false,
        },
{
}

/// A setup that nothing refuses looks for the render node that it was started with,
/// and ends with the device and the queue family that it was left to create.
pub proof fn law_setup_keeps_what_it_looks_for(
    main_device: u64,
    device: usize,
    queue_family: u32,
    next: Setup,
)
    ensures
        setup_goes_on(Setup::Load { main_device }, SetupReply::Done, next) ==> (next matches
            Setup::Instance { main_device: m } && m == main_device),
        setup_goes_on(Setup::Instance { main_device }, SetupReply::Done, next) ==> (next matches
            Setup::Devices { main_device: m } && m == main_device),
        setup_goes_on(Setup::Device { device, queue_family }, SetupReply::Done, next) ==> (
        next matches Setup::Ready { device: d, queue_family: q } && d == device && q
            == queue_family),
{
}

/// A failed step of the setup is reported in its own words, with its code and cause
/// kept.
pub proof fn law_setup_failure_is_named(setup: Setup, failure: CallFailure, next: Setup)
    requires
        setup_goes_on(setup, SetupReply::Failed(failure), next),
    ensures
        ({
            let said = |label: Seq<char>|
                {
                    &&& next matches Setup::Failed { error }
                    &&& error matches RenderError::Call { step: _, code, cause }
                    &&& code == failure.code && cause == failure.cause
                    &&& error.message_text() == label + ": "@ + failure.cause@
                };
            match setup {
                Setup::Load { .. } => next == (Setup::Failed {
                    error: RenderError::Load(failure.cause),
                }),
                Setup::Instance { .. } => said("create instance"@),
                Setup::Devices { .. } => said("enumerate physical devices"@),
                Setup::Device { .. } => said("create device"@),
                _ => next == setup,
            }
        }),
{
}

/// The device at place `d` is taken for a setup if it has the render node's numbers
/// and a queue family with the lowest bit of its flags set, unless one before it is.
pub proof fn law_setup_finds_the_device(
    main_device: u64,
    devices: Vec<PhysicalDevice>,
    next: Setup,
    d: int,
    q: int,
)
    requires
        setup_goes_on(Setup::Devices { main_device }, SetupReply::Devices(devices), next),
        0 <= d < devices@.len(),
        devices@[d].has_render == 1,
        devices@[d].render_major == dev_major(main_device),
        devices@[d].render_minor == dev_minor(main_device),
        0 <= q < devices@[d].queue_flags@.len(),
        devices@[d].queue_flags@[q] % 2 == 1,
    ensures
        next matches Setup::Device { device, queue_family: _ } && device <= d,
{
    match next {
        Setup::Device { device, queue_family } => law_matching_device_is_found(
            devices@,
            main_device,
            Ok((device, queue_family)),
            d,
            q,
        ),
        Setup::Failed { error } => law_matching_device_is_found(
            devices@,
            main_device,
            Err(error),
            d,
            q,
        ),
        _ => {},
    }
}

} // verus!
