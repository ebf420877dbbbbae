//! Choosing a physical device, a queue family and a memory type.

use vstd::prelude::*;

use crate::drm::{dev_major, dev_minor, device_major, device_minor};
use crate::renderer::error::RenderError;

verus! {

/// VK_TRUE.
pub const VK_TRUE: u32 = 1;

/// VK_QUEUE_GRAPHICS_BIT.
pub const VK_QUEUE_GRAPHICS_BIT: u32 = 0x1;

/// VK_MEMORY_PROPERTY_DEVICE_LOCAL_BIT.
pub const VK_MEMORY_PROPERTY_DEVICE_LOCAL_BIT: u32 = 0x1;

/// What the choice of a physical device looks at: its DRM properties
/// (VkPhysicalDeviceDrmPropertiesEXT) and the flags of its queue families.
#[derive(Debug)]
pub struct PhysicalDevice {
    pub has_render: u32,
    pub render_major: i64,
    pub render_minor: i64,
    pub queue_flags: Vec<u32>,
}

/// The memory types of a device: the property flags of the first `count`
/// entries are meaningful.
#[derive(Clone, Copy, Debug, PartialEq, Eq)]
pub struct MemoryTypes {
    pub count: u32,
    pub property_flags: [u32; 32],
}

/// The device drives the render node `dev`.
pub open spec fn drives(device: PhysicalDevice, dev: u64) -> bool {
    &&& device.has_render == VK_TRUE
    &&& device.render_major as u32 == dev_major(dev)
    &&& device.render_minor as u32 == dev_minor(dev)
}

/// The queue family at `q` can do graphics.
pub open spec fn does_graphics(device: PhysicalDevice, q: int) -> bool {
    &&& 0 <= q < device.queue_flags@.len()
    &&& device.queue_flags@[q] & VK_QUEUE_GRAPHICS_BIT == VK_QUEUE_GRAPHICS_BIT
}

/// `q` is the first queue family that can do graphics.
pub open spec fn first_graphics(device: PhysicalDevice, q: int) -> bool {
    &&& does_graphics(device, q)
    &&& forall|r: int| 0 <= r < q ==> !#[trigger] does_graphics(device, r)
}

/// The device drives the render node `dev` and has a graphics queue.
pub open spec fn usable(device: PhysicalDevice, dev: u64) -> bool {
    &&& drives(device, dev)
    &&& exists|q: int| #[trigger] does_graphics(device, q)
}

fn pick_queue_family(device: &PhysicalDevice) -> (picked: Option<u32>)
    ensures
        match picked {
            Some(q) => exists|i: int| #[trigger] first_graphics(*device, i) && q == i as u32,
            None => forall|i: int| !#[trigger] does_graphics(*device, i),
        },
{
    let mut i: usize = 0;
    while i < device.queue_flags.len()
        invariant
            i <= device.queue_flags@.len(),
            forall|r: int| 0 <= r < i ==> !#[trigger] does_graphics(*device, r),
        decreases device.queue_flags@.len() - i,
    {
        if device.queue_flags[i] & VK_QUEUE_GRAPHICS_BIT == VK_QUEUE_GRAPHICS_BIT {
            assert(first_graphics(*device, i as int));
            return Some(i as u32);
        }
        i += 1;
    }
    None
}

/// `picked` is the choice among `devices` for the render node `dev`: the first
/// usable device, by its place, with its first graphics queue family; or the
/// error that says that there is none.
pub open spec fn is_choice(
    devices: Seq<PhysicalDevice>,
    dev: u64,
    picked: core::result::Result<(usize, u32), RenderError>,
) -> bool {
    match picked {
        Ok((d, q)) => {
            &&& d < devices.len()
            &&& drives(devices[d as int], dev)
            &&& exists|i: int| #[trigger] first_graphics(devices[d as int], i) && q == i as u32
            &&& forall|e: int| 0 <= e < d ==> !usable(#[trigger] devices[e], dev)
        },
        Err(error) => {
            &&& error == RenderError::NoMatchingDevice {
                major: dev_major(dev),
                minor: dev_minor(dev),
            }
            &&& forall|e: int| 0 <= e < devices.len() ==> !usable(#[trigger] devices[e], dev)
        },
    }
}

/// The first device that drives the render node `dev` and has a graphics queue,
/// by its place in `devices`, with the first such queue family.
pub fn pick_physical_device(
    devices: &[PhysicalDevice],
    dev: u64,
) -> (picked: core::result::Result<(usize, u32), RenderError>)
    ensures
        is_choice(devices@, dev, picked),
{
    let major: u32 = device_major(dev);
    let minor: u32 = device_minor(dev);
    let mut d: usize = 0;
    while d < devices.len()
        invariant
            d <= devices@.len(),
            major == dev_major(dev),
            minor == dev_minor(dev),
            forall|e: int| 0 <= e < d ==> !usable(#[trigger] devices@[e], dev),
        decreases devices@.len() - d,
    {
        let device = &devices[d];
        if device.has_render == VK_TRUE && device.render_major as u32 == major
            && device.render_minor as u32 == minor {
            match pick_queue_family(device) {
                Some(q) => {
                    return Ok((d, q));
                },
                None => {},
            }
        }
        d += 1;
    }
    Err(RenderError::NoMatchingDevice { major, minor })
}

/// The memory type at `i` may hold the image and is device-local.
pub open spec fn memory_type_fits(memory_type_bits: u32, types: MemoryTypes, i: int) -> bool {
    &&& 0 <= i < types.count
    &&& i < 32
    &&& memory_type_bits & (1u32 << i as u32) != 0
    &&& types.property_flags@[i] & VK_MEMORY_PROPERTY_DEVICE_LOCAL_BIT
        == VK_MEMORY_PROPERTY_DEVICE_LOCAL_BIT
}

/// The first memory type that fits, if any does.
pub open spec fn exportable_memory_type(memory_type_bits: u32, types: MemoryTypes) -> Option<u32> {
    if exists|i: int| #[trigger] memory_type_fits(memory_type_bits, types, i) {
        Some(
            (choose|i: int|
                {
                    &&& #[trigger] memory_type_fits(memory_type_bits, types, i)
                    &&& forall|j: int| 0 <= j < i ==> !memory_type_fits(memory_type_bits, types, j)
                }) as u32,
        )
    } else {
        None
    }
}

/// A memory type that is device-local and in the required type bits: the first.
pub fn pick_exportable_memory_type(memory_type_bits: u32, types: &MemoryTypes) -> (picked: Option<
    u32,
>)
    ensures
        picked == exportable_memory_type(memory_type_bits, *types),
        match picked {
            Some(i) => {
                &&& memory_type_fits(memory_type_bits, *types, i as int)
                &&& forall|j: int|
                    0 <= j < i ==> !#[trigger] memory_type_fits(memory_type_bits, *types, j)
            },
            None => forall|j: int| !#[trigger] memory_type_fits(memory_type_bits, *types, j),
        },
{
    let mut i: u32 = 0;
    while i < 32 && i < types.count
        invariant
            i <= 32,
            i <= types.count,
            forall|j: int| 0 <= j < i ==> !#[trigger] memory_type_fits(memory_type_bits, *types, j),
        decreases 32 - i,
    {
        if memory_type_bits & (1u32 << i) != 0 && types.property_flags[i as usize]
            & VK_MEMORY_PROPERTY_DEVICE_LOCAL_BIT == VK_MEMORY_PROPERTY_DEVICE_LOCAL_BIT {
            assert(memory_type_fits(memory_type_bits, *types, i as int));
            return Some(i);
        }
        i += 1;
    }
    None
}

/// The choice of a device leaves nothing open.
pub proof fn law_choice_is_unique(
    devices: Seq<PhysicalDevice>,
    dev: u64,
    one: core::result::Result<(usize, u32), RenderError>,
    other: core::result::Result<(usize, u32), RenderError>,
)
    requires
        is_choice(devices, dev, one),
        is_choice(devices, dev, other),
    ensures
        one == other,
{
    if one is Ok {
        let (d, _) = one->Ok_0;
        let i = choose|i: int| #[trigger] first_graphics(devices[d as int], i);
        assert(does_graphics(devices[d as int], i));
        assert(usable(devices[d as int], dev));
    }
    if other is Ok {
        let (d, _) = other->Ok_0;
        let i = choose|i: int| #[trigger] first_graphics(devices[d as int], i);
        assert(does_graphics(devices[d as int], i));
        assert(usable(devices[d as int], dev));
    }
}

/// A device for the render node is found wherever there is one: it has a render
/// node with the numbers of `dev`, and a queue family with the lowest bit of its
/// flags set, whatever the other bits are.
pub proof fn law_matching_device_is_found(
    devices: Seq<PhysicalDevice>,
    dev: u64,
    picked: core::result::Result<(usize, u32), RenderError>,
    d: int,
    q: int,
)
    requires
        is_choice(devices, dev, picked),
        0 <= d < devices.len(),
        devices[d].has_render == 1,
        devices[d].render_major == dev_major(dev),
        devices[d].render_minor == dev_minor(dev),
        0 <= q < devices[d].queue_flags@.len(),
        devices[d].queue_flags@[q] % 2 == 1,
    ensures
        picked matches Ok((e, _)) && e <= d,
{
    let flags = devices[d].queue_flags@[q];
    assert(flags & 1 == 1 <==> flags % 2 == 1) by (bit_vector);
    assert(does_graphics(devices[d], q));
    assert(devices[d].render_major as u32 == dev_major(dev));
    assert(devices[d].render_minor as u32 == dev_minor(dev));
    assert(usable(devices[d], dev));
}

/// What is picked is a device with the numbers of `dev` (in 32 bits), and the queue
/// family is its first with the lowest bit of its flags set.
pub proof fn law_picked_device_matches(
    devices: Seq<PhysicalDevice>,
    dev: u64,
    picked: core::result::Result<(usize, u32), RenderError>,
    r: int,
)
    requires
        is_choice(devices, dev, picked),
    ensures
        picked matches Ok((d, q)) ==> {
            let device = devices[d as int];
            &&& d < devices.len()
            &&& device.has_render == 1
            &&& 0 <= device.render_major <= u32::MAX ==> device.render_major == dev_major(dev)
            &&& 0 <= device.render_minor <= u32::MAX ==> device.render_minor == dev_minor(dev)
            &&& device.queue_flags@.len() <= u32::MAX ==> {
                &&& q < device.queue_flags@.len()
                &&& device.queue_flags@[q as int] % 2 == 1
                &&& 0 <= r < q ==> device.queue_flags@[r] % 2 == 0
            }
        },
        picked matches Err(error) ==> error == (RenderError::NoMatchingDevice {
            major: dev_major(dev),
            minor: dev_minor(dev),
        }),
{
    if picked is Ok {
        let (d, q) = picked->Ok_0;
        let device = devices[d as int];
        let i = choose|i: int| #[trigger] first_graphics(device, i) && q == i as u32;
        let flags = device.queue_flags@[i];
        assert(flags & 1 == 1 <==> flags % 2 == 1) by (bit_vector);
        if 0 <= r < i {
            let other = device.queue_flags@[r];
            assert(other & 1 == 1 <==> other % 2 == 1) by (bit_vector);
            assert(!does_graphics(device, r));
        }
    }
}

/// Where no device has both, the error says which numbers were looked for.
pub proof fn law_no_device_is_an_error(
    devices: Seq<PhysicalDevice>,
    dev: u64,
    picked: core::result::Result<(usize, u32), RenderError>,
)
    requires
        is_choice(devices, dev, picked),
        forall|d: int|
            0 <= d < devices.len() ==> (#[trigger] devices[d]).has_render != 1 || (0
                <= devices[d].render_minor <= u32::MAX && devices[d].render_minor != dev_minor(dev))
                || (0 <= devices[d].render_major <= u32::MAX && devices[d].render_major
                != dev_major(dev)) || devices[d].queue_flags@.len() == 0,
    ensures
        picked == Err::<(usize, u32), RenderError>(
            (RenderError::NoMatchingDevice { major: dev_major(dev), minor: dev_minor(dev) }),
        ),
{
    if picked is Ok {
        let (d, q) = picked->Ok_0;
        assert(drives(devices[d as int], dev));
        let i = choose|i: int| #[trigger] first_graphics(devices[d as int], i) && q == i as u32;
        assert(does_graphics(devices[d as int], i));
    }
}

/// The memory type of an image is one that its bits admit and that is device-local,
/// and the first such: any type with its bit set and the lowest bit of its flags
/// set comes at it or after it.
pub proof fn law_first_admitted_local_type_is_taken(
    memory_type_bits: u32,
    types: MemoryTypes,
    j: u32,
)
    requires
        j < types.count,
        j < 32,
        (memory_type_bits >> j) % 2 == 1,
        types.property_flags@[j as int] % 2 == 1,
    ensures
        exportable_memory_type(memory_type_bits, types) matches Some(i) && i <= j && i < types.count
            && (memory_type_bits >> i) % 2 == 1 && types.property_flags@[i as int] % 2 == 1,
{
    lemma_type_fits(memory_type_bits, types, j);
    let i = lemma_first_fitting(memory_type_bits, types, j as int);
    assert forall|k: int|
        memory_type_fits(memory_type_bits, types, k) && (forall|l: int|
            0 <= l < k ==> !memory_type_fits(memory_type_bits, types, l)) implies k == i by {
        if k < i {
            assert(!memory_type_fits(memory_type_bits, types, k));
        }
    }
    lemma_type_fits(memory_type_bits, types, i as u32);
}

/// Without such a type there is none to take.
pub proof fn law_no_admitted_local_type(memory_type_bits: u32, types: MemoryTypes)
    requires
        forall|j: u32|
            j < types.count && j < 32 ==> #[trigger] (memory_type_bits >> j) % 2 == 0
                || types.property_flags@[j as int] % 2 == 0,
    ensures
        exportable_memory_type(memory_type_bits, types) is None,
{
    assert forall|i: int| !#[trigger] memory_type_fits(memory_type_bits, types, i) by {
        if memory_type_fits(memory_type_bits, types, i) {
            lemma_type_fits(memory_type_bits, types, i as u32);
            assert((memory_type_bits >> (i as u32)) % 2 == 1);
        }
    }
}

proof fn lemma_type_fits(memory_type_bits: u32, types: MemoryTypes, i: u32)
    requires
        i < 32,
    ensures
        memory_type_fits(memory_type_bits, types, i as int) <==> i < types.count && (
        memory_type_bits >> i) % 2 == 1 && types.property_flags@[i as int] % 2 == 1,
{
    let flags = types.property_flags@[i as int];
    assert(flags & 1 == 1 <==> flags % 2 == 1) by (bit_vector);
    assert(memory_type_bits & (1u32 << i) != 0 <==> (memory_type_bits >> i) % 2 == 1)
        by (bit_vector)
        requires
            i < 32,
    ;
}

proof fn lemma_first_fitting(memory_type_bits: u32, types: MemoryTypes, j: int) -> (i: int)
    requires
        memory_type_fits(memory_type_bits, types, j),
    ensures
        0 <= i <= j,
        memory_type_fits(memory_type_bits, types, i),
        forall|k: int| 0 <= k < i ==> !#[trigger] memory_type_fits(memory_type_bits, types, k),
    decreases j,
{
    if exists|k: int| 0 <= k < j && #[trigger] memory_type_fits(memory_type_bits, types, k) {
        let k = choose|k: int|
            0 <= k < j && #[trigger] memory_type_fits(memory_type_bits, types, k);
        lemma_first_fitting(memory_type_bits, types, k)
    } else {
        j
    }
}

proof fn lemma_low_half(x: i64)
    ensures
        x as u32 as int == x as int % 0x1_0000_0000,
{
    assert(x >= 0 ==> x as u32 == x % 0x1_0000_0000) by (bit_vector);
    assert(x < 0 ==> x as u32 == (x + 0x1_0000_0000_0000_0000) % 0x1_0000_0000) by (bit_vector);
}

/// A device drives a render node exactly if it has one whose numbers are, in their
/// lower 32 bits, those of the node.
pub proof fn law_device_numbers_match_in_32_bits(device: PhysicalDevice, dev: u64)
    ensures
        drives(device, dev) <==> {
            &&& device.has_render == 1
            &&& device.render_major as int % 0x1_0000_0000 == dev_major(dev)
            &&& device.render_minor as int % 0x1_0000_0000 == dev_minor(dev)
        },
{
    lemma_low_half(device.render_major);
    lemma_low_half(device.render_minor);
}

} // verus!
