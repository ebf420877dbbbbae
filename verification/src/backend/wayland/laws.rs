//! What holds of the window across events.

use vstd::prelude::*;

use super::{
    bound_version, device_number, interface_of, lower, plane_params, upper, CreatedBuffer, Global,
    Presentation, WaylandState,
};
use crate::bytes::{law_byte_at_its_place, law_eight_bytes};
use crate::{DmaPlane, ExplicitSync};

verus! {

/// A 64-bit number that travels in halves arrives whole.
pub proof fn law_halves_make_the_whole(x: u64)
    ensures
        (upper(x) as u64) << 32 | lower(x) as u64 == x,
{
    assert(((x >> 32) as u32 as u64) << 32 | x as u32 as u64 == x) by (bit_vector);
}

/// The buffer that the compositor creates for a committed frame is presented with
/// exactly the points and the size that it was committed with.
pub proof fn law_commit_is_presented(
    state: WaylandState,
    width: u32,
    height: u32,
    sync: ExplicitSync,
)
    requires
        state.can_commit(),
        state.syncobj_timeline,
    ensures
        state.after_commit(width, height, sync).created() == CreatedBuffer::Present(
            (Presentation {
                acquire_hi: upper(sync.acquire_point),
                acquire_lo: lower(sync.acquire_point),
                release_hi: upper(sync.release_point),
                release_lo: lower(sync.release_point),
                width: width as i32,
                height: height as i32,
            }),
        ),
{
}

/// A committed frame is presented at most once: what the compositor creates after
/// that, or after a failure, is dropped.
pub proof fn law_points_are_used_once(state: WaylandState)
    requires
        state.window,
        state.syncobj_timeline,
    ensures
        state.after_created().created() is MissingAcquire,
        state.after_failed().created() is MissingAcquire,
{
}

/// There is an acquire point waiting exactly if there is a release point.
pub open spec fn points_paired(state: WaylandState) -> bool {
    state.pending_acquire is Some <==> state.pending_release is Some
}

/// Points come and go in pairs, from the beginning and through every event, so
/// that no buffer is dropped for want of a release point alone. What is `heard` of
/// devices, formats, closing and rendering has no part in it.
pub proof fn law_points_travel_in_pairs(
    state: WaylandState,
    global: Global,
    width: u32,
    height: u32,
    sync: ExplicitSync,
    new_width: i32,
    new_height: i32,
    heard: WaylandState,
)
    ensures
        state.is_initial() ==> points_paired(state),
        points_paired(state) ==> {
            &&& !(state.created() is MissingRelease)
            &&& points_paired(state.with_global(global))
            &&& points_paired(state.after_init_window())
            &&& points_paired(state.after_import_timeline())
            &&& points_paired(state.after_commit(width, height, sync))
            &&& points_paired(state.after_created())
            &&& points_paired(state.after_failed())
            &&& points_paired(state.after_surface_configure())
            &&& points_paired(state.after_toplevel_configure(new_width, new_height))
            &&& points_paired(
                (WaylandState {
                    running: heard.running,
                    main_device: heard.main_device,
                    format_table: heard.format_table,
                    dmabuf_formats: heard.dmabuf_formats,
                    pending_render: heard.pending_render,
                    ..state
                }),
            )
        },
{
}

/// The window is created once, and the timeline is imported once.
pub proof fn law_window_and_timeline_come_once(state: WaylandState)
    ensures
        !state.after_init_window().wants_window(),
        !state.after_import_timeline().wants_timeline(),
{
}

/// The frame that a configured surface asks for has the size that the compositor
/// suggested last, or the size before it if it left the size to us.
pub proof fn law_configure_renders_at_the_latest_size(
    state: WaylandState,
    width: i32,
    height: i32,
)
    ensures
        state.after_toplevel_configure(width, height).after_surface_configure().pending_render
            == Some(
            if width != 0 && height != 0 {
                (width as u32, height as u32)
            } else {
                state.size
            },
        ),
{
}

/// Nothing is handed to the compositor before there is a window to show it in.
pub proof fn law_no_window_no_frame(
    state: WaylandState,
    width: u32,
    height: u32,
    sync: ExplicitSync,
)
    requires
        !state.window,
    ensures
        !state.can_commit(),
        state.after_commit(width, height, sync) == state,
        state.created() is NoSurface,
{
}

/// A committed frame becomes one plane of parameters for each of its planes, in
/// their order and numbered so, with the plane's own offset and stride (as far as
/// the protocol's 32 bits can say them) and the frame's modifier in halves.
pub proof fn law_planes_keep_their_layout(planes: Seq<DmaPlane>, modifier: u64, i: int)
    requires
        0 <= i < planes.len(),
    ensures
        ({
            let params = plane_params(planes, modifier);
            &&& params.len() == planes.len()
            &&& i <= u32::MAX ==> params[i].plane_idx == i
            &&& planes[i].offset <= u32::MAX ==> params[i].offset == planes[i].offset
            &&& planes[i].stride <= u32::MAX ==> params[i].stride == planes[i].stride
            &&& params[i].offset == planes[i].offset as int % 0x1_0000_0000
            &&& params[i].stride == planes[i].stride as int % 0x1_0000_0000
            &&& (params[i].modifier_hi as u64) << 32 | params[i].modifier_lo as u64 == modifier
            &&& params[i].modifier_hi * 0x1_0000_0000 + params[i].modifier_lo == modifier
        }),
{
    law_halves_make_the_whole(modifier);
    law_halves_are_the_digits(modifier);
    let (offset, stride) = (planes[i].offset, planes[i].stride);
    assert(offset as u32 == offset % 0x1_0000_0000) by (bit_vector);
    assert(stride as u32 == stride % 0x1_0000_0000) by (bit_vector);
}

/// The halves of a number are its digits to the base of two to the 32nd power.
pub proof fn law_halves_are_the_digits(x: u64)
    ensures
        upper(x) * 0x1_0000_0000 + lower(x) == x,
{
    assert((x >> 32) as u32 == x / 0x1_0000_0000) by (bit_vector);
    assert(x as u32 == x % 0x1_0000_0000) by (bit_vector);
}

/// The buffer of a committed frame is presented with the frame's own points, which
/// their halves add up to, and with its size where that fits the protocol's numbers.
pub proof fn law_frame_is_presented_with_its_points_and_size(
    state: WaylandState,
    width: u32,
    height: u32,
    sync: ExplicitSync,
)
    requires
        state.dmabuf,
        state.window,
        state.syncobj_timeline,
    ensures
        state.after_commit(width, height, sync).created() matches CreatedBuffer::Present(p) && {
            &&& p.acquire_hi * 0x1_0000_0000 + p.acquire_lo == sync.acquire_point
            &&& p.release_hi * 0x1_0000_0000 + p.release_lo == sync.release_point
            &&& width <= i32::MAX ==> p.width == width
            &&& height <= i32::MAX ==> p.height == height
        },
{
    law_halves_are_the_digits(sync.acquire_point);
    law_halves_are_the_digits(sync.release_point);
}

/// A frame is handed over exactly if linux-dmabuf is bound and there is a window.
/// It then leaves its points and its size to wait for the buffer, and changes
/// nothing else; otherwise it changes nothing.
pub proof fn law_commit_leaves_points_and_size(
    state: WaylandState,
    width: u32,
    height: u32,
    sync: ExplicitSync,
)
    ensures
        ({
            let next = state.after_commit(width, height, sync);
            let waiting = state.dmabuf && state.window;
            &&& state.can_commit() == waiting
            &&& next == (WaylandState {
                pending_acquire: next.pending_acquire,
                pending_release: next.pending_release,
                create_size: next.create_size,
                ..state
            })
            &&& waiting ==> {
                &&& next.pending_acquire == Some(sync.acquire_point)
                &&& next.pending_release == Some(sync.release_point)
                &&& next.create_size matches Some((w, h))
                &&& width <= i32::MAX ==> w == width
                &&& height <= i32::MAX ==> h == height
            }
            &&& !waiting ==> next == state
        }),
{
}

/// A created buffer is presented exactly if there are a window, an imported timeline
/// and both points; otherwise the first of these that is missing is named. Points
/// that were looked at are gone afterwards, and so is the size; nothing else changes.
pub proof fn law_created_buffer_needs_all_there_is(state: WaylandState)
    ensures
        state.created() is NoSurface <==> !state.window,
        state.created() is MissingSync <==> state.window && !state.syncobj_timeline,
        state.created() is MissingAcquire <==> state.window && state.syncobj_timeline
            && state.pending_acquire is None,
        state.created() is MissingRelease <==> state.window && state.syncobj_timeline
            && state.pending_acquire is Some && state.pending_release is None,
        state.created() is Present <==> state.window && state.syncobj_timeline
            && state.pending_acquire is Some && state.pending_release is Some,
        state.created() matches CreatedBuffer::Present(p) ==> {
            &&& p.acquire_hi * 0x1_0000_0000 + p.acquire_lo == state.pending_acquire->0
            &&& p.release_hi * 0x1_0000_0000 + p.release_lo == state.pending_release->0
            &&& state.create_size matches Some((w, h)) ==> p.width == w && p.height == h
            &&& state.create_size is None ==> p.width == 0 && p.height == 0
        },
        state.after_created() == (WaylandState {
            create_size: None,
            pending_acquire: state.after_created().pending_acquire,
            pending_release: state.after_created().pending_release,
            ..state
        }),
        state.created() is Present ==> state.after_created().pending_acquire is None
            && state.after_created().pending_release is None,
        state.created() is NoSurface || state.created() is MissingSync ==> {
            &&& state.after_created().pending_acquire == state.pending_acquire
            &&& state.after_created().pending_release == state.pending_release
        },
        state.created() is MissingAcquire ==> {
            &&& state.after_created().pending_acquire is None
            &&& state.after_created().pending_release == state.pending_release
        },
        state.created() is MissingRelease ==> {
            &&& state.after_created().pending_acquire is None
            &&& state.after_created().pending_release is None
        },
{
    if state.pending_acquire is Some {
        law_halves_are_the_digits(state.pending_acquire->0);
    }
    if state.pending_release is Some {
        law_halves_are_the_digits(state.pending_release->0);
    }
}

/// A failed buffer takes the points and the size with it, and nothing else.
pub proof fn law_failed_buffer_is_forgotten(state: WaylandState)
    ensures
        state.after_failed().pending_acquire is None,
        state.after_failed().pending_release is None,
        state.after_failed().create_size is None,
        state.after_failed() == (WaylandState {
            pending_acquire: None,
            pending_release: None,
            create_size: None,
            ..state
        }),
{
}

/// A suggested size is taken over as it is, and a configured surface asks for a
/// frame of the size that was taken over; nothing else changes.
pub proof fn law_sizes_are_taken_as_they_are(state: WaylandState, width: i32, height: i32)
    ensures
        ({
            let next = state.after_toplevel_configure(width, height);
            &&& width > 0 && height > 0 ==> next.size.0 == width && next.size.1 == height
            &&& width != 0 && height != 0 ==> {
                &&& next.size.0 == width as int % 0x1_0000_0000
                &&& next.size.1 == height as int % 0x1_0000_0000
            }
            &&& width == 0 || height == 0 ==> next.size == state.size
            &&& next == (WaylandState { size: next.size, ..state })
            &&& state.after_surface_configure().pending_render == Some(state.size)
            &&& state.after_surface_configure() == (WaylandState {
                pending_render: Some(state.size),
                ..state
            })
        }),
{
    assert(width < 0 ==> width as u32 == width + 0x1_0000_0000) by (bit_vector);
    assert(height < 0 ==> height as u32 == height + 0x1_0000_0000) by (bit_vector);
}

/// A window is due exactly if there is none yet while the compositor and the shell
/// are bound; a timeline exactly if none is imported while the manager is bound.
/// What is created is remembered, with whether decorations were asked for, and
/// nothing else changes.
pub proof fn law_window_and_timeline_come_when_due(state: WaylandState)
    ensures
        state.wants_window() <==> !state.window && state.compositor && state.wm_base,
        state.wants_timeline() <==> !state.syncobj_timeline && state.syncobj_manager,
        !state.window && state.compositor && state.wm_base ==> state.after_init_window() == (
        WaylandState { window: true, decoration: state.decoration_manager, ..state }),
        state.window || !state.compositor || !state.wm_base ==> state.after_init_window() == state,
        !state.syncobj_timeline && state.syncobj_manager ==> state.after_import_timeline() == (
        WaylandState { syncobj_timeline: true, ..state }),
        state.syncobj_timeline || !state.syncobj_manager ==> state.after_import_timeline() == state,
{
}

/// Each global goes by its interface's name, is bound at a version that the caller
/// supports (for the compositor the announced one up to four), and is remembered
/// without anything else changing.
pub proof fn law_globals(state: WaylandState, version: u32)
    ensures
        interface_of(Global::Compositor) == "wl_compositor"@,
        interface_of(Global::WmBase) == "xdg_wm_base"@,
        interface_of(Global::DecorationManager) == "zxdg_decoration_manager_v1"@,
        interface_of(Global::Dmabuf) == "zwp_linux_dmabuf_v1"@,
        interface_of(Global::SyncobjManager) == "wp_linux_drm_syncobj_manager_v1"@,
        bound_version(Global::Compositor, version) <= version,
        bound_version(Global::Compositor, version) <= 4,
        bound_version(Global::Compositor, version) == version || bound_version(
            Global::Compositor,
            version,
        ) == 4,
        bound_version(Global::WmBase, version) == 1,
        bound_version(Global::DecorationManager, version) == 1,
        bound_version(Global::Dmabuf, version) == 5,
        bound_version(Global::SyncobjManager, version) == 1,
        state.with_global(Global::Compositor) == (WaylandState { compositor: true, ..state }),
        state.with_global(Global::WmBase) == (WaylandState { wm_base: true, ..state }),
        state.with_global(Global::DecorationManager) == (WaylandState {
            decoration_manager: true,
            ..state
        }),
        state.with_global(Global::Dmabuf) == (WaylandState { dmabuf: true, ..state }),
        state.with_global(Global::SyncobjManager) == (WaylandState {
            syncobj_manager: true,
            ..state
        }),
{
}

/// The device that the feedback names is the number that its first eight bytes make,
/// least significant first. Bytes beyond them do not count, and missing ones are zero.
pub proof fn law_main_device_is_little_endian(device: Seq<u8>)
    ensures
        device.len() >= 8 ==> device_number(device) == device[0] + 0x100 * device[1] + 0x1_0000
            * device[2] + 0x100_0000 * device[3] + 0x1_0000_0000 * device[4] + 0x100_0000_0000
            * device[5] + 0x1_0000_0000_0000 * device[6] + 0x100_0000_0000_0000 * device[7],
        device.len() < 8 ==> device_number(device) == device_number(device.push(0)),
{
    if device.len() >= 8 {
        assert(device.take(8) =~= seq![
            device[0],
            device[1],
            device[2],
            device[3],
            device[4],
            device[5],
            device[6],
            device[7],
        ]);
        law_eight_bytes(
            device[0],
            device[1],
            device[2],
            device[3],
            device[4],
            device[5],
            device[6],
            device[7],
        );
    } else {
        law_byte_at_its_place(device, 0);
        assert(0 * vstd::arithmetic::power::pow(256, device.len()) == 0);
        assert(device.push(0).len() == 8 ==> device.push(0).take(8) =~= device.push(0));
    }
}

/// The beginning: the program runs, nothing is bound, created, known or pending, and
/// the window is to be 800 by 600.
pub proof fn law_beginning(state: WaylandState)
    requires
        state.is_initial(),
    ensures
        state.running,
        state.size.0 == 800 && state.size.1 == 600,
        !state.compositor && !state.wm_base && !state.decoration_manager && !state.dmabuf
            && !state.syncobj_manager,
        !state.window && !state.decoration && !state.syncobj_timeline,
        state.main_device is None && state.format_table is None,
        state.dmabuf_formats@.len() == 0,
        state.pending_render is None && state.pending_acquire is None
            && state.pending_release is None && state.create_size is None,
{
}

} // verus!
