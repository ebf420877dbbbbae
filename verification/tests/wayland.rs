use drm_fourcc::DrmFourcc;
use wayvek::backend::wayland::{
    Bind, BufferParams, CreatedBuffer, Global, PlaneParams, Presentation, WaylandState, WindowPlan,
};
use wayvek::bytes::ByteOrder;
use wayvek::{DmaFrame, DmaPlane, ExplicitSync};

const XRGB: u32 = DrmFourcc::Xrgb8888 as u32;

fn bound() -> WaylandState {
    let mut state = WaylandState::new();
    state.global(1, "wl_compositor", 6);
    state.global(2, "xdg_wm_base", 6);
    state.global(3, "zwp_linux_dmabuf_v1", 5);
    state.global(4, "wp_linux_drm_syncobj_manager_v1", 1);
    state
}

fn shown() -> WaylandState {
    let mut state = bound();
    assert!(state.import_timeline());
    assert!(state.init_window().is_some());
    state
}

fn frame() -> DmaFrame {
    DmaFrame {
        fd: 10,
        width: 640,
        height: 480,
        format: XRGB,
        modifier: 0x0100_0000_0000_0002,
        planes: vec![DmaPlane {
            offset: 0x1_0000_0040,
            stride: 2560,
        }],
    }
}

const SYNC: ExplicitSync = ExplicitSync {
    acquire_point: 0x3_0000_0001,
    release_point: 0x3_0000_0002,
};

#[test]
fn the_beginning_is_800_by_600_and_running() {
    let state = WaylandState::default();
    assert!(state.running);
    assert_eq!(state.size, (800, 600));
    assert_eq!(state.main_device(), None);
    assert_eq!(state.advertised_formats(), vec![]);
    assert_eq!(state.pending_render, None);
}

#[test]
fn used_globals_are_bound_at_their_versions() {
    let mut state = WaylandState::new();
    let bind = |global, name, version, default_feedback| {
        Some(Bind {
            global,
            name,
            version,
            default_feedback,
        })
    };
    assert_eq!(
        state.global(1, "wl_compositor", 6),
        bind(Global::Compositor, 1, 4, false)
    );
    assert_eq!(
        state.global(1, "wl_compositor", 3),
        bind(Global::Compositor, 1, 3, false)
    );
    assert_eq!(
        state.global(2, "xdg_wm_base", 6),
        bind(Global::WmBase, 2, 1, false)
    );
    assert_eq!(
        state.global(3, "zxdg_decoration_manager_v1", 1),
        bind(Global::DecorationManager, 3, 1, false)
    );
    assert_eq!(
        state.global(4, "zwp_linux_dmabuf_v1", 3),
        bind(Global::Dmabuf, 4, 5, true)
    );
    assert_eq!(
        state.global(5, "wp_linux_drm_syncobj_manager_v1", 1),
        bind(Global::SyncobjManager, 5, 1, false)
    );
    assert_eq!(state.global(6, "wl_seat", 7), None);
    assert!(state.compositor && state.wm_base && state.decoration_manager);
    assert!(state.dmabuf && state.syncobj_manager);
}

#[test]
fn the_window_is_created_once_when_its_globals_are_there() {
    let mut state = WaylandState::new();
    assert_eq!(state.init_window(), None);
    state.global(1, "wl_compositor", 4);
    assert_eq!(state.init_window(), None);
    assert!(!state.lacks_sync_manager());

    let mut state = bound();
    assert_eq!(
        state.init_window(),
        Some(WindowPlan {
            title: "wayvek".to_string(),
            app_id: "wayvek".to_string(),
            min_size: (1, 1),
            decorate: false
        })
    );
    assert!(state.window);
    assert_eq!(state.init_window(), None);
}

#[test]
fn decorations_are_asked_for_where_there_is_a_manager() {
    let mut state = bound();
    state.global(9, "zxdg_decoration_manager_v1", 1);
    assert!(state.init_window().unwrap().decorate);
    assert!(state.decoration);
}

#[test]
fn a_window_needs_explicit_synchronization() {
    let mut state = WaylandState::new();
    state.global(1, "wl_compositor", 4);
    state.global(2, "xdg_wm_base", 1);
    assert!(state.lacks_sync_manager());
    state.global(3, "wp_linux_drm_syncobj_manager_v1", 1);
    assert!(!state.lacks_sync_manager());
}

#[test]
fn the_timeline_is_imported_once() {
    let mut state = WaylandState::new();
    assert!(!state.import_timeline());
    let mut state = bound();
    assert!(state.import_timeline());
    assert!(!state.import_timeline());
}

#[test]
fn a_committed_frame_is_presented_with_its_points() {
    let mut state = shown();
    assert_eq!(
        state.commit(&frame(), SYNC),
        Some(BufferParams {
            planes: vec![PlaneParams {
                plane_idx: 0,
                offset: 0x40,
                stride: 2560,
                modifier_hi: 0x0100_0000,
                modifier_lo: 2
            }],
            width: 640,
            height: 480,
            format: XRGB
        })
    );
    assert_eq!(
        state.buffer_created(),
        CreatedBuffer::Present(Presentation {
            acquire_hi: 3,
            acquire_lo: 1,
            release_hi: 3,
            release_lo: 2,
            width: 640,
            height: 480
        })
    );
    // The points are used up.
    assert_eq!(state.buffer_created(), CreatedBuffer::MissingAcquire);
}

#[test]
fn planes_are_numbered() {
    let mut state = shown();
    let mut two = frame();
    two.planes.push(DmaPlane {
        offset: 9,
        stride: 1280,
    });
    let params = state.commit(&two, SYNC).unwrap();
    let numbers: Vec<u32> = params.planes.iter().map(|p| p.plane_idx).collect();
    assert_eq!(numbers, vec![0, 1]);
    assert_eq!(params.planes[1].offset, 9);
    assert_eq!(params.planes[1].stride, 1280);
}

#[test]
fn without_a_window_nothing_is_committed() {
    let mut state = bound();
    assert_eq!(state.commit(&frame(), SYNC), None);
    assert_eq!(state.pending_acquire, None);
    assert_eq!(state.buffer_created(), CreatedBuffer::NoSurface);

    let mut state = WaylandState::new();
    state.global(1, "wl_compositor", 4);
    state.global(2, "xdg_wm_base", 1);
    state.global(3, "wp_linux_drm_syncobj_manager_v1", 1);
    assert!(state.init_window().is_some());
    assert_eq!(state.commit(&frame(), SYNC), None);
}

#[test]
fn a_failed_buffer_takes_its_points_with_it() {
    let mut state = shown();
    state.commit(&frame(), SYNC);
    state.buffer_failed();
    assert_eq!(state.create_size, None);
    assert_eq!(state.buffer_created(), CreatedBuffer::MissingAcquire);
}

#[test]
fn a_buffer_without_sync_objects_is_dropped() {
    let mut state = bound();
    assert!(state.init_window().is_some());
    state.commit(&frame(), SYNC);
    assert_eq!(state.buffer_created(), CreatedBuffer::MissingSync);
    // The points wait for the next buffer; the size does not.
    assert_eq!(state.pending_acquire, Some(SYNC.acquire_point));
    assert_eq!(state.create_size, None);
}

#[test]
fn a_buffer_without_a_release_point_is_dropped() {
    let mut state = shown();
    state.commit(&frame(), SYNC);
    state.pending_release = None;
    assert_eq!(state.buffer_created(), CreatedBuffer::MissingRelease);
    assert_eq!(state.pending_acquire, None);
}

#[test]
fn a_configured_surface_is_rendered_at_the_latest_size() {
    let mut state = shown();
    state.surface_configure();
    assert_eq!(state.pending_render, Some((800, 600)));
    state.toplevel_configure(1024, 768);
    assert_eq!(state.pending_render, Some((800, 600)));
    state.surface_configure();
    assert_eq!(state.pending_render, Some((1024, 768)));
    state.toplevel_configure(0, 768);
    state.toplevel_configure(1024, 0);
    state.toplevel_configure(0, 0);
    assert_eq!(state.size, (1024, 768));
}

#[test]
fn closing_the_window_ends_the_loop() {
    let mut state = shown();
    state.toplevel_close();
    assert!(!state.running);
}

#[test]
fn the_main_device_is_little_endian() {
    let mut state = WaylandState::with_byte_order(ByteOrder::Big);
    state.feedback_main_device(&[0x80, 0xe2, 0, 0, 0, 0, 0, 0]);
    assert_eq!(state.main_device(), Some(0xe280));
    state.feedback_main_device(&[1, 2]);
    assert_eq!(state.main_device(), Some(0x0201));
    state.feedback_main_device(&[1, 0, 0, 0, 0, 0, 0, 0x80, 0xff]);
    assert_eq!(state.main_device(), Some(0x8000_0000_0000_0001));
    state.feedback_main_device(&[]);
    assert_eq!(state.main_device(), Some(0));
}

/// What the compositor shares in memory is in the byte order of the machine.
#[test]
fn tranches_are_read_from_the_table_in_native_order() {
    let mut bytes = Vec::new();
    for (format, modifier) in [(XRGB, 0u64), (XRGB, 0x0100_0000_0000_0002)] {
        bytes.extend(format.to_ne_bytes());
        bytes.extend([0u8; 4]);
        bytes.extend(modifier.to_ne_bytes());
    }
    let mut indices = Vec::new();
    for index in [1u16, 0, 2] {
        indices.extend(index.to_ne_bytes());
    }
    let mut state = WaylandState::new();
    // Without a table there is nothing to announce.
    state.feedback_tranche_formats(&indices);
    assert_eq!(state.advertised_formats(), vec![]);
    state.feedback_format_table(Some(&bytes));
    state.feedback_tranche_formats(&indices);
    assert_eq!(
        state.advertised_formats(),
        vec![(XRGB, vec![0x0100_0000_0000_0002, 0])]
    );
}

#[test]
fn a_table_that_does_not_map_replaces_the_old_one() {
    let mut state = WaylandState::with_byte_order(ByteOrder::Little);
    state.feedback_format_table(Some(&[0; 16]));
    assert!(state.format_table.is_some());
    state.feedback_format_table(Some(&[0; 15]));
    assert!(state.format_table.is_none());
    state.feedback_format_table(Some(&[0; 32]));
    assert!(state.format_table.is_some());
    state.feedback_format_table(None);
    assert!(state.format_table.is_none());
}
