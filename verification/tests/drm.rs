use std::cell::Cell;

use wayvek::drm::{
    open_render_node, wait_deadline, DrmSyncobj, DrmSyncobjCreate, DrmSyncobjDestroy, DrmSyncobjHandle,
    DrmSyncobjTimelineWait, DrmSyncobjTransfer, SyncFileImport, SyncobjRequest, TimelinePoints,
    ETIME, WAIT_RELEASE_TIMEOUT_NS,
};
use wayvek::error::{Errno, IoError};
use wayvek::WayvekError;

fn timeline(handle: u32) -> DrmSyncobj {
    DrmSyncobj::create(|request| Ok(DrmSyncobjCreate { handle, ..request })).unwrap()
}

#[test]
fn creating_a_timeline_keeps_the_kernels_handle() {
    let asked = Cell::new(None);
    let made = DrmSyncobj::create(|request| {
        asked.set(Some(request));
        Ok(DrmSyncobjCreate { handle: 7, flags: 0 })
    })
    .unwrap();
    assert_eq!(asked.get(), Some(DrmSyncobjCreate { handle: 0, flags: 0 }));
    assert_eq!(made.destroy(), DrmSyncobjDestroy { handle: 7, pad: 0 });
}

#[test]
fn a_refused_creation_is_an_io_error() {
    let refused = DrmSyncobj::create(|_| Err(Errno(13)));
    assert_eq!(refused, Err(WayvekError::Io(IoError::Os(13))));
}

#[test]
fn exporting_asks_for_the_timeline() {
    let exported = timeline(7).export_fd(|request| {
        assert_eq!(
            request,
            DrmSyncobjHandle {
                handle: 7,
                flags: 2,
                fd: -1,
                pad: 0,
                point: 0
            }
        );
        Ok(DrmSyncobjHandle { fd: 5, ..request })
    });
    assert_eq!(exported, Ok(5));
}

#[test]
fn an_export_can_fail_in_two_ways() {
    let refused = timeline(7).export_fd(|_| Err(Errno(22)));
    assert_eq!(refused, Err(WayvekError::Io(IoError::Os(22))));
    let nothing = timeline(7).export_fd(Ok);
    assert_eq!(
        nothing,
        Err(WayvekError::Io(IoError::Other(
            "syncobj HANDLE_TO_FD returned no fd".to_string()
        )))
    );
    let zero = timeline(7).export_fd(|request| Ok(DrmSyncobjHandle { fd: 0, ..request }));
    assert_eq!(zero, Ok(0));
}

#[test]
fn waiting_names_one_point_of_one_timeline() {
    let waited = timeline(7).wait_available(12, WAIT_RELEASE_TIMEOUT_NS, |request| {
        assert_eq!(
            request,
            DrmSyncobjTimelineWait {
                handle: 7,
                point: 12,
                timeout_nsec: 10_000_000_000,
                count_handles: 1,
                flags: 2,
                first_signaled: 0,
                pad: 0,
                deadline_nsec: 0
            }
        );
        Ok(())
    });
    assert_eq!(waited, Ok(()));
    let late = timeline(7).wait_available(12, 0, |_| Err(Errno(ETIME)));
    assert_eq!(late, Err(WayvekError::Io(IoError::Os(62))));
}

#[test]
fn a_wait_is_given_up_when_its_time_has_passed() {
    assert_eq!(wait_deadline(5, WAIT_RELEASE_TIMEOUT_NS), 10_000_000_005);
    assert_eq!(wait_deadline(0, 0), 0);
    assert_eq!(wait_deadline(i64::MAX - 1, 1), i64::MAX);
    assert_eq!(wait_deadline(i64::MAX, WAIT_RELEASE_TIMEOUT_NS), i64::MAX);
    assert_eq!(wait_deadline(i64::MAX, i64::MAX), i64::MAX);
}

#[test]
fn a_sync_file_goes_onto_the_timeline_through_a_temporary() {
    let mut points = TimelinePoints::new();
    let import = timeline(7).import_sync_file(&mut points, 30);
    assert_eq!(
        import.request(),
        Some(SyncobjRequest::Create(DrmSyncobjCreate {
            handle: 0,
            flags: 0
        }))
    );
    let import = import.step(Ok(9));
    assert_eq!(
        import.request(),
        Some(SyncobjRequest::FdToHandle(DrmSyncobjHandle {
            handle: 9,
            flags: 1,
            fd: 30,
            pad: 0,
            point: 0
        }))
    );
    let import = import.step(Ok(9));
    assert_eq!(
        import.request(),
        Some(SyncobjRequest::Transfer(DrmSyncobjTransfer {
            src_handle: 9,
            dst_handle: 7,
            src_point: 0,
            dst_point: 1,
            flags: 0,
            pad: 0
        }))
    );
    let import = import.step(Ok(0));
    assert_eq!(
        import.request(),
        Some(SyncobjRequest::Destroy(DrmSyncobjDestroy {
            handle: 9,
            pad: 0
        }))
    );
    // The cleanup is best-effort.
    let import = import.step(Err(Errno(22)));
    assert_eq!(import.request(), None);
    assert_eq!(import.finish(), Ok(Ok(1)));
}

#[test]
fn a_refusal_ends_an_import_at_each_of_its_requests() {
    let mut points = TimelinePoints::new();
    for granted in 0..3 {
        let mut import = timeline(7).import_sync_file(&mut points, 30);
        for _ in 0..granted {
            import = import.step(Ok(9));
        }
        let import = import.step(Err(Errno(granted + 1)));
        assert_eq!(import.request(), None);
        // Nothing moves a failed import.
        let import = import.step(Ok(1));
        assert_eq!(
            import.finish(),
            Ok(Err(WayvekError::Io(IoError::Os(granted + 1))))
        );
    }
}

#[test]
fn an_import_under_way_is_given_back() {
    let mut points = TimelinePoints::new();
    let import = timeline(7).import_sync_file(&mut points, 30);
    assert_eq!(
        import.finish(),
        Err(SyncFileImport::Create {
            timeline: 7,
            fd: 30,
            point: 1
        })
    );
}

#[test]
fn acquire_points_are_the_odd_numbers_in_turn() {
    let mut points = TimelinePoints::new();
    let first: Vec<u64> = (0..4).map(|_| points.next_point()).collect();
    assert_eq!(first, vec![1, 3, 5, 7]);
    let import = timeline(2).import_sync_file(&mut points, 0);
    assert_eq!(
        import,
        SyncFileImport::Create {
            timeline: 2,
            fd: 0,
            point: 9
        }
    );
    assert_eq!(points.next_point(), 11);
}

#[test]
fn the_render_node_is_found_by_its_minor_number() {
    // 226:128, as Linux packs it.
    let opened = open_render_node(0xe280, |path| {
        assert_eq!(path, "/dev/dri/renderD128");
        Ok(3)
    });
    assert_eq!(opened, Ok(3));
    // A minor number that does not fit into one byte.
    let dev = rustix::fs::makedev(226, 70_000);
    let opened = open_render_node(dev, |path| {
        assert_eq!(path, "/dev/dri/renderD70000");
        Ok(())
    });
    assert_eq!(opened, Ok(()));
}

#[test]
fn a_render_node_that_does_not_open_is_an_io_error() {
    let missing = open_render_node::<(), _>(0xe280, |_| Err(Errno(2)));
    assert_eq!(missing, Err(WayvekError::Io(IoError::Os(2))));
}
