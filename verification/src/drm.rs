//! DRM syncobj timeline primitives.
//!
//! The compositor (via wp_linux_drm_syncobj_manager_v1) imports a client's DRM
//! syncobj timeline; the client attaches its rendering-completion sync-file onto
//! a timeline point, then tells the compositor the (acquire, release) points via
//! set_acquire_point/set_release_point at commit time.
//!
//! Nothing here talks to the kernel: the requests are built and the replies are
//! interpreted here, and the caller runs the ioctls.

use vstd::prelude::*;

use crate::error::{Errno, IoError, Result, WayvekError};
use crate::text::{append_decimal, decimal, law_decimal_reads_back, reads_as};

verus! {

/// Import a sync-file into an existing syncobj.
pub const DRM_SYNCOBJ_FD_TO_HANDLE_FLAGS_IMPORT_SYNC_FILE: u32 = 1;

/// Export the timeline of a syncobj.
pub const DRM_SYNCOBJ_HANDLE_TO_FD_FLAGS_TIMELINE: u32 = 2;

/// Wait until the point is signalled, also where nothing is attached to it yet.
pub const DRM_SYNCOBJ_WAIT_FLAGS_WAIT_FOR_SUBMIT: u32 = 2;

/// The group of the DRM ioctls.
pub const DRM_IOCTL_BASE: u8 = 0x64;

/// The number of the ioctl that takes a [`DrmSyncobjCreate`].
pub const DRM_IOCTL_SYNCOBJ_CREATE: u8 = 0xBF;

/// The number of the ioctl that takes a [`DrmSyncobjDestroy`].
pub const DRM_IOCTL_SYNCOBJ_DESTROY: u8 = 0xC0;

/// The number of the ioctl that takes a [`DrmSyncobjHandle`] and exports it.
pub const DRM_IOCTL_SYNCOBJ_HANDLE_TO_FD: u8 = 0xC1;

/// The number of the ioctl that takes a [`DrmSyncobjHandle`] and imports it.
pub const DRM_IOCTL_SYNCOBJ_FD_TO_HANDLE: u8 = 0xC2;

/// The number of the ioctl that takes a [`DrmSyncobjTimelineWait`].
pub const DRM_IOCTL_SYNCOBJ_TIMELINE_WAIT: u8 = 0xCA;

/// The number of the ioctl that takes a [`DrmSyncobjTransfer`].
pub const DRM_IOCTL_SYNCOBJ_TRANSFER: u8 = 0xCC;

/// How long to wait for the compositor to release a buffer (10s) before giving
/// up and reusing it anyway.
pub const WAIT_RELEASE_TIMEOUT_NS: i64 = 10_000_000_000;

/// The error number of a wait whose time ran out.
pub const ETIME: i32 = 62;

/// Creates a syncobj; the kernel fills in the handle.
#[derive(Clone, Copy, Debug, PartialEq, Eq)]
pub struct DrmSyncobjCreate {
    pub handle: u32,
    pub flags: u32,
}

/// Destroys a syncobj.
#[derive(Clone, Copy, Debug, PartialEq, Eq)]
pub struct DrmSyncobjDestroy {
    pub handle: u32,
    pub pad: u32,
}

/// Exports a syncobj to a file descriptor, or imports one.
#[derive(Clone, Copy, Debug, PartialEq, Eq)]
pub struct DrmSyncobjHandle {
    pub handle: u32,
    pub flags: u32,
    pub fd: i32,
    pub pad: u32,
    pub point: u64,
}

/// Copies a fence from a point of one syncobj to a point of another.
#[derive(Clone, Copy, Debug, PartialEq, Eq)]
pub struct DrmSyncobjTransfer {
    pub src_handle: u32,
    pub dst_handle: u32,
    pub src_point: u64,
    pub dst_point: u64,
    pub flags: u32,
    pub pad: u32,
}

/// Waits for one point of one timeline. The kernel takes arrays of handles and
/// points, by address; here stand the single elements of the two.
#[derive(Clone, Copy, Debug, PartialEq, Eq)]
pub struct DrmSyncobjTimelineWait {
    pub handle: u32,
    pub point: u64,
    pub timeout_nsec: i64,
    pub count_handles: u32,
    pub flags: u32,
    pub first_signaled: u32,
    pub pad: u32,
    pub deadline_nsec: u64,
}

/// A request to the kernel.
#[derive(Clone, Copy, Debug, PartialEq, Eq)]
pub enum SyncobjRequest {
    Create(DrmSyncobjCreate),
    Destroy(DrmSyncobjDestroy),
    FdToHandle(DrmSyncobjHandle),
    Transfer(DrmSyncobjTransfer),
}

/// What comes back of a request: the handle that the kernel left in it (zero if
/// it holds none), or why it was refused.
pub type SyncobjReply = core::result::Result<u32, Errno>;

/// The error of a refused request.
pub open spec fn refused(err: Errno) -> WayvekError {
    WayvekError::Io(IoError::Os(err.0))
}

/// A DRM syncobj *timeline* created on the render node and shared with the
/// compositor, by its handle. Stateless w.r.t. point tracking: the swapchain
/// tracks the release point of each buffer.
#[derive(Debug, PartialEq, Eq)]
pub struct DrmSyncobj {
    handle: u32,
}

impl View for DrmSyncobj {
    type V = u32;

    closed spec fn view(&self) -> u32 {
        self.handle
    }
}

/// The request for a new syncobj.
pub open spec fn create_request() -> DrmSyncobjCreate {
    DrmSyncobjCreate { handle: 0, flags: 0 }
}

/// The request for a descriptor of the timeline `handle`.
pub open spec fn export_request(handle: u32) -> DrmSyncobjHandle {
    DrmSyncobjHandle {
        handle,
        flags: DRM_SYNCOBJ_HANDLE_TO_FD_FLAGS_TIMELINE,
        fd: (-1) as i32,
        pad: 0,
        point: 0,
    }
}

/// The request to wait until `point` of the timeline `handle` is signalled, or
/// until the monotonic clock shows `timeout_nsec`.
pub open spec fn wait_request(handle: u32, point: u64, timeout_nsec: i64) -> DrmSyncobjTimelineWait {
    DrmSyncobjTimelineWait {
        handle,
        point,
        timeout_nsec,
        count_handles: 1,
        flags: DRM_SYNCOBJ_WAIT_FLAGS_WAIT_FOR_SUBMIT,
        first_signaled: 0,
        pad: 0,
        deadline_nsec: 0,
    }
}

/// The request to destroy the syncobj `handle`.
pub open spec fn destroy_request(handle: u32) -> DrmSyncobjDestroy {
    DrmSyncobjDestroy { handle, pad: 0 }
}

/// The request to import the sync-file `fd` into the syncobj `handle`.
pub open spec fn import_request(handle: u32, fd: i32) -> DrmSyncobjHandle {
    DrmSyncobjHandle {
        handle,
        flags: DRM_SYNCOBJ_FD_TO_HANDLE_FLAGS_IMPORT_SYNC_FILE,
        fd,
        pad: 0,
        point: 0,
    }
}

/// The request to move the fence of the syncobj `temp` onto `point` of the
/// timeline `handle`.
pub open spec fn transfer_request(temp: u32, handle: u32, point: u64) -> DrmSyncobjTransfer {
    DrmSyncobjTransfer {
        src_handle: temp,
        dst_handle: handle,
        src_point: 0,
        dst_point: point,
        flags: 0,
        pad: 0,
    }
}

impl DrmSyncobj {
    /// Create a timeline. `ioctl` runs DRM_IOCTL_SYNCOBJ_CREATE.
    pub fn create<F>(ioctl: F) -> (res: Result<Self>) where
        F: FnOnce(DrmSyncobjCreate) -> core::result::Result<DrmSyncobjCreate, Errno>,

        requires
            call_requires(ioctl, (create_request(),)),
        ensures
            exists|reply: core::result::Result<DrmSyncobjCreate, Errno>|
                {
                    &&& #[trigger] call_ensures(ioctl, (create_request(),), reply)
                    &&& match reply {
                        Ok(created) => res matches Ok(timeline) && timeline@ == created.handle,
                        Err(err) => res matches Err(e) && e == refused(err),
                    }
                },
    {
        match ioctl(DrmSyncobjCreate { handle: 0, flags: 0 }) {
            Ok(created) => Ok(DrmSyncobj { handle: created.handle }),
            Err(err) => Err(WayvekError::from(err)),
        }
    }

    /// Export an fd for `wp_linux_drm_syncobj_manager_v1.import_timeline`.
    /// The returned fd is a dup; the caller (or libwayland) owns it. `ioctl`
    /// runs DRM_IOCTL_SYNCOBJ_HANDLE_TO_FD.
    pub fn export_fd<F>(&self, ioctl: F) -> (res: Result<i32>) where
        F: FnOnce(DrmSyncobjHandle) -> core::result::Result<DrmSyncobjHandle, Errno>,

        requires
            call_requires(ioctl, (export_request(self@),)),
        ensures
            exists|reply: core::result::Result<DrmSyncobjHandle, Errno>|
                {
                    &&& #[trigger] call_ensures(ioctl, (export_request(self@),), reply)
                    &&& match reply {
                        Ok(exported) => if exported.fd >= 0 {
                            res == Ok::<i32, WayvekError>(exported.fd)
                        } else {
                            &&& res matches Err(WayvekError::Io(IoError::Other(text)))
                            &&& text@ == "syncobj HANDLE_TO_FD returned no fd"@
                        },
                        Err(err) => res == Err::<i32, WayvekError>(refused(err)),
                    }
                },
    {
        let request = DrmSyncobjHandle {
            handle: self.handle,
            flags: DRM_SYNCOBJ_HANDLE_TO_FD_FLAGS_TIMELINE,
            fd: -1,
            pad: 0,
            point: 0,
        };
        match ioctl(request) {
            Ok(exported) => {
                if exported.fd < 0 {
                    return Err(
                        WayvekError::Io(
                            IoError::Other("syncobj HANDLE_TO_FD returned no fd".to_owned()),
                        ),
                    );
                }
                Ok(exported.fd)
            },
            Err(err) => Err(WayvekError::from(err)),
        }
    }

    /// Block until the compositor has signalled the given point, i.e. it no
    /// longer needs the buffer we handed it. Returns immediately if the point
    /// is already signalled. `ioctl` runs DRM_IOCTL_SYNCOBJ_TIMELINE_WAIT.
    ///
    /// `timeout_nsec` is a deadline: the time of the monotonic clock, in
    /// nanoseconds, at which the wait is given up. [`wait_deadline`] makes one
    /// from how long to wait.
    pub fn wait_available<F>(&self, point: u64, timeout_nsec: i64, ioctl: F) -> (res: Result<
        (),
    >) where F: FnOnce(DrmSyncobjTimelineWait) -> core::result::Result<(), Errno>

        requires
            call_requires(ioctl, (wait_request(self@, point, timeout_nsec),)),
        ensures
            exists|reply: core::result::Result<(), Errno>|
                {
                    &&& #[trigger] call_ensures(
                        ioctl,
                        (wait_request(self@, point, timeout_nsec),),
                        reply,
                    )
                    &&& match reply {
                        Ok(_) => res == Ok::<(), WayvekError>(()),
                        Err(err) => res == Err::<(), WayvekError>(refused(err)),
                    }
                },
    {
        let request = DrmSyncobjTimelineWait {
            handle: self.handle,
            point,
            timeout_nsec,
            count_handles: 1,
            flags: DRM_SYNCOBJ_WAIT_FLAGS_WAIT_FOR_SUBMIT,
            first_signaled: 0,
            pad: 0,
            deadline_nsec: 0,
        };
        match ioctl(request) {
            Ok(_) => Ok(()),
            Err(err) => Err(WayvekError::from(err)),
        }
    }

    /// Import a sync-file fd (the Vulkan fence) into a temporary syncobj and
    /// transfer its fence onto our timeline at the next point. The work starts
    /// here; [`SyncFileImport`] says which requests it takes and which acquire
    /// point comes of it.
    pub fn import_sync_file(&self, points: &mut TimelinePoints, syncfile_fd: i32) -> (import:
        SyncFileImport)
        ensures
            final(points)@ == following_point(old(points)@),
            import == (SyncFileImport::Create {
                timeline: self@,
                fd: syncfile_fd,
                point: old(points)@,
            }),
    {
        let point: u64 = points.next_point();
        SyncFileImport::Create { timeline: self.handle, fd: syncfile_fd, point }
    }

    /// The request that destroys the timeline when it is no longer used.
    pub fn destroy(&self) -> (request: DrmSyncobjDestroy)
        ensures
            request == destroy_request(self@),
    {
        DrmSyncobjDestroy { handle: self.handle, pad: 0 }
    }
}

/// When a wait that starts now and takes `timeout_nsec` at most is given up: the
/// times are nanoseconds of the monotonic clock, and the last one stands for all
/// that are beyond it.
pub fn wait_deadline(now_nsec: i64, timeout_nsec: i64) -> (deadline: i64)
    requires
        0 <= now_nsec,
        0 <= timeout_nsec,
    ensures
        deadline == (if now_nsec + timeout_nsec > i64::MAX {
            i64::MAX as int
        } else {
            now_nsec + timeout_nsec
        }),
{
    if now_nsec > i64::MAX - timeout_nsec {
        i64::MAX
    } else {
        now_nsec + timeout_nsec
    }
}

/// A sync-file on its way onto the timeline.
#[derive(Debug, PartialEq, Eq)]
pub enum SyncFileImport {
    /// Create a throwaway binary syncobj to receive the sync-file.
    Create { timeline: u32, fd: i32, point: u64 },
    /// Import the sync-file into that existing temp syncobj.
    Import { timeline: u32, fd: i32, point: u64, temp: u32 },
    /// Transfer that syncobj's fence onto the timeline at the acquire point.
    Transfer { timeline: u32, point: u64, temp: u32 },
    /// Best-effort cleanup of the temp handle after the transfer.
    Destroy { point: u64, temp: u32 },
    /// The fence is on the timeline, at this acquire point.
    Finished { point: u64 },
    /// The kernel refused a request.
    Failed { error: WayvekError },
}

impl SyncFileImport {
    /// The request to make next; `None` once the import has finished or failed.
    pub open spec fn wanted(self) -> Option<SyncobjRequest> {
        match self {
            SyncFileImport::Create { .. } => Some(SyncobjRequest::Create(create_request())),
            SyncFileImport::Import { timeline: _, fd, point: _, temp } => Some(
                SyncobjRequest::FdToHandle(import_request(temp, fd)),
            ),
            SyncFileImport::Transfer { timeline, point, temp } => Some(
                SyncobjRequest::Transfer(transfer_request(temp, timeline, point)),
            ),
            SyncFileImport::Destroy { point: _, temp } => Some(
                SyncobjRequest::Destroy(destroy_request(temp)),
            ),
            SyncFileImport::Finished { .. } => None,
            SyncFileImport::Failed { .. } => None,
        }
    }

    /// The import after `reply` has come back of its next request. A refusal
    /// ends it, except that a refused cleanup does not matter.
    pub open spec fn after(self, reply: SyncobjReply) -> Self {
        match (self, reply) {
            (SyncFileImport::Create { timeline, fd, point }, Ok(temp)) => SyncFileImport::Import {
                timeline,
                fd,
                point,
                temp,
            },
            (
                SyncFileImport::Import { timeline, fd: _, point, temp },
                Ok(_),
            ) => SyncFileImport::Transfer { timeline, point, temp },
            (
                SyncFileImport::Transfer { timeline: _, point, temp },
                Ok(_),
            ) => SyncFileImport::Destroy { point, temp },
            (SyncFileImport::Destroy { point, temp: _ }, _) => SyncFileImport::Finished { point },
            (SyncFileImport::Finished { .. }, _) => self,
            (SyncFileImport::Failed { .. }, _) => self,
            (_, Err(err)) => SyncFileImport::Failed { error: refused(err) },
        }
    }

    /// The request to make next; `None` once the import has finished or failed.
    pub fn request(&self) -> (request: Option<SyncobjRequest>)
        ensures
            request == self.wanted(),
    {
        match self {
            SyncFileImport::Create { .. } => Some(
                SyncobjRequest::Create(DrmSyncobjCreate { handle: 0, flags: 0 }),
            ),
            SyncFileImport::Import { timeline: _, fd, point: _, temp } => Some(
                SyncobjRequest::FdToHandle(
                    DrmSyncobjHandle {
                        handle: *temp,
                        flags: DRM_SYNCOBJ_FD_TO_HANDLE_FLAGS_IMPORT_SYNC_FILE,
                        fd: *fd,
                        pad: 0,
                        point: 0,
                    },
                ),
            ),
            SyncFileImport::Transfer { timeline, point, temp } => Some(
                SyncobjRequest::Transfer(
                    DrmSyncobjTransfer {
                        src_handle: *temp,
                        dst_handle: *timeline,
                        src_point: 0,
                        dst_point: *point,
                        flags: 0,
                        pad: 0,
                    },
                ),
            ),
            SyncFileImport::Destroy { point: _, temp } => Some(
                SyncobjRequest::Destroy(DrmSyncobjDestroy { handle: *temp, pad: 0 }),
            ),
            SyncFileImport::Finished { .. } => None,
            SyncFileImport::Failed { .. } => None,
        }
    }

    /// Move the import on: `reply` is what came back of its next request.
    pub fn step(self, reply: SyncobjReply) -> (next: Self)
        ensures
            next == self.after(reply),
    {
        match (self, reply) {
            (SyncFileImport::Create { timeline, fd, point }, Ok(temp)) => SyncFileImport::Import {
                timeline,
                fd,
                point,
                temp,
            },
            (
                SyncFileImport::Import { timeline, fd: _, point, temp },
                Ok(_),
            ) => SyncFileImport::Transfer { timeline, point, temp },
            (
                SyncFileImport::Transfer { timeline: _, point, temp },
                Ok(_),
            ) => SyncFileImport::Destroy { point, temp },
            (SyncFileImport::Destroy { point, temp: _ }, _) => SyncFileImport::Finished { point },
            (SyncFileImport::Finished { point }, _) => SyncFileImport::Finished { point },
            (SyncFileImport::Failed { error }, _) => SyncFileImport::Failed { error },
            (_, Err(err)) => SyncFileImport::Failed { error: WayvekError::from(err) },
        }
    }

    /// The result of an import that needs no more requests: the acquire point,
    /// or why there is none. An import that is still under way is given back.
    pub fn finish(self) -> (res: core::result::Result<Result<u64>, SyncFileImport>)
        ensures
            match self {
                SyncFileImport::Finished { point } => res == Ok::<Result<u64>, SyncFileImport>(
                    Ok(point),
                ),
                SyncFileImport::Failed { error } => res == Ok::<Result<u64>, SyncFileImport>(
                    Err(error),
                ),
                _ => res == Err::<Result<u64>, SyncFileImport>(self),
            },
    {
        match self {
            SyncFileImport::Finished { point } => Ok(Ok(point)),
            SyncFileImport::Failed { error } => Ok(Err(error)),
            import => Err(import),
        }
    }
}

/// The point that is handed out after `point`. The numbers wrap around.
pub open spec fn following_point(point: u64) -> u64 {
    if point + 2 > u64::MAX {
        (point + 2 - u64::MAX - 1) as u64
    } else {
        (point + 2) as u64
    }
}

/// The points of a timeline, handed out one after the other for the acquire
/// points of its frames.
#[derive(Debug, PartialEq, Eq)]
pub struct TimelinePoints {
    next: u64,
}

impl View for TimelinePoints {
    type V = u64;

    /// The point that is handed out next.
    closed spec fn view(&self) -> u64 {
        self.next
    }
}

impl TimelinePoints {
    pub fn new() -> (points: Self)
        ensures
            points@ == 1,
    {
        TimelinePoints { next: 1 }
    }

    /// Return the next timeline point to use.
    pub fn next_point(&mut self) -> (point: u64)
        ensures
            point == old(self)@,
            final(self)@ == following_point(old(self)@),
    {
        let point: u64 = self.next;
        self.next = point.wrapping_add(2);
        point
    }
}

/// The major number of a device id, as Linux packs it.
pub open spec fn dev_major(dev: u64) -> u32 {
    (((dev >> 32) & 0xffff_f000) | ((dev >> 8) & 0x0000_0fff)) as u32
}

/// The minor number of a device id, as Linux packs it.
pub open spec fn dev_minor(dev: u64) -> u32 {
    (((dev >> 12) & 0xffff_ff00) | (dev & 0x0000_00ff)) as u32
}

/// Calls `rustix::fs::major`. Trusted: it takes the major number out of `dev`
/// as Linux packs it.
#[verifier::external_body]
pub(crate) fn device_major(dev: u64) -> (major: u32)
    ensures
        major == dev_major(dev),
{
    rustix::fs::major(dev)
}

/// Calls `rustix::fs::minor`. Trusted: it takes the minor number out of `dev`
/// as Linux packs it.
#[verifier::external_body]
pub(crate) fn device_minor(dev: u64) -> (minor: u32)
    ensures
        minor == dev_minor(dev),
{
    rustix::fs::minor(dev)
}

/// Where the render node of a device is found.
pub open spec fn render_node_path(dev: u64) -> Seq<char> {
    "/dev/dri/renderD"@ + decimal(dev_minor(dev) as nat)
}

/// Open the DRM render node `/dev/dri/renderD<minor>` for the given dev_t, so
/// we can drive syncobj ioctls on the same GPU as the Vulkan device. `open`
/// opens a path for reading and writing.
pub fn open_render_node<T, F>(dev: u64, open: F) -> (res: Result<T>) where
    F: FnOnce(String) -> core::result::Result<T, Errno>,

    requires
        forall|path: String|
            path@ == render_node_path(dev) ==> #[trigger] call_requires(open, (path,)),
    ensures
        exists|path: String, opened: core::result::Result<T, Errno>|
            {
                &&& #[trigger] call_ensures(open, (path,), opened)
                &&& path@ == render_node_path(dev)
                &&& match opened {
                    Ok(file) => res == Ok::<T, WayvekError>(file),
                    Err(err) => res == Err::<T, WayvekError>(refused(err)),
                }
            },
{
    let mut path = "/dev/dri/renderD".to_owned();
    append_decimal(&mut path, device_minor(dev));
    match open(path) {
        Ok(file) => Ok(file),
        Err(err) => Err(WayvekError::from(err)),
    }
}

/// The point that is handed out after `n` others.
pub open spec fn nth_point(n: nat) -> u64
    decreases n,
{
    if n == 0 {
        1
    } else {
        following_point(nth_point((n - 1) as nat))
    }
}

proof fn lemma_nth_point(n: nat)
    ensures
        nth_point(n) as int == (1 + 2 * n as int) % 0x1_0000_0000_0000_0000int,
    decreases n,
{
    if n > 0 {
        lemma_nth_point((n - 1) as nat);
    }
}

/// Acquire points are odd: every second number is left for the release point
/// that follows an acquire point.
pub proof fn law_acquire_points_are_odd(n: nat)
    ensures
        nth_point(n) % 2 == 1,
{
    lemma_nth_point(n);
}

/// No point is handed out twice as long as the numbers have not all been used.
pub proof fn law_points_are_distinct(n: nat, m: nat)
    requires
        n < m < n + 0x8000_0000_0000_0000,
    ensures
        nth_point(n) != nth_point(m),
{
    lemma_nth_point(n);
    lemma_nth_point(m);
}

/// Points increase until the numbers run out.
pub proof fn law_points_increase(n: nat, m: nat)
    requires
        n < m < 0x8000_0000_0000_0000,
    ensures
        nth_point(n) < nth_point(m),
{
    lemma_nth_point(n);
    lemma_nth_point(m);
}

/// The acquire point of a frame is one above the release point of the frame
/// before it, until the numbers run out.
pub proof fn law_acquire_follows_the_last_release(n: nat)
    requires
        n + 1 < 0x8000_0000_0000_0000,
    ensures
        ({
            let release_point = nth_point(n) + 1;
            nth_point(n + 1) == release_point + 1
        }),
{
    lemma_nth_point(n);
    lemma_nth_point(n + 1);
}

/// The release point of a frame, one above its acquire point, is never the
/// acquire point of any frame.
pub proof fn law_release_points_are_not_acquire_points(n: nat, m: nat)
    ensures
        nth_point(n) + 1 != nth_point(m),
{
    law_acquire_points_are_odd(n);
    law_acquire_points_are_odd(m);
}

/// The requests of an import that nothing refuses are: create a temporary
/// syncobj, import the sync-file into it, transfer its fence onto the timeline
/// at the acquire point, destroy the temporary syncobj. The acquire point comes
/// of it whatever the last of them is answered.
pub proof fn law_import_goes_through_a_temporary(
    timeline: u32,
    fd: i32,
    point: u64,
    temp: u32,
    imported: u32,
    transferred: u32,
    destroyed: SyncobjReply,
)
    ensures
        ({
            let s0 = SyncFileImport::Create { timeline, fd, point };
            let s1 = s0.after(Ok(temp));
            let s2 = s1.after(Ok(imported));
            let s3 = s2.after(Ok(transferred));
            let s4 = s3.after(destroyed);
            &&& s0.wanted() == Some(SyncobjRequest::Create(create_request()))
            &&& s1.wanted() == Some(SyncobjRequest::FdToHandle(import_request(temp, fd)))
            &&& s2.wanted() == Some(
                SyncobjRequest::Transfer(transfer_request(temp, timeline, point)),
            )
            &&& s3.wanted() == Some(SyncobjRequest::Destroy(destroy_request(temp)))
            &&& s4.wanted() is None
            &&& s4 == SyncFileImport::Finished { point }
        }),
{
}

/// A refused request other than the cleanup ends the import with its error, and
/// no other request follows.
pub proof fn law_refusal_ends_the_import(import: SyncFileImport, err: Errno)
    requires
        import.wanted() matches Some(request) && !(request is Destroy),
    ensures
        import.after(Err(err)) == (SyncFileImport::Failed { error: refused(err) }),
        import.after(Err(err)).wanted() is None,
{
}

/// The request of an import with a temporary syncobj and a fence to move names the
/// temporary as the source, at its binary point zero, and the timeline as the
/// destination, at the acquire point of the import, whatever they are.
pub proof fn law_transfer_goes_to_the_acquire_point(timeline: u32, point: u64, temp: u32)
    ensures
        (SyncFileImport::Transfer { timeline, point, temp }).wanted() matches Some(
            SyncobjRequest::Transfer(t),
        ) && t.src_handle == temp && t.dst_handle == timeline && t.src_point == 0 && t.dst_point
            == point && t.flags == 0 && t.pad == 0,
{
}

/// The acquire point that an import reports is the point that its fence was moved
/// to: whatever the replies were, an import that has finished after four requests
/// made a transfer as its third, onto its own timeline, out of the syncobj that was
/// created first and that the sync-file was imported into, to the reported point;
/// and its last request destroyed that syncobj.
pub proof fn law_reported_point_holds_the_fence(
    timeline: u32,
    fd: i32,
    point: u64,
    r1: SyncobjReply,
    r2: SyncobjReply,
    r3: SyncobjReply,
    r4: SyncobjReply,
)
    ensures
        ({
            let s0 = SyncFileImport::Create { timeline, fd, point };
            let s1 = s0.after(r1);
            let s2 = s1.after(r2);
            let s3 = s2.after(r3);
            let s4 = s3.after(r4);
            &&& s4 is Finished || s4 is Failed
            &&& s4 is Finished <==> r1 is Ok && r2 is Ok && r3 is Ok
            &&& s4 matches SyncFileImport::Finished { point: reported } ==> {
                &&& reported == point
                &&& s0.wanted() matches Some(SyncobjRequest::Create(c))
                &&& c.handle == 0 && c.flags == 0
                &&& s1.wanted() matches Some(SyncobjRequest::FdToHandle(h))
                &&& h.handle == r1->Ok_0 && h.fd == fd && h.flags == 1 && h.point == 0 && h.pad == 0
                &&& s2.wanted() matches Some(SyncobjRequest::Transfer(t))
                &&& t.dst_point == reported && t.dst_handle == timeline
                &&& t.src_handle == r1->Ok_0 && t.src_point == 0
                &&& s3.wanted() matches Some(SyncobjRequest::Destroy(d))
                &&& d.handle == r1->Ok_0 && d.pad == 0
            }
        }),
{
}

/// The first refusal is the error that an import reports, with its own number; a
/// refused cleanup is none.
pub proof fn law_first_refusal_is_reported(
    timeline: u32,
    fd: i32,
    point: u64,
    r1: SyncobjReply,
    r2: SyncobjReply,
    r3: SyncobjReply,
    r4: SyncobjReply,
    number: i32,
)
    ensures
        ({
            let s0 = SyncFileImport::Create { timeline, fd, point };
            let s4 = s0.after(r1).after(r2).after(r3).after(r4);
            s4 == (SyncFileImport::Failed { error: WayvekError::Io(IoError::Os(number)) }) <==> (
            r1 matches Err(e) && e.0 == number) || (r1 is Ok && (r2 matches Err(e) && e.0
                == number)) || (r1 is Ok && r2 is Ok && (r3 matches Err(e) && e.0 == number))
        }),
{
}

/// An import that has come to an end stays as it is.
pub proof fn law_ended_import_stays(point: u64, error: WayvekError, reply: SyncobjReply)
    ensures
        (SyncFileImport::Finished { point }).after(reply) == (SyncFileImport::Finished { point }),
        (SyncFileImport::Failed { error }).after(reply) == (SyncFileImport::Failed { error }),
        (SyncFileImport::Finished { point }).wanted() is None,
        (SyncFileImport::Failed { error }).wanted() is None,
{
}

/// What the requests of a timeline hold, field by field: they name the timeline
/// and the point that they are about, and ask for what they are meant to.
pub proof fn law_requests_name_their_timeline(
    handle: u32,
    point: u64,
    timeout_nsec: i64,
    err: Errno,
)
    ensures
        create_request().handle == 0,
        create_request().flags == 0,
        export_request(handle).handle == handle,
        export_request(handle).flags == 2,
        export_request(handle).fd == -1,
        export_request(handle).pad == 0,
        export_request(handle).point == 0,
        wait_request(handle, point, timeout_nsec).handle == handle,
        wait_request(handle, point, timeout_nsec).point == point,
        wait_request(handle, point, timeout_nsec).timeout_nsec == timeout_nsec,
        wait_request(handle, point, timeout_nsec).count_handles == 1,
        wait_request(handle, point, timeout_nsec).flags == 2,
        wait_request(handle, point, timeout_nsec).first_signaled == 0,
        wait_request(handle, point, timeout_nsec).pad == 0,
        wait_request(handle, point, timeout_nsec).deadline_nsec == 0,
        destroy_request(handle).handle == handle,
        destroy_request(handle).pad == 0,
        refused(err) == WayvekError::Io(IoError::Os(err.0)),
{
}

/// Points go up by two, modulo the numbers that there are.
pub proof fn law_points_go_up_by_two(point: u64, n: nat)
    ensures
        following_point(point) as int == (point + 2) % 0x1_0000_0000_0000_0000,
        nth_point(n) as int == (1 + 2 * n) % 0x1_0000_0000_0000_0000,
{
    lemma_nth_point(n);
}

/// The device id that Linux packs out of a major and a minor number is taken apart
/// into the same two.
pub proof fn law_device_numbers_are_unpacked(major: u32, minor: u32)
    ensures
        ({
            let (a, b) = (major as u64, minor as u64);
            let dev = ((a & 0xffff_f000) << 32) | ((a & 0xfff) << 8) | ((b & 0xffff_ff00) << 12) | (
            b & 0xff);
            dev_major(dev) == major && dev_minor(dev) == minor
        }),
{
    let (a, b) = (major as u64, minor as u64);
    let dev = ((a & 0xffff_f000) << 32) | ((a & 0xfff) << 8) | ((b & 0xffff_ff00) << 12) | (b
        & 0xff);
    assert((((dev >> 32) & 0xffff_f000) | ((dev >> 8) & 0x0000_0fff)) as u32 == major && (((dev
        >> 12) & 0xffff_ff00) | (dev & 0x0000_00ff)) as u32 == minor) by (bit_vector)
        requires
            a == major as u64,
            b == minor as u64,
            dev == ((a & 0xffff_f000) << 32) | ((a & 0xfff) << 8) | ((b & 0xffff_ff00) << 12) | (b
                & 0xff),
    ;
}

/// A render node is found under its minor number: the path begins with
/// `/dev/dri/renderD`, and what follows reads as that number.
pub proof fn law_render_node_path_ends_in_the_minor_number(dev: u64)
    ensures
        render_node_path(dev).take(16) == "/dev/dri/renderD"@,
        reads_as(render_node_path(dev).skip(16)) == dev_minor(dev),
        render_node_path(dev).len() > 16,
{
    reveal_strlit("/dev/dri/renderD");
    law_decimal_reads_back(dev_minor(dev) as nat);
    assert(render_node_path(dev).take(16) =~= "/dev/dri/renderD"@);
    assert(render_node_path(dev).skip(16) =~= decimal(dev_minor(dev) as nat));
}

/// The numbers by which the kernel knows the requests and their errors.
pub proof fn law_kernel_numbers()
    ensures
        DRM_IOCTL_BASE == 0x64,
        DRM_IOCTL_SYNCOBJ_CREATE == 0xBF,
        DRM_IOCTL_SYNCOBJ_DESTROY == 0xC0,
        DRM_IOCTL_SYNCOBJ_HANDLE_TO_FD == 0xC1,
        DRM_IOCTL_SYNCOBJ_FD_TO_HANDLE == 0xC2,
        DRM_IOCTL_SYNCOBJ_TIMELINE_WAIT == 0xCA,
        DRM_IOCTL_SYNCOBJ_TRANSFER == 0xCC,
        ETIME == 62,
{
}

} // verus!
