//! The Wayland side: what the compositor has told us so far, and what to ask of
//! it next.
//!
//! Nothing here talks to the compositor. Each event is handed to a method of
//! [`WaylandState`], which says what to do about it; the caller holds the
//! protocol objects and makes the requests.

use vstd::prelude::*;

pub mod dmabuf;
pub mod laws;

use crate::bytes::{little_endian, ByteOrder};
use crate::text::same_text;
use crate::{DmaFrame, DmaPlane, ExplicitSync};
use dmabuf::{
    announced, entries_of, indices_of, shown, with_modifiers, AdvertisedFormats, DrmFormatTable,
};

verus! {

/// Marks the registry's events.
pub struct GlobalData;

/// The globals that are used.
#[derive(Clone, Copy, Debug, PartialEq, Eq)]
pub enum Global {
    Compositor,
    WmBase,
    DecorationManager,
    Dmabuf,
    SyncobjManager,
}

/// Bind a global of the registry.
#[derive(Clone, Copy, Debug, PartialEq, Eq)]
pub struct Bind {
    pub global: Global,
    /// The name under which the registry announced it.
    pub name: u32,
    pub version: u32,
    /// Ask the bound object for the default dmabuf feedback right away.
    pub default_feedback: bool,
}

/// Create the surface and its toplevel, and get its explicit synchronization;
/// then commit the surface.
#[derive(Debug, PartialEq, Eq)]
pub struct WindowPlan {
    pub title: String,
    pub app_id: String,
    pub min_size: (i32, i32),
    /// Ask for server-side decorations.
    pub decorate: bool,
}

/// One plane of a buffer, as linux-dmabuf takes it.
#[derive(Clone, Copy, Debug, PartialEq, Eq)]
pub struct PlaneParams {
    pub plane_idx: u32,
    pub offset: u32,
    pub stride: u32,
    pub modifier_hi: u32,
    pub modifier_lo: u32,
}

/// Create a buffer from the planes, without flags.
#[derive(Debug, PartialEq, Eq)]
pub struct BufferParams {
    pub planes: Vec<PlaneParams>,
    pub width: i32,
    pub height: i32,
    pub format: u32,
}

/// Set the acquire and the release point, each in halves, attach the buffer,
/// damage `width`x`height` of it and commit the surface.
#[derive(Clone, Copy, Debug, PartialEq, Eq)]
pub struct Presentation {
    pub acquire_hi: u32,
    pub acquire_lo: u32,
    pub release_hi: u32,
    pub release_lo: u32,
    pub width: i32,
    pub height: i32,
}

/// What to do with a buffer that the compositor has created.
#[derive(Clone, Copy, Debug, PartialEq, Eq)]
pub enum CreatedBuffer {
    /// There is no surface to show it on.
    NoSurface,
    /// Explicit sync objects are missing: drop the buffer.
    MissingSync,
    /// There is no pending acquire point: drop the buffer.
    MissingAcquire,
    /// There is no pending release point: drop the buffer.
    MissingRelease,
    Present(Presentation),
}

/// The upper half of a 64-bit number.
pub open spec fn upper(x: u64) -> u32 {
    (x >> 32) as u32
}

/// The lower half of a 64-bit number.
pub open spec fn lower(x: u64) -> u32 {
    x as u32
}

/// The planes of a buffer, as linux-dmabuf takes them.
pub open spec fn plane_params(planes: Seq<DmaPlane>, modifier: u64) -> Seq<PlaneParams> {
    Seq::new(
        planes.len(),
        |i: int|
            PlaneParams {
                plane_idx: i as u32,
                offset: planes[i].offset as u32,
                stride: planes[i].stride as u32,
                modifier_hi: upper(modifier),
                modifier_lo: lower(modifier),
            },
    )
}

/// The device that bytes of the feedback name. Missing bytes are zero.
pub open spec fn device_number(device: Seq<u8>) -> u64 {
    little_endian(
        if device.len() < 8 {
            device
        } else {
            device.take(8)
        },
    ) as u64
}

/// What is known of the compositor and of the window.
pub struct WaylandState {
    pub running: bool,
    /// Which globals are bound.
    pub compositor: bool,
    pub wm_base: bool,
    pub decoration_manager: bool,
    pub dmabuf: bool,
    pub syncobj_manager: bool,
    /// The window exists: its surface, its toplevel and the synchronization
    /// object of its surface.
    pub window: bool,
    /// The window asked for decorations.
    pub decoration: bool,
    /// The timeline has been imported into the compositor.
    pub syncobj_timeline: bool,
    /// The byte order of what the compositor shares in memory.
    pub order: ByteOrder,
    pub main_device: Option<u64>,
    pub format_table: Option<DrmFormatTable>,
    pub dmabuf_formats: AdvertisedFormats,
    pub size: (u32, u32),
    /// Set when the surface is configured; consumed by the main loop to trigger
    /// rendering.
    pub pending_render: Option<(u32, u32)>,
    pub pending_acquire: Option<u64>,
    pub pending_release: Option<u64>,
    /// The size of the buffer that is being created.
    pub create_size: Option<(i32, i32)>,
}

/// The interface name of a global.
pub open spec fn interface_of(global: Global) -> Seq<char> {
    match global {
        Global::Compositor => "wl_compositor"@,
        Global::WmBase => "xdg_wm_base"@,
        Global::DecorationManager => "zxdg_decoration_manager_v1"@,
        Global::Dmabuf => "zwp_linux_dmabuf_v1"@,
        Global::SyncobjManager => "wp_linux_drm_syncobj_manager_v1"@,
    }
}

/// The version at which a global is bound: the compositor's own up to four for
/// the compositor, a fixed one for the others.
pub open spec fn bound_version(global: Global, version: u32) -> u32 {
    match global {
        Global::Compositor => if version < 4 {
            version
        } else {
            4
        },
        Global::Dmabuf => 5,
        _ => 1,
    }
}

impl WaylandState {
    /// The state once `global` is bound.
    pub open spec fn with_global(self, global: Global) -> Self {
        match global {
            Global::Compositor => WaylandState { compositor: true, ..self },
            Global::WmBase => WaylandState { wm_base: true, ..self },
            Global::DecorationManager => WaylandState { decoration_manager: true, ..self },
            Global::Dmabuf => WaylandState { dmabuf: true, ..self },
            Global::SyncobjManager => WaylandState { syncobj_manager: true, ..self },
        }
    }

    /// There is no window yet, and there is what it takes to create one.
    pub open spec fn wants_window(self) -> bool {
        !self.window && self.compositor && self.wm_base
    }

    /// The state after [`WaylandState::init_window`].
    pub open spec fn after_init_window(self) -> Self {
        if self.wants_window() {
            WaylandState { window: true, decoration: self.decoration_manager, ..self }
        } else {
            self
        }
    }

    /// The timeline is not imported yet and can be.
    pub open spec fn wants_timeline(self) -> bool {
        !self.syncobj_timeline && self.syncobj_manager
    }

    /// The state after [`WaylandState::import_timeline`].
    pub open spec fn after_import_timeline(self) -> Self {
        if self.wants_timeline() {
            WaylandState { syncobj_timeline: true, ..self }
        } else {
            self
        }
    }

    /// A frame can be handed to the compositor.
    pub open spec fn can_commit(self) -> bool {
        self.dmabuf && self.window
    }

    /// The state after [`WaylandState::commit`] of a frame of this size.
    pub open spec fn after_commit(self, width: u32, height: u32, sync: ExplicitSync) -> Self {
        if self.can_commit() {
            WaylandState {
                pending_acquire: Some(sync.acquire_point),
                pending_release: Some(sync.release_point),
                create_size: Some((width as i32, height as i32)),
                ..self
            }
        } else {
            self
        }
    }

    /// What becomes of a buffer that the compositor has created.
    pub open spec fn created(self) -> CreatedBuffer {
        if !self.window {
            CreatedBuffer::NoSurface
        } else if !self.syncobj_timeline {
            CreatedBuffer::MissingSync
        } else {
            match (self.pending_acquire, self.pending_release) {
                (None, _) => CreatedBuffer::MissingAcquire,
                (Some(_), None) => CreatedBuffer::MissingRelease,
                (Some(acquire), Some(release)) => {
                    let (width, height) = match self.create_size {
                        Some(size) => size,
                        None => (0, 0),
                    };
                    CreatedBuffer::Present(
                        Presentation {
                            acquire_hi: upper(acquire),
                            acquire_lo: lower(acquire),
                            release_hi: upper(release),
                            release_lo: lower(release),
                            width,
                            height,
                        },
                    )
                },
            }
        }
    }

    /// The state after the compositor has created a buffer: the size is used up,
    /// and so are the points where they were looked at.
    pub open spec fn after_created(self) -> Self {
        if self.window && self.syncobj_timeline {
            WaylandState {
                create_size: None,
                pending_acquire: None,
                pending_release: if self.pending_acquire is Some {
                    None
                } else {
                    self.pending_release
                },
                ..self
            }
        } else {
            WaylandState { create_size: None, ..self }
        }
    }

    /// The state after the compositor could not create a buffer.
    pub open spec fn after_failed(self) -> Self {
        WaylandState {
            create_size: None,
            pending_acquire: None,
            pending_release: None,
            ..self
        }
    }

    /// The state after the surface has been configured.
    pub open spec fn after_surface_configure(self) -> Self {
        WaylandState { pending_render: Some(self.size), ..self }
    }

    /// The state after the toplevel has been configured. A zero leaves the size
    /// to us.
    pub open spec fn after_toplevel_configure(self, width: i32, height: i32) -> Self {
        if width != 0 && height != 0 {
            WaylandState { size: (width as u32, height as u32), ..self }
        } else {
            self
        }
    }

    /// Nothing has been heard of the compositor.
    pub open spec fn is_initial(self) -> bool {
        &&& self.running
        &&& !self.compositor && !self.wm_base && !self.decoration_manager && !self.dmabuf
            && !self.syncobj_manager
        &&& !self.window && !self.decoration && !self.syncobj_timeline
        &&& self.main_device is None
        &&& self.format_table is None
        &&& self.dmabuf_formats@ == Seq::<(u32, Seq<u64>)>::empty()
        &&& self.size == (800u32, 600u32)
        &&& self.pending_render is None
        &&& self.pending_acquire is None
        &&& self.pending_release is None
        &&& self.create_size is None
    }

    /// The state before anything is heard of a compositor that shares memory in
    /// the given byte order.
    pub fn with_byte_order(order: ByteOrder) -> (state: Self)
        ensures
            state.is_initial(),
            state.order == order,
    {
        WaylandState {
            running: true,
            compositor: false,
            wm_base: false,
            decoration_manager: false,
            dmabuf: false,
            syncobj_manager: false,
            window: false,
            decoration: false,
            syncobj_timeline: false,
            order,
            main_device: None,
            format_table: None,
            dmabuf_formats: AdvertisedFormats::new(),
            size: (800, 600),
            pending_render: None,
            pending_acquire: None,
            pending_release: None,
            create_size: None,
        }
    }

    /// The state before anything is heard of the compositor. The byte order is
    /// that of this machine.
    pub fn new() -> (state: Self)
        ensures
            state.is_initial(),
            state.order.is_native(),
    {
        Self::with_byte_order(ByteOrder::native())
    }

    /// The registry announced a global: bind it if it is used.
    pub fn global(&mut self, name: u32, interface: &str, version: u32) -> (bind: Option<Bind>)
        ensures
            match bind {
                Some(b) => {
                    &&& interface@ == interface_of(b.global)
                    &&& b.name == name
                    &&& b.version == bound_version(b.global, version)
                    &&& b.default_feedback == (b.global is Dmabuf)
                    &&& *final(self) == old(self).with_global(b.global)
                },
                None => {
                    &&& forall|g: Global| interface@ != #[trigger] interface_of(g)
                    &&& *final(self) == *old(self)
                },
            },
    {
        let global = if same_text(interface, "wl_compositor") {
            self.compositor = true;
            Global::Compositor
        } else if same_text(interface, "xdg_wm_base") {
            self.wm_base = true;
            Global::WmBase
        } else if same_text(interface, "zxdg_decoration_manager_v1") {
            self.decoration_manager = true;
            Global::DecorationManager
        } else if same_text(interface, "zwp_linux_dmabuf_v1") {
            self.dmabuf = true;
            Global::Dmabuf
        } else if same_text(interface, "wp_linux_drm_syncobj_manager_v1") {
            self.syncobj_manager = true;
            Global::SyncobjManager
        } else {
            return None;
        };
        let version: u32 = match global {
            Global::Compositor => if version < 4 {
                version
            } else {
                4
            },
            Global::Dmabuf => 5,
            _ => 1,
        };
        let default_feedback = match global {
            Global::Dmabuf => true,
            _ => false,
        };
        Some(Bind { global, name, version, default_feedback })
    }

    /// A window is due, but wp_linux_drm_syncobj_manager_v1 is not available: it
    /// must not be created.
    pub fn lacks_sync_manager(&self) -> (lacks: bool)
        ensures
            lacks == (self.wants_window() && !self.syncobj_manager),
    {
        !self.window && self.compositor && self.wm_base && !self.syncobj_manager
    }

    /// Create the surface + xdg toplevel once all needed globals are bound.
    pub fn init_window(&mut self) -> (plan: Option<WindowPlan>)
        requires
            old(self).wants_window() ==> old(self).syncobj_manager,
        ensures
            *final(self) == old(self).after_init_window(),
            plan is Some <==> old(self).wants_window(),
            plan matches Some(p) ==> {
                &&& p.title@ == "wayvek"@
                &&& p.app_id@ == "wayvek"@
                &&& p.min_size == (1i32, 1i32)
                &&& p.decorate == old(self).decoration_manager
            },
    {
        if self.window {
            return None;
        }
        if !self.compositor || !self.wm_base {
            return None;
        }
        self.window = true;
        self.decoration = self.decoration_manager;
        Some(
            WindowPlan {
                title: "wayvek".to_owned(),
                app_id: "wayvek".to_owned(),
                min_size: (1, 1),
                decorate: self.decoration_manager,
            },
        )
    }

    /// The DRM device that the compositor prefers.
    pub fn main_device(&self) -> (device: Option<u64>)
        ensures
            device == self.main_device,
    {
        self.main_device
    }

    /// The (format, modifiers) pairs that the compositor advertises.
    pub fn advertised_formats(&self) -> (formats: Vec<(u32, Vec<u64>)>)
        ensures
            shown(formats@) == self.dmabuf_formats@,
    {
        self.dmabuf_formats.to_vec()
    }

    /// Whether to import the DRM syncobj timeline fd into the compositor now;
    /// once is enough.
    pub fn import_timeline(&mut self) -> (import: bool)
        ensures
            import == old(self).wants_timeline(),
            *final(self) == old(self).after_import_timeline(),
    {
        if self.syncobj_timeline {
            return false;
        }
        if !self.syncobj_manager {
            return false;
        }
        self.syncobj_timeline = true;
        true
    }

    /// Wrap the DMA-BUF in a buffer, to be presented with explicit
    /// synchronization points once the compositor has created it.
    pub fn commit(&mut self, frame: &DmaFrame, sync: ExplicitSync) -> (params: Option<BufferParams>)
        ensures
            *final(self) == old(self).after_commit(frame.width, frame.height, sync),
            params is Some <==> old(self).can_commit(),
            params matches Some(p) ==> {
                &&& p.planes@ == plane_params(frame.planes@, frame.modifier)
                &&& p.width == frame.width as i32
                &&& p.height == frame.height as i32
                &&& p.format == frame.format
            },
    {
        if !self.dmabuf || !self.window {
            return None;
        }
        self.pending_acquire = Some(sync.acquire_point);
        self.pending_release = Some(sync.release_point);
        let modifier: u64 = frame.modifier;
        assert((modifier & 0xffff_ffff) as u32 == modifier as u32) by (bit_vector);
        let mut planes: Vec<PlaneParams> = Vec::new();
        let mut i: usize = 0;
        while i < frame.planes.len()
            invariant
                i <= frame.planes@.len(),
                modifier == frame.modifier,
                (modifier & 0xffff_ffff) as u32 == modifier as u32,
                planes@ == plane_params(frame.planes@, frame.modifier).take(i as int),
            decreases frame.planes@.len() - i,
        {
            let plane = frame.planes[i];
            planes.push(
                PlaneParams {
                    plane_idx: i as u32,
                    offset: plane.offset as u32,
                    stride: plane.stride as u32,
                    modifier_hi: (modifier >> 32) as u32,
                    modifier_lo: (modifier & 0xffff_ffff) as u32,
                },
            );
            i += 1;
            assert(planes@ =~= plane_params(frame.planes@, frame.modifier).take(i as int));
        }
        assert(planes@ =~= plane_params(frame.planes@, frame.modifier));
        let width: i32 = frame.width as i32;
        let height: i32 = frame.height as i32;
        self.create_size = Some((width, height));
        Some(BufferParams { planes, width, height, format: frame.format })
    }

    /// The compositor has created the buffer: present it, with the points that it
    /// was committed with.
    pub fn buffer_created(&mut self) -> (buffer: CreatedBuffer)
        ensures
            buffer == old(self).created(),
            *final(self) == old(self).after_created(),
    {
        let size: (i32, i32) = match self.create_size {
            Some(size) => size,
            None => (0, 0),
        };
        self.create_size = None;
        if !self.window {
            return CreatedBuffer::NoSurface;
        }
        if !self.syncobj_timeline {
            return CreatedBuffer::MissingSync;
        }
        let acquire: u64 = match self.pending_acquire.take() {
            Some(acquire) => acquire,
            None => {
                return CreatedBuffer::MissingAcquire;
            },
        };
        let release: u64 = match self.pending_release.take() {
            Some(release) => release,
            None => {
                return CreatedBuffer::MissingRelease;
            },
        };
        CreatedBuffer::Present(
            Presentation {
                acquire_hi: (acquire >> 32) as u32,
                acquire_lo: acquire as u32,
                release_hi: (release >> 32) as u32,
                release_lo: release as u32,
                width: size.0,
                height: size.1,
            },
        )
    }

    /// The compositor could not create the buffer.
    pub fn buffer_failed(&mut self)
        ensures
            *final(self) == old(self).after_failed(),
    {
        self.create_size = None;
        self.pending_acquire = None;
        self.pending_release = None;
    }

    /// The surface has been configured: it is time to render.
    pub fn surface_configure(&mut self)
        ensures
            *final(self) == old(self).after_surface_configure(),
    {
        self.pending_render = Some(self.size);
    }

    /// The compositor suggests a size for the window; zero leaves it to us.
    pub fn toplevel_configure(&mut self, width: i32, height: i32)
        ensures
            *final(self) == old(self).after_toplevel_configure(width, height),
    {
        if width != 0 && height != 0 {
            self.size = (width as u32, height as u32);
        }
    }

    /// The window is to be closed.
    pub fn toplevel_close(&mut self)
        ensures
            *final(self) == (WaylandState { running: false, ..*old(self) }),
    {
        self.running = false;
    }

    /// The dmabuf feedback names the main device: a dev_t in little-endian bytes,
    /// of which the first eight count.
    pub fn feedback_main_device(&mut self, device: &[u8])
        ensures
            *final(self) == (WaylandState {
                main_device: Some(device_number(device@)),
                ..*old(self)
            }),
    {
        let n: usize = if device.len() < 8 {
            device.len()
        } else {
            8
        };
        assert(device@.subrange(0, n as int) =~= if device@.len() < 8 {
            device@
        } else {
            device@.take(8)
        });
        let number: u64 = ByteOrder::Little.read(&device[0..n]);
        self.main_device = Some(number);
    }

    /// The dmabuf feedback hands over its format table: the bytes of it, or
    /// nothing if it could not be mapped.
    pub fn feedback_format_table(&mut self, bytes: Option<&[u8]>)
        ensures
            *final(self) == (WaylandState {
                format_table: final(self).format_table,
                ..*old(self)
            }),
            match final(self).format_table {
                Some(table) => bytes matches Some(b) && b@.len() % 16 == 0 && table@ == entries_of(
                    old(self).order,
                    b@,
                ),
                None => bytes matches Some(b) ==> b@.len() % 16 != 0,
            },
    {
        self.format_table = match bytes {
            Some(bytes) => DrmFormatTable::map(self.order, bytes),
            None => None,
        };
    }

    /// The dmabuf feedback announces the formats of a tranche, by their indices
    /// in the format table. Without a table there is nothing to announce.
    pub fn feedback_tranche_formats(&mut self, indices: &[u8])
        ensures
            *final(self) == (WaylandState {
                dmabuf_formats: final(self).dmabuf_formats,
                ..*old(self)
            }),
            final(self).dmabuf_formats@ == match old(self).format_table {
                Some(table) => with_modifiers(
                    old(self).dmabuf_formats@,
                    announced(table@, indices_of(old(self).order, indices@)),
                ),
                None => old(self).dmabuf_formats@,
            },
    {
        if let Some(table) = &self.format_table {
            self.dmabuf_formats.add_tranche(self.order, table, indices);
        }
    }
}

impl Default for WaylandState {
    fn default() -> (state: Self)
        ensures
            state.is_initial(),
            state.order.is_native(),
    {
        WaylandState::new()
    }
}

} // verus!
