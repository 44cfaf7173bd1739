use vstd::prelude::*;

use crate::backend::Backend;
use crate::id::Id;
use crate::resource::{
    buffer_desc_error, has_usage, sampler_desc_error, validate_buffer_desc, validate_sampler_desc,
    BindGroupDescriptor, BindGroupEntry, BindGroupRecord, BufferAccessError, BufferDescriptor,
    BufferRecord, CreateBindGroupError, CreateBufferError, CreateSamplerError, DeviceError,
    DeviceRecord, HostMap, MapState, MappedRange, SamplerDescriptor, SamplerRecord,
    CreateTextureError, TextureDescriptor, TextureRecord, texture_desc_error, validate_texture_desc,
    COPY_BUFFER_ALIGNMENT, MAP_ALIGNMENT, MAP_READ, MAP_WRITE, STORAGE, UNIFORM,
};
use crate::storage::{
    can_insert, inserted, lemma_slot_after_insert, removed, report_of, slot, Element,
    RegistryReport, Storage,
};

verus! {

/// The registry of buffers of one backend.
pub type BufferSlots = Seq<Element<BufferRecord, CreateBufferError>>;

/// The usage bit that mapping for `host` needs.
pub open spec fn map_usage(host: HostMap) -> u32 {
    match host {
        HostMap::Read => MAP_READ,
        HostMap::Write => MAP_WRITE,
    }
}

/// Whether a buffer's mapping state stays within the buffer.
pub open spec fn map_state_in_bounds(b: BufferRecord) -> bool {
    match b.map_state {
        MapState::Waiting { offset, size, .. } => offset + size <= b.size,
        MapState::Active { offset, size, .. } => offset + size <= b.size,
        _ => true,
    }
}

/// Whether every valid buffer's mapping state stays within the buffer.
pub open spec fn buffers_wf(s: BufferSlots) -> bool {
    forall|i: int|
        0 <= i < s.len() ==> (#[trigger] s[i] matches Element::Occupied(b, _) ==> map_state_in_bounds(
            b,
        ))
}

/// The buffers after setting the mapping state of the buffer `id` names.
pub open spec fn with_map_state(s: BufferSlots, id: Id, st: MapState) -> BufferSlots {
    match slot(s, id) {
        Element::Occupied(b, e) => s.update(
            id.index as int,
            Element::Occupied(BufferRecord { map_state: st, ..b }, e),
        ),
        _ => s,
    }
}

/// What asking to map `size` bytes at `offset` of the buffer `id` returns.
pub open spec fn map_async_outcome(
    s: BufferSlots,
    id: Id,
    offset: u64,
    size: u64,
    host: HostMap,
) -> Result<(), BufferAccessError> {
    match slot(s, id) {
        Element::Vacant => Err(BufferAccessError::Invalid),
        Element::Error(_, _, c) => Err(BufferAccessError::Errored(c)),
        Element::Occupied(b, _) => if offset % MAP_ALIGNMENT != 0 {
            Err(BufferAccessError::UnalignedOffset(offset))
        } else if size % COPY_BUFFER_ALIGNMENT != 0 {
            Err(BufferAccessError::UnalignedRangeSize(size))
        } else if offset + size > b.size {
            Err(BufferAccessError::OutOfBoundsOverrun { index: offset, max: b.size })
        } else if !has_usage(b.usage, map_usage(host)) {
            Err(BufferAccessError::MissingUsage(map_usage(host)))
        } else {
            match b.map_state {
                MapState::Idle => Ok(()),
                MapState::Waiting { .. } => Err(BufferAccessError::MapAlreadyPending),
                _ => Err(BufferAccessError::AlreadyMapped),
            }
        },
    }
}

/// The bounds `[lo, hi)` of the mapped range of buffer `b`, if it is
/// mapped.
pub open spec fn mapped_bounds(b: BufferRecord) -> Option<(int, int)> {
    match b.map_state {
        MapState::Init => Some((0, b.size as int)),
        MapState::Active { offset, size, .. } => Some((offset as int, offset + size)),
        _ => None,
    }
}

/// What asking for the mapped range at `offset` of the buffer `id` returns;
/// with no size, the range reaches the end of the mapping.
pub open spec fn mapped_range_outcome(
    s: BufferSlots,
    id: Id,
    offset: u64,
    size: Option<u64>,
) -> Result<MappedRange, BufferAccessError> {
    match slot(s, id) {
        Element::Vacant => Err(BufferAccessError::Invalid),
        Element::Error(_, _, c) => Err(BufferAccessError::Errored(c)),
        Element::Occupied(b, _) => match mapped_bounds(b) {
            None => Err(BufferAccessError::NotMapped),
            Some((lo, hi)) => if offset % MAP_ALIGNMENT != 0 {
                Err(BufferAccessError::UnalignedOffset(offset))
            } else if offset < lo {
                Err(BufferAccessError::OutOfBoundsUnderrun { index: offset, min: lo as u64 })
            } else if offset > hi {
                Err(BufferAccessError::OutOfBoundsOverrun { index: offset, max: hi as u64 })
            } else {
                let rs: int = match size {
                    Some(n) => n as int,
                    None => hi - offset,
                };
                if rs % (COPY_BUFFER_ALIGNMENT as int) != 0 {
                    Err(BufferAccessError::UnalignedRangeSize(rs as u64))
                } else if offset + rs > hi {
                    Err(BufferAccessError::OutOfBoundsOverrun { index: offset, max: hi as u64 })
                } else {
                    Ok(MappedRange { offset, size: rs as u64 })
                }
            },
        },
    }
}

/// The mapping state of the buffer `id`, or why it has none.
pub open spec fn map_state_outcome(s: BufferSlots, id: Id) -> Result<MapState, BufferAccessError> {
    match slot(s, id) {
        Element::Vacant => Err(BufferAccessError::Invalid),
        Element::Error(_, _, c) => Err(BufferAccessError::Errored(c)),
        Element::Occupied(b, _) => Ok(b.map_state),
    }
}

/// What unmapping the buffer `id` returns.
pub open spec fn unmap_outcome(s: BufferSlots, id: Id) -> Result<(), BufferAccessError> {
    match slot(s, id) {
        Element::Vacant => Err(BufferAccessError::Invalid),
        Element::Error(_, _, c) => Err(BufferAccessError::Errored(c)),
        Element::Occupied(b, _) => match b.map_state {
            MapState::Idle => Err(BufferAccessError::NotMapped),
            _ => Ok(()),
        },
    }
}

/// A buffer slot after its device was polled: a mapping of a buffer of
/// `device` that waits becomes active.
pub open spec fn poll_element(
    e: Element<BufferRecord, CreateBufferError>,
    device: Id,
) -> Element<BufferRecord, CreateBufferError> {
    match e {
        Element::Occupied(b, ep) => match b.map_state {
            MapState::Waiting { host, offset, size } => if b.device == device {
                Element::Occupied(
                    BufferRecord { map_state: MapState::Active { host, offset, size }, ..b },
                    ep,
                )
            } else {
                Element::Occupied(b, ep)
            },
            _ => Element::Occupied(b, ep),
        },
        _ => e,
    }
}

/// The buffers after polling `device`.
pub open spec fn polled(s: BufferSlots, device: Id) -> BufferSlots {
    s.map_values(|e: Element<BufferRecord, CreateBufferError>| poll_element(e, device))
}

/// The label of the element `e`; empty for a free slot.
pub open spec fn label_of<T, E>(e: Element<T, E>, label: spec_fn(T) -> Seq<char>) -> Seq<char> {
    match e {
        Element::Occupied(v, _) => label(v),
        Element::Error(_, l, _) => l@,
        Element::Vacant => Seq::empty(),
    }
}

/// The element a buffer descriptor creates on a device that is valid or
/// not.
pub open spec fn created_buffer(
    device: Id,
    device_valid: bool,
    epoch: u32,
    desc: BufferDescriptor,
) -> Element<BufferRecord, CreateBufferError> {
    if !device_valid {
        Element::Error(epoch, desc.label, CreateBufferError::Device(DeviceError::Invalid))
    } else {
        match buffer_desc_error(desc.size, desc.usage, desc.mapped_at_creation) {
            Some(err) => Element::Error(epoch, desc.label, err),
            None => Element::Occupied(
                BufferRecord {
                    device,
                    label: desc.label,
                    size: desc.size,
                    usage: desc.usage,
                    map_state: if desc.mapped_at_creation {
                        MapState::Init
                    } else {
                        MapState::Idle
                    },
                },
                epoch,
            ),
        }
    }
}

/// The element a sampler descriptor creates on a device that is valid or
/// not.
pub open spec fn created_sampler(
    device: Id,
    device_valid: bool,
    epoch: u32,
    desc: SamplerDescriptor,
) -> Element<SamplerRecord, CreateSamplerError> {
    if !device_valid {
        Element::Error(epoch, desc.label, CreateSamplerError::Device(DeviceError::Invalid))
    } else {
        match sampler_desc_error(
            desc.anisotropy_clamp,
            desc.mag_filter,
            desc.min_filter,
            desc.mipmap_filter,
        ) {
            Some(err) => Element::Error(epoch, desc.label, err),
            None => Element::Occupied(
                SamplerRecord {
                    device,
                    label: desc.label,
                    address_mode_u: desc.address_mode_u,
                    address_mode_v: desc.address_mode_v,
                    address_mode_w: desc.address_mode_w,
                    mag_filter: desc.mag_filter,
                    min_filter: desc.min_filter,
                    mipmap_filter: desc.mipmap_filter,
                    compare: desc.compare,
                    anisotropy_clamp: desc.anisotropy_clamp,
                },
                epoch,
            ),
        }
    }
}

/// The error, if any, of entry `k` of a bind group on `device`: a binding
/// number that an earlier entry uses, or a buffer that is not a valid,
/// bindable buffer of the device. An errored buffer passes its cause on.
pub open spec fn entry_error(
    s: BufferSlots,
    device: Id,
    es: Seq<BindGroupEntry>,
    k: int,
) -> Option<CreateBindGroupError> {
    let e = es[k];
    if exists|j: int| 0 <= j < k && #[trigger] es[j].binding == e.binding {
        Some(CreateBindGroupError::DuplicateBinding(e.binding))
    } else {
        match slot(s, e.buffer) {
            Element::Vacant => Some(CreateBindGroupError::InvalidBuffer(e.buffer)),
            Element::Error(_, _, c) => Some(CreateBindGroupError::ErroredBuffer(e.buffer, c)),
            Element::Occupied(b, _) => if b.device != device {
                Some(CreateBindGroupError::InvalidBuffer(e.buffer))
            } else if !has_usage(b.usage, UNIFORM | STORAGE) {
                Some(CreateBindGroupError::MissingBufferUsage(e.buffer))
            } else {
                None
            },
        }
    }
}

/// The error of the first failing entry of `es` from entry `k` on.
pub open spec fn entries_error_from(
    s: BufferSlots,
    device: Id,
    es: Seq<BindGroupEntry>,
    k: int,
) -> Option<CreateBindGroupError>
    decreases es.len() - k,
{
    if k < 0 || k >= es.len() {
        None
    } else {
        match entry_error(s, device, es, k) {
            Some(err) => Some(err),
            None => entries_error_from(s, device, es, k + 1),
        }
    }
}

/// The element a bind group descriptor creates on a device that is valid
/// or not.
pub open spec fn created_bind_group(
    s: BufferSlots,
    device: Id,
    device_valid: bool,
    epoch: u32,
    desc: BindGroupDescriptor,
) -> Element<BindGroupRecord, CreateBindGroupError> {
    if !device_valid {
        Element::Error(epoch, desc.label, CreateBindGroupError::Device(DeviceError::Invalid))
    } else {
        match entries_error_from(s, device, desc.entries@, 0) {
            Some(err) => Element::Error(epoch, desc.label, err),
            None => Element::Occupied(
                BindGroupRecord { device, label: desc.label, entries: desc.entries },
                epoch,
            ),
        }
    }
}

/// The error that creating `e` reports, if any.
pub open spec fn error_of<T, E>(e: Element<T, E>) -> Option<E> {
    match e {
        Element::Error(_, _, c) => Some(c),
        _ => None,
    }
}

/// The census of each registry of a hub.
#[derive(Clone, Copy, Debug, PartialEq, Eq, Structural)]
pub struct HubReport {
    pub devices: RegistryReport,
    pub buffers: RegistryReport,
    pub samplers: RegistryReport,
    pub bind_groups: RegistryReport,
    pub textures: RegistryReport,
}

/// A buffer bound to an error stays inert: mapping it, asking for its
/// mapped range and unmapping it all fail with the cause it was created
/// with and leave the buffers as they are, and a bind group entry that
/// names it fails with that cause too.
pub proof fn lemma_errored_buffer_is_contagious(
    s: BufferSlots,
    id: Id,
    cause: CreateBufferError,
    offset: u64,
    size: u64,
    range_size: Option<u64>,
    host: HostMap,
    st: MapState,
    device: Id,
    es: Seq<BindGroupEntry>,
    k: int,
)
    requires
        slot(s, id) matches Element::Error(_, _, c) && c == cause,
        0 <= k < es.len(),
        es[k].buffer == id,
        forall|j: int| 0 <= j < k ==> #[trigger] es[j].binding != es[k].binding,
    ensures
        map_async_outcome(s, id, offset, size, host) == Err::<(), BufferAccessError>(
            BufferAccessError::Errored(cause),
        ),
        mapped_range_outcome(s, id, offset, range_size) == Err::<MappedRange, BufferAccessError>(
            BufferAccessError::Errored(cause),
        ),
        unmap_outcome(s, id) == Err::<(), BufferAccessError>(BufferAccessError::Errored(cause)),
        with_map_state(s, id, st) == s,
        polled(s, device)[id.index as int] == s[id.index as int],
        entry_error(s, device, es, k) == Some(CreateBindGroupError::ErroredBuffer(id, cause)),
{
}

/// Binding an identifier to an error through the error entry point makes
/// it contagious: every later access to it fails with the cause given
/// there, and leaves the buffers as they are.
pub proof fn lemma_assigned_error_is_contagious(
    s0: BufferSlots,
    id: Id,
    label: String,
    cause: CreateBufferError,
    offset: u64,
    size: u64,
    range_size: Option<u64>,
    host: HostMap,
    st: MapState,
)
    requires
        can_insert(s0, id),
    ensures
        ({
            let s = inserted(s0, id, Element::Error(id.epoch, label, cause));
            &&& map_async_outcome(s, id, offset, size, host) == Err::<(), BufferAccessError>(
                BufferAccessError::Errored(cause),
            )
            &&& mapped_range_outcome(s, id, offset, range_size) == Err::<
                MappedRange,
                BufferAccessError,
            >(BufferAccessError::Errored(cause))
            &&& unmap_outcome(s, id) == Err::<(), BufferAccessError>(
                BufferAccessError::Errored(cause),
            )
            &&& map_state_outcome(s, id) == Err::<MapState, BufferAccessError>(
                BufferAccessError::Errored(cause),
            )
            &&& with_map_state(s, id, st) == s
        }),
{
    lemma_slot_after_insert(s0, id, Element::Error(id.epoch, label, cause));
}

/// `h1` differs from `h0` at most in its buffers.
pub open spec fn same_except_buffers(h0: Hub, h1: Hub) -> bool {
    &&& h1.wf()
    &&& h1.backend == h0.backend
    &&& h1.devices == h0.devices
    &&& h1.samplers == h0.samplers
    &&& h1.bind_groups == h0.bind_groups
    &&& h1.textures == h0.textures
}

/// `h1` differs from `h0` at most in its devices.
pub open spec fn same_except_devices(h0: Hub, h1: Hub) -> bool {
    &&& h1.wf()
    &&& h1.backend == h0.backend
    &&& h1.buffers == h0.buffers
    &&& h1.samplers == h0.samplers
    &&& h1.bind_groups == h0.bind_groups
    &&& h1.textures == h0.textures
}

/// `h1` differs from `h0` at most in its samplers.
pub open spec fn same_except_samplers(h0: Hub, h1: Hub) -> bool {
    &&& h1.wf()
    &&& h1.backend == h0.backend
    &&& h1.devices == h0.devices
    &&& h1.buffers == h0.buffers
    &&& h1.bind_groups == h0.bind_groups
    &&& h1.textures == h0.textures
}

/// `h1` differs from `h0` at most in its bind groups.
pub open spec fn same_except_bind_groups(h0: Hub, h1: Hub) -> bool {
    &&& h1.wf()
    &&& h1.backend == h0.backend
    &&& h1.devices == h0.devices
    &&& h1.buffers == h0.buffers
    &&& h1.samplers == h0.samplers
    &&& h1.textures == h0.textures
}

/// The element a texture descriptor creates on a device that is valid or
/// not.
pub open spec fn created_texture(
    device: Id,
    device_valid: bool,
    epoch: u32,
    desc: TextureDescriptor,
) -> Element<TextureRecord, CreateTextureError> {
    if !device_valid {
        Element::Error(epoch, desc.label, CreateTextureError::Device(DeviceError::Invalid))
    } else {
        match texture_desc_error(desc) {
            Some(err) => Element::Error(epoch, desc.label, err),
            None => Element::Occupied(
                TextureRecord {
                    device,
                    label: desc.label,
                    width: desc.width,
                    height: desc.height,
                    depth_or_array_layers: desc.depth_or_array_layers,
                    mip_level_count: desc.mip_level_count,
                    sample_count: desc.sample_count,
                    usage: desc.usage,
                },
                epoch,
            ),
        }
    }
}

/// `h1` differs from `h0` at most in its textures.
pub open spec fn same_except_textures(h0: Hub, h1: Hub) -> bool {
    &&& h1.wf()
    &&& h1.backend == h0.backend
    &&& h1.devices == h0.devices
    &&& h1.buffers == h0.buffers
    &&& h1.samplers == h0.samplers
    &&& h1.bind_groups == h0.bind_groups
}

/// The resources of one backend.
pub struct Hub {
    pub backend: Backend,
    pub devices: Storage<DeviceRecord, DeviceError>,
    pub buffers: Storage<BufferRecord, CreateBufferError>,
    pub samplers: Storage<SamplerRecord, CreateSamplerError>,
    pub bind_groups: Storage<BindGroupRecord, CreateBindGroupError>,
    pub textures: Storage<TextureRecord, CreateTextureError>,
}

impl Hub {
    /// Internal consistency of the hub.
    pub open spec fn wf(&self) -> bool {
        buffers_wf(self.buffers@)
    }

    /// Whether the hub holds no resource: every registry has no slot.
    pub open spec fn is_empty(&self) -> bool {
        &&& self.devices@.len() == 0
        &&& self.buffers@.len() == 0
        &&& self.samplers@.len() == 0
        &&& self.bind_groups@.len() == 0
        &&& self.textures@.len() == 0
    }

    /// Whether `id` names a valid device.
    pub open spec fn device_valid(&self, id: Id) -> bool {
        slot(self.devices@, id) is Occupied
    }

    /// An empty hub for `backend`.
    pub fn new(backend: Backend) -> (r: Hub)
        ensures
            r.wf(),
            r.backend == backend,
            r.devices@.len() == 0,
            r.buffers@.len() == 0,
            r.samplers@.len() == 0,
            r.bind_groups@.len() == 0,
            r.textures@.len() == 0,
    {
        Hub {
            backend,
            devices: Storage::new(),
            buffers: Storage::new(),
            samplers: Storage::new(),
            bind_groups: Storage::new(),
            textures: Storage::new(),
        }
    }

    /// Whether `id` names a valid device.
    pub fn is_device_valid(&self, id: Id) -> (r: bool)
        ensures
            r == self.device_valid(id),
    {
        match self.devices.get(id) {
            Some(Element::Occupied(_, _)) => true,
            _ => false,
        }
    }

    /// Create a buffer on `device` under `id_in`, or under a fresh identifier
    /// when none is given. A descriptor that fails validation binds the
    /// identifier to an errored buffer and returns the error as well.
    pub fn device_create_buffer(
        &mut self,
        device: Id,
        desc: BufferDescriptor,
        id_in: Option<Id>,
    ) -> (r: (Id, Option<CreateBufferError>))
        requires
            old(self).wf(),
            id_in matches Some(id) ==> can_insert(old(self).buffers@, id),
        ensures
            final(self).wf(),
            r.0 == (match id_in {
                Some(id) => id,
                None => Id { index: old(self).buffers@.len() as usize, epoch: 1, backend: old(self).backend },
            }),
            final(self).buffers@ == inserted(
                old(self).buffers@,
                r.0,
                created_buffer(device, old(self).device_valid(device), r.0.epoch, desc),
            ),
            r.1 == (match created_buffer(device, old(self).device_valid(device), r.0.epoch, desc) {
                Element::Error(_, _, c) => Some(c),
                _ => None,
            }),
            final(self).backend == old(self).backend,
            final(self).textures == old(self).textures,
            final(self).devices == old(self).devices,
            final(self).samplers == old(self).samplers,
            final(self).bind_groups == old(self).bind_groups,
    {
        let id = match id_in {
            Some(id) => id,
            None => self.buffers.next_id(self.backend),
        };
        let device_valid = self.is_device_valid(device);
        let ghost elem = created_buffer(device, device_valid, id.epoch, desc);
        let error = if !device_valid {
            Some(CreateBufferError::Device(DeviceError::Invalid))
        } else {
            validate_buffer_desc(desc.size, desc.usage, desc.mapped_at_creation)
        };
        match error {
            Some(err) => {
                self.buffers.insert(id, Element::Error(id.epoch, desc.label, err));
            },
            None => {
                let map_state = if desc.mapped_at_creation {
                    MapState::Init
                } else {
                    MapState::Idle
                };
                let record = BufferRecord {
                    device,
                    label: desc.label,
                    size: desc.size,
                    usage: desc.usage,
                    map_state,
                };
                self.buffers.insert(id, Element::Occupied(record, id.epoch));
            },
        }
        proof {
            assert forall|i: int| 0 <= i < self.buffers@.len() implies (
            #[trigger] self.buffers@[i] matches Element::Occupied(b, _) ==> map_state_in_bounds(
                b,
            )) by {
                if i != id.index && i < old(self).buffers@.len() {
                    assert(self.buffers@[i] == old(self).buffers@[i]);
                }
            }
        }
        (id, error)
    }

    /// Bind `id_in`, or a fresh identifier when none is given, to a buffer
    /// that failed validation for `cause` before a descriptor could be built.
    pub fn create_buffer_error(&mut self, id_in: Option<Id>, label: String, cause: CreateBufferError) -> (r: Id)
        requires
            old(self).wf(),
            id_in matches Some(id) ==> can_insert(old(self).buffers@, id),
        ensures
            final(self).wf(),
            r == old(self).id_for(old(self).buffers@, id_in),
            final(self).buffers@ == inserted(
                old(self).buffers@,
                r,
                Element::Error(r.epoch, label, cause),
            ),
            final(self).backend == old(self).backend,
            final(self).textures == old(self).textures,
            final(self).devices == old(self).devices,
            final(self).samplers == old(self).samplers,
            final(self).bind_groups == old(self).bind_groups,
    {
        let id = match id_in {
            Some(id) => id,
            None => self.buffers.next_id(self.backend),
        };
        self.buffers.insert(id, Element::Error(id.epoch, label, cause));
        proof {
            assert forall|i: int| 0 <= i < self.buffers@.len() implies (
            #[trigger] self.buffers@[i] matches Element::Occupied(b, _) ==> map_state_in_bounds(
                b,
            )) by {
                if i != id.index && i < old(self).buffers@.len() {
                    assert(self.buffers@[i] == old(self).buffers@[i]);
                }
            }
        }
        id
    }

    /// Ask for `size` bytes at `offset` of the buffer `id` to be mapped for
    /// `host`; the mapping waits until the buffer's device is polled.
    pub fn buffer_map_async(&mut self, id: Id, offset: u64, size: u64, host: HostMap) -> (r: Result<
        (),
        BufferAccessError,
    >)
        requires
            old(self).wf(),
        ensures
            final(self).wf(),
            r == map_async_outcome(old(self).buffers@, id, offset, size, host),
            final(self).buffers@ == (if r is Ok {
                with_map_state(old(self).buffers@, id, MapState::Waiting { host, offset, size })
            } else {
                old(self).buffers@
            }),
            final(self).backend == old(self).backend,
            final(self).textures == old(self).textures,
            final(self).devices == old(self).devices,
            final(self).samplers == old(self).samplers,
            final(self).bind_groups == old(self).bind_groups,
    {
        let (buf_size, usage, state) = match self.buffers.get(id) {
            None => {
                return Err(BufferAccessError::Invalid);
            },
            Some(Element::Error(_, _, cause)) => {
                return Err(BufferAccessError::Errored(*cause));
            },
            Some(Element::Occupied(b, _)) => (b.size, b.usage, b.map_state),
            Some(Element::Vacant) => {
                return Err(BufferAccessError::Invalid);
            },
        };
        if offset % MAP_ALIGNMENT != 0 {
            return Err(BufferAccessError::UnalignedOffset(offset));
        }
        if size % COPY_BUFFER_ALIGNMENT != 0 {
            return Err(BufferAccessError::UnalignedRangeSize(size));
        }
        if offset > buf_size || size > buf_size - offset {
            return Err(BufferAccessError::OutOfBoundsOverrun { index: offset, max: buf_size });
        }
        let needed = match host {
            HostMap::Read => MAP_READ,
            HostMap::Write => MAP_WRITE,
        };
        if usage & needed == 0 {
            return Err(BufferAccessError::MissingUsage(needed));
        }
        match state {
            MapState::Idle => {},
            MapState::Waiting { .. } => {
                return Err(BufferAccessError::MapAlreadyPending);
            },
            _ => {
                return Err(BufferAccessError::AlreadyMapped);
            },
        }
        self.set_map_state(id, MapState::Waiting { host, offset, size });
        Ok(())
    }

    /// Set the mapping state of the valid buffer `id`.
    fn set_map_state(&mut self, id: Id, st: MapState)
        requires
            old(self).wf(),
            slot(old(self).buffers@, id) is Occupied,
            match slot(old(self).buffers@, id) {
                Element::Occupied(b, _) => map_state_in_bounds(BufferRecord { map_state: st, ..b }),
                _ => true,
            },
        ensures
            final(self).wf(),
            final(self).buffers@ == with_map_state(old(self).buffers@, id, st),
            final(self).backend == old(self).backend,
            final(self).textures == old(self).textures,
            final(self).devices == old(self).devices,
            final(self).samplers == old(self).samplers,
            final(self).bind_groups == old(self).bind_groups,
    {
        let e = self.buffers.take(id.index);
        let ne = match e {
            Element::Occupied(b, ep) => Element::Occupied(BufferRecord { map_state: st, ..b }, ep),
            other => other,
        };
        self.buffers.put(id.index, ne);
        proof {
            assert(self.buffers@ =~= with_map_state(old(self).buffers@, id, st));
            assert forall|i: int| 0 <= i < self.buffers@.len() implies (
            #[trigger] self.buffers@[i] matches Element::Occupied(b, _) ==> map_state_in_bounds(
                b,
            )) by {
                if i != id.index && i < old(self).buffers@.len() {
                    assert(self.buffers@[i] == old(self).buffers@[i]);
                }
            }
        }
    }

    /// The range at `offset` of the mapping of the buffer `id`; with no
    /// size, the range reaches the end of the mapping.
    pub fn buffer_get_mapped_range(&self, id: Id, offset: u64, size: Option<u64>) -> (r: Result<
        MappedRange,
        BufferAccessError,
    >)
        requires
            self.wf(),
        ensures
            r == mapped_range_outcome(self.buffers@, id, offset, size),
    {
        let (lo, hi) = match self.buffers.get(id) {
            None => {
                return Err(BufferAccessError::Invalid);
            },
            Some(Element::Error(_, _, cause)) => {
                return Err(BufferAccessError::Errored(*cause));
            },
            Some(Element::Occupied(b, _)) => {
                proof {
                    assert(self.buffers@[id.index as int] matches Element::Occupied(c, _)
                        && c == *b);
                }
                match b.map_state {
                    MapState::Init => (0u64, b.size),
                    MapState::Active { offset: o, size: n, .. } => (o, o + n),
                    _ => {
                        return Err(BufferAccessError::NotMapped);
                    },
                }
            },
            Some(Element::Vacant) => {
                return Err(BufferAccessError::Invalid);
            },
        };
        if offset % MAP_ALIGNMENT != 0 {
            return Err(BufferAccessError::UnalignedOffset(offset));
        }
        if offset < lo {
            return Err(BufferAccessError::OutOfBoundsUnderrun { index: offset, min: lo });
        }
        if offset > hi {
            return Err(BufferAccessError::OutOfBoundsOverrun { index: offset, max: hi });
        }
        let range_size = match size {
            Some(n) => n,
            None => hi - offset,
        };
        if range_size % COPY_BUFFER_ALIGNMENT != 0 {
            return Err(BufferAccessError::UnalignedRangeSize(range_size));
        }
        if range_size > hi - offset {
            return Err(BufferAccessError::OutOfBoundsOverrun { index: offset, max: hi });
        }
        Ok(MappedRange { offset, size: range_size })
    }

    /// The mapping state of the buffer `id`.
    pub fn buffer_map_state(&self, id: Id) -> (r: Result<MapState, BufferAccessError>)
        ensures
            r == map_state_outcome(self.buffers@, id),
    {
        match self.buffers.get(id) {
            Some(Element::Occupied(b, _)) => Ok(b.map_state),
            Some(Element::Error(_, _, c)) => Err(BufferAccessError::Errored(*c)),
            _ => Err(BufferAccessError::Invalid),
        }
    }

    /// Unmap the buffer `id`, dropping a mapping that still waits.
    pub fn buffer_unmap(&mut self, id: Id) -> (r: Result<(), BufferAccessError>)
        requires
            old(self).wf(),
        ensures
            final(self).wf(),
            r == unmap_outcome(old(self).buffers@, id),
            final(self).buffers@ == (if r is Ok {
                with_map_state(old(self).buffers@, id, MapState::Idle)
            } else {
                old(self).buffers@
            }),
            final(self).backend == old(self).backend,
            final(self).textures == old(self).textures,
            final(self).devices == old(self).devices,
            final(self).samplers == old(self).samplers,
            final(self).bind_groups == old(self).bind_groups,
    {
        match self.buffers.get(id) {
            None => {
                return Err(BufferAccessError::Invalid);
            },
            Some(Element::Error(_, _, cause)) => {
                return Err(BufferAccessError::Errored(*cause));
            },
            Some(Element::Occupied(b, _)) => {
                if b.map_state == MapState::Idle {
                    return Err(BufferAccessError::NotMapped);
                }
            },
            Some(Element::Vacant) => {
                return Err(BufferAccessError::Invalid);
            },
        }
        self.set_map_state(id, MapState::Idle);
        Ok(())
    }

    /// The label of the buffer `id`, valid or errored; empty where `id` names
    /// no buffer.
    pub fn buffer_label(&self, id: Id) -> (r: String)
        ensures
            r@ == label_of(slot(self.buffers@, id), |b: BufferRecord| b.label@),
    {
        match self.buffers.get(id) {
            Some(Element::Occupied(b, _)) => b.label.clone(),
            Some(Element::Error(_, l, _)) => l.clone(),
            _ => String::new(),
        }
    }

    /// Free the slot of the buffer `id`, valid or errored.
    pub fn buffer_drop(&mut self, id: Id)
        requires
            old(self).wf(),
        ensures
            final(self).wf(),
            final(self).buffers@ == removed(old(self).buffers@, id),
            final(self).backend == old(self).backend,
            final(self).textures == old(self).textures,
            final(self).devices == old(self).devices,
            final(self).samplers == old(self).samplers,
            final(self).bind_groups == old(self).bind_groups,
    {
        self.buffers.remove(id);
        proof {
            assert forall|i: int| 0 <= i < self.buffers@.len() implies (
            #[trigger] self.buffers@[i] matches Element::Occupied(b, _) ==> map_state_in_bounds(
                b,
            )) by {
                if i != id.index && i < old(self).buffers@.len() {
                    assert(self.buffers@[i] == old(self).buffers@[i]);
                }
            }
        }
    }

    /// Poll `device`: every mapping of one of its buffers that waits becomes
    /// active.
    pub fn device_poll(&mut self, device: Id) -> (r: Result<(), DeviceError>)
        requires
            old(self).wf(),
        ensures
            final(self).wf(),
            r is Ok <==> old(self).device_valid(device),
            final(self).buffers@ == (if r is Ok {
                polled(old(self).buffers@, device)
            } else {
                old(self).buffers@
            }),
            final(self).backend == old(self).backend,
            final(self).textures == old(self).textures,
            final(self).devices == old(self).devices,
            final(self).samplers == old(self).samplers,
            final(self).bind_groups == old(self).bind_groups,
    {
        if !self.is_device_valid(device) {
            return Err(DeviceError::Invalid);
        }
        let n = self.buffers.len();
        let mut i: usize = 0;
        while i < n
            invariant
                n == old(self).buffers@.len(),
                self.buffers@.len() == n,
                i <= n,
                buffers_wf(old(self).buffers@),
                forall|k: int|
                    0 <= k < i ==> #[trigger] self.buffers@[k] == poll_element(
                        old(self).buffers@[k],
                        device,
                    ),
                forall|k: int| i <= k < n ==> #[trigger] self.buffers@[k] == old(self).buffers@[k],
                self.backend == old(self).backend,
                self.devices == old(self).devices,
                self.samplers == old(self).samplers,
                self.bind_groups == old(self).bind_groups,
                self.textures == old(self).textures,
            decreases n - i,
        {
            let e = self.buffers.take(i);
            let ne = match e {
                Element::Occupied(b, ep) => match b.map_state {
                    MapState::Waiting { host, offset, size } => {
                        if b.device == device {
                            Element::Occupied(
                                BufferRecord {
                                    map_state: MapState::Active { host, offset, size },
                                    ..b
                                },
                                ep,
                            )
                        } else {
                            Element::Occupied(b, ep)
                        }
                    },
                    _ => Element::Occupied(b, ep),
                },
                other => other,
            };
            self.buffers.put(i, ne);
            i = i + 1;
        }
        proof {
            assert(self.buffers@ =~= polled(old(self).buffers@, device));
            assert forall|k: int| 0 <= k < self.buffers@.len() implies (
            #[trigger] self.buffers@[k] matches Element::Occupied(b, _) ==> map_state_in_bounds(
                b,
            )) by {
                assert(old(self).buffers@[k] matches Element::Occupied(b, _)
                    ==> map_state_in_bounds(b));
            }
        }
        Ok(())
    }

    /// The identifier that a creation under `id_in` uses in `s`.
    pub open spec fn id_for<T, E>(&self, s: Seq<Element<T, E>>, id_in: Option<Id>) -> Id {
        match id_in {
            Some(id) => id,
            None => Id { index: s.len() as usize, epoch: 1, backend: self.backend },
        }
    }

    /// Register a device labelled `label` under `id_in`, or under a fresh
    /// identifier when none is given.
    pub fn request_device(&mut self, label: String, id_in: Option<Id>) -> (r: Id)
        requires
            old(self).wf(),
            id_in matches Some(id) ==> can_insert(old(self).devices@, id),
        ensures
            final(self).wf(),
            r == old(self).id_for(old(self).devices@, id_in),
            final(self).devices@ == inserted(
                old(self).devices@,
                r,
                Element::Occupied(DeviceRecord { label }, r.epoch),
            ),
            final(self).backend == old(self).backend,
            final(self).textures == old(self).textures,
            final(self).buffers == old(self).buffers,
            final(self).samplers == old(self).samplers,
            final(self).bind_groups == old(self).bind_groups,
    {
        let id = match id_in {
            Some(id) => id,
            None => self.devices.next_id(self.backend),
        };
        self.devices.insert(id, Element::Occupied(DeviceRecord { label }, id.epoch));
        id
    }

    /// Free the slot of the device `id`.
    pub fn device_drop(&mut self, id: Id)
        requires
            old(self).wf(),
        ensures
            final(self).wf(),
            final(self).devices@ == removed(old(self).devices@, id),
            final(self).backend == old(self).backend,
            final(self).textures == old(self).textures,
            final(self).buffers == old(self).buffers,
            final(self).samplers == old(self).samplers,
            final(self).bind_groups == old(self).bind_groups,
    {
        self.devices.remove(id);
    }

    /// Create a sampler on `device` under `id_in`, or under a fresh
    /// identifier when none is given. A descriptor that fails validation
    /// binds the identifier to an errored sampler and returns the error too.
    pub fn device_create_sampler(
        &mut self,
        device: Id,
        desc: SamplerDescriptor,
        id_in: Option<Id>,
    ) -> (r: (Id, Option<CreateSamplerError>))
        requires
            old(self).wf(),
            id_in matches Some(id) ==> can_insert(old(self).samplers@, id),
        ensures
            final(self).wf(),
            r.0 == old(self).id_for(old(self).samplers@, id_in),
            final(self).samplers@ == inserted(
                old(self).samplers@,
                r.0,
                created_sampler(device, old(self).device_valid(device), r.0.epoch, desc),
            ),
            r.1 == error_of(
                created_sampler(device, old(self).device_valid(device), r.0.epoch, desc),
            ),
            final(self).backend == old(self).backend,
            final(self).textures == old(self).textures,
            final(self).devices == old(self).devices,
            final(self).buffers == old(self).buffers,
            final(self).bind_groups == old(self).bind_groups,
    {
        let id = match id_in {
            Some(id) => id,
            None => self.samplers.next_id(self.backend),
        };
        let device_valid = self.is_device_valid(device);
        let error = if !device_valid {
            Some(CreateSamplerError::Device(DeviceError::Invalid))
        } else {
            validate_sampler_desc(&desc)
        };
        match error {
            Some(err) => {
                self.samplers.insert(id, Element::Error(id.epoch, desc.label, err));
            },
            None => {
                let record = SamplerRecord {
                    device,
                    label: desc.label,
                    address_mode_u: desc.address_mode_u,
                    address_mode_v: desc.address_mode_v,
                    address_mode_w: desc.address_mode_w,
                    mag_filter: desc.mag_filter,
                    min_filter: desc.min_filter,
                    mipmap_filter: desc.mipmap_filter,
                    compare: desc.compare,
                    anisotropy_clamp: desc.anisotropy_clamp,
                };
                self.samplers.insert(id, Element::Occupied(record, id.epoch));
            },
        }
        (id, error)
    }

    /// The label of the sampler `id`, valid or errored; empty where `id`
    /// names no sampler.
    pub fn sampler_label(&self, id: Id) -> (r: String)
        ensures
            r@ == label_of(slot(self.samplers@, id), |b: SamplerRecord| b.label@),
    {
        match self.samplers.get(id) {
            Some(Element::Occupied(b, _)) => b.label.clone(),
            Some(Element::Error(_, l, _)) => l.clone(),
            _ => String::new(),
        }
    }

    /// Free the slot of the sampler `id`, valid or errored.
    pub fn sampler_drop(&mut self, id: Id)
        requires
            old(self).wf(),
        ensures
            final(self).wf(),
            final(self).samplers@ == removed(old(self).samplers@, id),
            final(self).backend == old(self).backend,
            final(self).textures == old(self).textures,
            final(self).devices == old(self).devices,
            final(self).buffers == old(self).buffers,
            final(self).bind_groups == old(self).bind_groups,
    {
        self.samplers.remove(id);
    }

    /// The error, if any, of the bind group entries `es` on `device`.
    fn validate_entries(&self, device: Id, es: &Vec<BindGroupEntry>) -> (r: Option<
        CreateBindGroupError,
    >)
        ensures
            r == entries_error_from(self.buffers@, device, es@, 0),
    {
        let mut i: usize = 0;
        while i < es.len()
            invariant
                i <= es@.len(),
                entries_error_from(self.buffers@, device, es@, 0) == entries_error_from(
                    self.buffers@,
                    device,
                    es@,
                    i as int,
                ),
            decreases es@.len() - i,
        {
            let e = es[i];
            let mut j: usize = 0;
            while j < i
                invariant
                    i < es@.len(),
                    e == es@[i as int],
                    entries_error_from(self.buffers@, device, es@, 0) == entries_error_from(
                        self.buffers@,
                        device,
                        es@,
                        i as int,
                    ),
                    j <= i,
                    forall|k: int| 0 <= k < j ==> #[trigger] es@[k].binding != e.binding,
                decreases i - j,
            {
                if es[j].binding == e.binding {
                    proof {
                        assert(es@[j as int].binding == es@[i as int].binding);
                        assert(entry_error(self.buffers@, device, es@, i as int) == Some(
                            CreateBindGroupError::DuplicateBinding(e.binding),
                        ));
                        assert(entries_error_from(self.buffers@, device, es@, i as int) == Some(
                            CreateBindGroupError::DuplicateBinding(e.binding),
                        ));
                    }
                    return Some(CreateBindGroupError::DuplicateBinding(e.binding));
                }
                j = j + 1;
            }
            let err = match self.buffers.get(e.buffer) {
                None => Some(CreateBindGroupError::InvalidBuffer(e.buffer)),
                Some(Element::Error(_, _, c)) => Some(
                    CreateBindGroupError::ErroredBuffer(e.buffer, *c),
                ),
                Some(Element::Occupied(b, _)) => {
                    if b.device != device {
                        Some(CreateBindGroupError::InvalidBuffer(e.buffer))
                    } else if b.usage & (UNIFORM | STORAGE) == 0 {
                        Some(CreateBindGroupError::MissingBufferUsage(e.buffer))
                    } else {
                        None
                    }
                },
                Some(Element::Vacant) => Some(CreateBindGroupError::InvalidBuffer(e.buffer)),
            };
            proof {
                assert(err == entry_error(self.buffers@, device, es@, i as int));
            }
            if err.is_some() {
                return err;
            }
            i = i + 1;
        }
        None
    }

    /// Create a bind group on `device` under `id_in`, or under a fresh
    /// identifier when none is given. A descriptor that fails validation
    /// binds the identifier to an errored bind group and returns the error
    /// too.
    pub fn device_create_bind_group(
        &mut self,
        device: Id,
        desc: BindGroupDescriptor,
        id_in: Option<Id>,
    ) -> (r: (Id, Option<CreateBindGroupError>))
        requires
            old(self).wf(),
            id_in matches Some(id) ==> can_insert(old(self).bind_groups@, id),
        ensures
            final(self).wf(),
            r.0 == old(self).id_for(old(self).bind_groups@, id_in),
            final(self).bind_groups@ == inserted(
                old(self).bind_groups@,
                r.0,
                created_bind_group(
                    old(self).buffers@,
                    device,
                    old(self).device_valid(device),
                    r.0.epoch,
                    desc,
                ),
            ),
            r.1 == error_of(
                created_bind_group(
                    old(self).buffers@,
                    device,
                    old(self).device_valid(device),
                    r.0.epoch,
                    desc,
                ),
            ),
            final(self).backend == old(self).backend,
            final(self).textures == old(self).textures,
            final(self).devices == old(self).devices,
            final(self).buffers == old(self).buffers,
            final(self).samplers == old(self).samplers,
    {
        let id = match id_in {
            Some(id) => id,
            None => self.bind_groups.next_id(self.backend),
        };
        let device_valid = self.is_device_valid(device);
        let error = if !device_valid {
            Some(CreateBindGroupError::Device(DeviceError::Invalid))
        } else {
            self.validate_entries(device, &desc.entries)
        };
        match error {
            Some(err) => {
                self.bind_groups.insert(id, Element::Error(id.epoch, desc.label, err));
            },
            None => {
                let record = BindGroupRecord { device, label: desc.label, entries: desc.entries };
                self.bind_groups.insert(id, Element::Occupied(record, id.epoch));
            },
        }
        (id, error)
    }

    /// The label of the bind group `id`, valid or errored; empty where `id`
    /// names no bind group.
    pub fn bind_group_label(&self, id: Id) -> (r: String)
        ensures
            r@ == label_of(slot(self.bind_groups@, id), |b: BindGroupRecord| b.label@),
    {
        match self.bind_groups.get(id) {
            Some(Element::Occupied(b, _)) => b.label.clone(),
            Some(Element::Error(_, l, _)) => l.clone(),
            _ => String::new(),
        }
    }

    /// Free the slot of the bind group `id`, valid or errored.
    pub fn bind_group_drop(&mut self, id: Id)
        requires
            old(self).wf(),
        ensures
            final(self).wf(),
            final(self).bind_groups@ == removed(old(self).bind_groups@, id),
            final(self).backend == old(self).backend,
            final(self).textures == old(self).textures,
            final(self).devices == old(self).devices,
            final(self).buffers == old(self).buffers,
            final(self).samplers == old(self).samplers,
    {
        self.bind_groups.remove(id);
    }

    /// The census of every registry of the hub.
    pub open spec fn generate_report_spec(&self) -> HubReport {
        HubReport {
            devices: report_of(self.devices@),
            buffers: report_of(self.buffers@),
            samplers: report_of(self.samplers@),
            bind_groups: report_of(self.bind_groups@),
            textures: report_of(self.textures@),
        }
    }

    /// A census of every registry of the hub.
    pub fn generate_report(&self) -> (r: HubReport)
        ensures
            r == self.generate_report_spec(),
    {
        HubReport {
            devices: self.devices.generate_report(),
            buffers: self.buffers.generate_report(),
            samplers: self.samplers.generate_report(),
            bind_groups: self.bind_groups.generate_report(),
            textures: self.textures.generate_report(),
        }
    }

    /// Destroy every resource of the hub.
    pub fn clear(&mut self)
        ensures
            final(self).wf(),
            final(self).backend == old(self).backend,
            final(self).devices@.len() == 0,
            final(self).buffers@.len() == 0,
            final(self).samplers@.len() == 0,
            final(self).bind_groups@.len() == 0,
            final(self).textures@.len() == 0,
    {
        self.textures.clear();
        self.bind_groups.clear();
        self.samplers.clear();
        self.buffers.clear();
        self.devices.clear();
    }

    /// Create a texture on `device` under `id_in`, or under a fresh
    /// identifier when none is given. A descriptor that fails validation
    /// binds the identifier to an errored texture and returns the error too.
    pub fn device_create_texture(
        &mut self,
        device: Id,
        desc: TextureDescriptor,
        id_in: Option<Id>,
    ) -> (r: (Id, Option<CreateTextureError>))
        requires
            old(self).wf(),
            id_in matches Some(id) ==> can_insert(old(self).textures@, id),
        ensures
            final(self).wf(),
            r.0 == old(self).id_for(old(self).textures@, id_in),
            final(self).textures@ == inserted(
                old(self).textures@,
                r.0,
                created_texture(device, old(self).device_valid(device), r.0.epoch, desc),
            ),
            r.1 == error_of(
                created_texture(device, old(self).device_valid(device), r.0.epoch, desc),
            ),
            same_except_textures(*old(self), *final(self)),
    {
        let id = match id_in {
            Some(id) => id,
            None => self.textures.next_id(self.backend),
        };
        let device_valid = self.is_device_valid(device);
        let error = if !device_valid {
            Some(CreateTextureError::Device(DeviceError::Invalid))
        } else {
            validate_texture_desc(&desc)
        };
        match error {
            Some(err) => {
                self.textures.insert(id, Element::Error(id.epoch, desc.label, err));
            },
            None => {
                let record = TextureRecord {
                    device,
                    label: desc.label,
                    width: desc.width,
                    height: desc.height,
                    depth_or_array_layers: desc.depth_or_array_layers,
                    mip_level_count: desc.mip_level_count,
                    sample_count: desc.sample_count,
                    usage: desc.usage,
                };
                self.textures.insert(id, Element::Occupied(record, id.epoch));
            },
        }
        (id, error)
    }

    /// Bind `id_in`, or a fresh identifier when none is given, to a texture
    /// that failed validation for `cause` before a descriptor could be built.
    pub fn create_texture_error(&mut self, id_in: Option<Id>, label: String, cause: CreateTextureError) -> (r: Id)
        requires
            old(self).wf(),
            id_in matches Some(id) ==> can_insert(old(self).textures@, id),
        ensures
            r == old(self).id_for(old(self).textures@, id_in),
            final(self).textures@ == inserted(
                old(self).textures@,
                r,
                Element::Error(r.epoch, label, cause),
            ),
            same_except_textures(*old(self), *final(self)),
    {
        let id = match id_in {
            Some(id) => id,
            None => self.textures.next_id(self.backend),
        };
        self.textures.insert(id, Element::Error(id.epoch, label, cause));
        id
    }

    /// The label of the texture `id`, valid or errored; empty where `id`
    /// names no texture.
    pub fn texture_label(&self, id: Id) -> (r: String)
        ensures
            r@ == label_of(slot(self.textures@, id), |t: TextureRecord| t.label@),
    {
        match self.textures.get(id) {
            Some(Element::Occupied(t, _)) => t.label.clone(),
            Some(Element::Error(_, l, _)) => l.clone(),
            _ => String::new(),
        }
    }

    /// Free the slot of the texture `id`, valid or errored.
    pub fn texture_drop(&mut self, id: Id)
        requires
            old(self).wf(),
        ensures
            final(self).textures@ == removed(old(self).textures@, id),
            same_except_textures(*old(self), *final(self)),
    {
        self.textures.remove(id);
    }
}

} // verus!
