use vstd::prelude::*;

use crate::core_table::CoreTable;
use crate::global::{hub_of, only_hub_changed, Global};
use crate::hub::{
    created_buffer, created_sampler, error_of, map_async_outcome, mapped_range_outcome, polled,
    same_except_buffers, same_except_samplers, unmap_outcome, with_map_state,
};
use crate::id::Id;
use crate::resource::{
    buffer_usages_from_bits, usage_bits_known, BufferAccessError, BufferDescriptor,
    CreateBufferError, CreateSamplerError, HostMap, MapState, MappedRange, SamplerDescriptor,
};
use crate::storage::{inserted, lemma_slot_after_insert, slot, Element};

verus! {

/// A device as the host bindings hold it: its identifier and the table of
/// its backend.
#[derive(Clone, Copy, Debug, PartialEq, Eq, Structural)]
pub struct WebGpuDevice {
    pub id: Id,
    pub core: CoreTable,
}

/// A buffer as the host bindings hold it.
#[derive(Clone, Copy, Debug, PartialEq, Eq, Structural)]
pub struct WebGpuBuffer {
    pub id: Id,
    pub core: CoreTable,
}

/// A sampler as the host bindings hold it.
#[derive(Clone, Copy, Debug, PartialEq, Eq, Structural)]
pub struct WebGpuSampler {
    pub id: Id,
    pub core: CoreTable,
}

/// Whether a device handle's identifier belongs to its table's backend.
pub open spec fn device_ok(d: WebGpuDevice) -> bool {
    d.id.backend == d.core.spec_backend()
}

/// Whether a buffer handle's identifier belongs to its table's backend.
pub open spec fn buffer_ok(b: WebGpuBuffer) -> bool {
    b.id.backend == b.core.spec_backend()
}

/// The host mapping that a mode number asks for: 1 reads, 2 writes.
pub open spec fn host_of_mode(mode: u32) -> HostMap {
    if mode == 1 {
        HostMap::Read
    } else {
        HostMap::Write
    }
}

/// Create a buffer on `device`. A usage bitmask with undefined bits cannot
/// form a descriptor: the identifier is then bound to an errored buffer
/// whose cause is that usage, and the same error is returned. Otherwise the
/// buffer is created, errored or valid, as the device decides.
pub fn op_webgpu_create_buffer(
    global: &mut Global,
    device: WebGpuDevice,
    label: String,
    size: u64,
    usage: u32,
    mapped_at_creation: bool,
) -> (r: (WebGpuBuffer, Option<CreateBufferError>))
    requires
        old(global).wf(),
        device_ok(device),
    ensures
        only_hub_changed(*old(global), *final(global), device.core.spec_backend()),
        r.0.core == device.core,
        buffer_ok(r.0),
        ({
            let h0 = hub_of(*old(global), device.core.spec_backend());
            let h1 = hub_of(*final(global), device.core.spec_backend());
            let id = r.0.id;
            let e = if !usage_bits_known(usage) {
                Element::Error(id.epoch, label, CreateBufferError::InvalidUsage(usage))
            } else {
                created_buffer(
                    device.id,
                    h0.device_valid(device.id),
                    id.epoch,
                    BufferDescriptor { label, size, usage, mapped_at_creation },
                )
            };
            &&& id == h0.id_for(h0.buffers@, None)
            &&& h1.buffers@ == inserted(h0.buffers@, id, e)
            &&& r.1 == error_of(e)
            &&& same_except_buffers(h0, h1)
        }),
{
    let core = device.core;
    let _ = core.backend();
    match buffer_usages_from_bits(usage) {
        None => {
            let cause = CreateBufferError::InvalidUsage(usage);
            let id = core.create_buffer_error(global, None, label, cause);
            (WebGpuBuffer { id, core }, Some(cause))
        },
        Some(usage) => {
            let desc = BufferDescriptor { label, size, usage, mapped_at_creation };
            let (id, err) = core.device_create_buffer(global, device.id, desc, None);
            (WebGpuBuffer { id, core }, err)
        },
    }
}

/// Ask for `size` bytes at `offset` of `buffer` to be mapped: mode 1 maps
/// for reading, mode 2 for writing.
pub fn op_webgpu_buffer_get_map_async(
    global: &mut Global,
    buffer: WebGpuBuffer,
    mode: u32,
    offset: u64,
    size: u64,
) -> (r: Result<(), BufferAccessError>)
    requires
        old(global).wf(),
        buffer_ok(buffer),
        mode == 1 || mode == 2,
    ensures
        only_hub_changed(*old(global), *final(global), buffer.core.spec_backend()),
        ({
            let h0 = hub_of(*old(global), buffer.core.spec_backend());
            let h1 = hub_of(*final(global), buffer.core.spec_backend());
            let host = host_of_mode(mode);
            &&& r == map_async_outcome(h0.buffers@, buffer.id, offset, size, host)
            &&& h1.buffers@ == (if r is Ok {
                with_map_state(h0.buffers@, buffer.id, MapState::Waiting { host, offset, size })
            } else {
                h0.buffers@
            })
            &&& same_except_buffers(h0, h1)
        }),
{
    let host = if mode == 1 {
        HostMap::Read
    } else {
        HostMap::Write
    };
    buffer.core.buffer_map_async(global, buffer.id, offset, size, host)
}

/// What one turn of waiting for a mapping found.
#[derive(Clone, Copy, Debug, PartialEq, Eq, Structural)]
pub enum MapPoll {
    /// The buffer is mapped.
    Mapped,
    /// The mapping failed, for this reason.
    Failed(BufferAccessError),
    /// The mapping still waits; poll again later.
    Pending,
}

/// What one turn of waiting for a mapping of a buffer in slots `s` finds.
pub open spec fn map_poll_outcome(s: crate::hub::BufferSlots, id: Id) -> MapPoll {
    match slot(s, id) {
        Element::Vacant => MapPoll::Failed(BufferAccessError::Invalid),
        Element::Error(_, _, c) => MapPoll::Failed(BufferAccessError::Errored(c)),
        Element::Occupied(b, _) => match b.map_state {
            MapState::Active { .. } => MapPoll::Mapped,
            MapState::Init => MapPoll::Mapped,
            MapState::Waiting { .. } => MapPoll::Pending,
            MapState::Idle => MapPoll::Failed(BufferAccessError::NotMapped),
        },
    }
}

/// One turn of waiting for a mapping of `buffer`: poll `device` once, then
/// report whether the mapping is settled.
pub fn op_webgpu_buffer_map_poll(
    global: &mut Global,
    buffer: WebGpuBuffer,
    device: WebGpuDevice,
) -> (r: MapPoll)
    requires
        old(global).wf(),
        buffer_ok(buffer),
        device_ok(device),
        device.core == buffer.core,
    ensures
        only_hub_changed(*old(global), *final(global), buffer.core.spec_backend()),
        ({
            let h0 = hub_of(*old(global), buffer.core.spec_backend());
            let h1 = hub_of(*final(global), buffer.core.spec_backend());
            &&& h0.device_valid(device.id) ==> h1.buffers@ == polled(h0.buffers@, device.id)
                && r == map_poll_outcome(h1.buffers@, buffer.id)
            &&& !h0.device_valid(device.id) ==> h1.buffers@ == h0.buffers@ && r == MapPoll::Failed(
                BufferAccessError::Invalid,
            )
            &&& same_except_buffers(h0, h1)
        }),
{
    let core = buffer.core;
    if core.device_poll(global, device.id).is_err() {
        return MapPoll::Failed(BufferAccessError::Invalid);
    }
    match core.buffer_map_state(global, buffer.id) {
        Err(e) => MapPoll::Failed(e),
        Ok(MapState::Waiting { .. }) => MapPoll::Pending,
        Ok(MapState::Idle) => MapPoll::Failed(BufferAccessError::NotMapped),
        Ok(_) => MapPoll::Mapped,
    }
}

/// The mapped range at `offset` of `buffer`; with no size, the range
/// reaches the end of the mapping.
pub fn op_webgpu_buffer_get_mapped_range(
    global: &Global,
    buffer: WebGpuBuffer,
    offset: u64,
    size: Option<u64>,
) -> (r: Result<MappedRange, BufferAccessError>)
    requires
        global.wf(),
        buffer_ok(buffer),
    ensures
        r == mapped_range_outcome(hub_of(*global, buffer.core.spec_backend()).buffers@, buffer.id, offset, size),
{
    buffer.core.buffer_get_mapped_range(global, buffer.id, offset, size)
}

/// Unmap `buffer`.
pub fn op_webgpu_buffer_unmap(global: &mut Global, buffer: WebGpuBuffer) -> (r: Result<
    (),
    BufferAccessError,
>)
    requires
        old(global).wf(),
        buffer_ok(buffer),
    ensures
        only_hub_changed(*old(global), *final(global), buffer.core.spec_backend()),
        ({
            let h0 = hub_of(*old(global), buffer.core.spec_backend());
            let h1 = hub_of(*final(global), buffer.core.spec_backend());
            &&& r == unmap_outcome(h0.buffers@, buffer.id)
            &&& h1.buffers@ == (if r is Ok {
                with_map_state(h0.buffers@, buffer.id, MapState::Idle)
            } else {
                h0.buffers@
            })
            &&& same_except_buffers(h0, h1)
        }),
{
    buffer.core.buffer_unmap(global, buffer.id)
}

/// Create a sampler on `device`.
pub fn op_webgpu_create_sampler(
    global: &mut Global,
    device: WebGpuDevice,
    desc: SamplerDescriptor,
) -> (r: (WebGpuSampler, Option<CreateSamplerError>))
    requires
        old(global).wf(),
        device_ok(device),
    ensures
        only_hub_changed(*old(global), *final(global), device.core.spec_backend()),
        r.0.core == device.core,
        r.0.id.backend == device.core.spec_backend(),
        ({
            let h0 = hub_of(*old(global), device.core.spec_backend());
            let h1 = hub_of(*final(global), device.core.spec_backend());
            let e = created_sampler(device.id, h0.device_valid(device.id), r.0.id.epoch, desc);
            &&& r.0.id == h0.id_for(h0.samplers@, None)
            &&& h1.samplers@ == inserted(h0.samplers@, r.0.id, e)
            &&& r.1 == error_of(e)
            &&& same_except_samplers(h0, h1)
        }),
        r.1 is None ==> (slot(
            hub_of(*final(global), device.core.spec_backend()).samplers@,
            r.0.id,
        ) matches Element::Occupied(s, _) && s.device == device.id && s.label == desc.label
            && s.address_mode_u == desc.address_mode_u && s.address_mode_v == desc.address_mode_v
            && s.address_mode_w == desc.address_mode_w && s.mag_filter == desc.mag_filter
            && s.min_filter == desc.min_filter && s.mipmap_filter == desc.mipmap_filter
            && s.compare == desc.compare && s.anisotropy_clamp == desc.anisotropy_clamp),
{
    let _ = device.core.backend();
    let ghost h0 = hub_of(*global, device.core.spec_backend());
    let ghost d = desc;
    let (id, err) = device.core.device_create_sampler(global, device.id, desc, None);
    proof {
        lemma_slot_after_insert(
            h0.samplers@,
            id,
            created_sampler(device.id, h0.device_valid(device.id), id.epoch, d),
        );
    }
    (WebGpuSampler { id, core: device.core }, err)
}

} // verus!
