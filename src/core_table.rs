use vstd::prelude::*;

use crate::backend::{backend_of_tag, compiled_in, lemma_tag_round_trip, tag_of, Backend};
use crate::global::{hub_of, only_hub_changed, Global};
use crate::hub::{
    created_bind_group, created_buffer, created_sampler, created_texture, error_of, label_of, map_async_outcome,
    map_state_outcome, mapped_range_outcome, polled, same_except_bind_groups, same_except_buffers,
    same_except_devices, same_except_samplers, same_except_textures, unmap_outcome,
    with_map_state,
};
use crate::id::Id;
use crate::resource::{
    BindGroupDescriptor, BindGroupRecord, BufferAccessError, BufferDescriptor, BufferRecord,
    CreateBindGroupError, CreateBufferError, CreateSamplerError, DeviceError, DeviceRecord,
    HostMap, MapState, MappedRange, SamplerDescriptor, SamplerRecord, CreateTextureError,
    TextureDescriptor, TextureRecord,
};
use crate::storage::{can_insert, inserted, removed, slot, Element};

verus! {

/// The table of operations of one compiled-in backend. Exactly one table
/// exists per compiled-in backend, so two tables are equal exactly when
/// they belong to the same backend. Every operation forwards its arguments
/// to that backend's hub and returns what the hub returns.
#[derive(Clone, Copy, Debug, PartialEq, Eq, Structural)]
pub struct CoreTable {
    backend: Backend,
}

/// Why a serialized table could not be read back.
#[derive(Clone, Copy, Debug, PartialEq, Eq, Structural)]
pub enum TableError {
    /// The tag names no backend.
    UnknownTag(u8),
    /// The backend is not compiled into this build.
    UnsupportedBackend(Backend),
}

impl CoreTable {
    #[verifier::type_invariant]
    spec fn inv(&self) -> bool {
        compiled_in(self.backend)
    }

    /// The backend this table belongs to.
    pub closed spec fn spec_backend(&self) -> Backend {
        self.backend
    }

    /// The backend this table belongs to.
    pub fn backend(&self) -> (r: Backend)
        ensures
            r == self.spec_backend(),
            compiled_in(r),
    {
        proof {
            use_type_invariant(self);
        }
        self.backend
    }

    /// The table of `backend`, which must be compiled in.
    pub fn from_backend(backend: Backend) -> (r: Self)
        requires
            compiled_in(backend),
        ensures
            r.spec_backend() == backend,
    {
        CoreTable { backend }
    }

    /// The table of `backend`, or `None` when it is not compiled in.
    pub fn try_from_backend(backend: Backend) -> (r: Option<Self>)
        ensures
            r is Some <==> compiled_in(backend),
            r matches Some(t) ==> t.spec_backend() == backend,
    {
        if backend.is_compiled_in() {
            Some(CoreTable { backend })
        } else {
            None
        }
    }

    /// The serialized form of the table: its backend's tag.
    pub fn serialize(&self) -> (r: u8)
        ensures
            r == tag_of(self.spec_backend()),
    {
        self.backend.to_tag()
    }

    /// Read a table back from its serialized form, failing when the tag
    /// names no backend or one that is not compiled into this build.
    pub fn deserialize(tag: u8) -> (r: Result<Self, TableError>)
        ensures
            r == deserialize_outcome(tag),
    {
        match Backend::from_tag(tag) {
            None => Err(TableError::UnknownTag(tag)),
            Some(backend) => match Self::try_from_backend(backend) {
                Some(core) => Ok(core),
                None => Err(TableError::UnsupportedBackend(backend)),
            },
        }
    }

    /// Register a device labelled `label`; see [`Hub::request_device`].
    pub fn request_device(&self, global: &mut Global, label: String, id_in: Option<Id>) -> (r: Id)
        requires
            old(global).wf(),
            ({
                let h0 = hub_of(*old(global), self.spec_backend());
                id_in matches Some(id) ==> can_insert(h0.devices@, id) && id.backend == self.spec_backend()
            }),
        ensures
            only_hub_changed(*old(global), *final(global), self.spec_backend()),
            ({
                let h0 = hub_of(*old(global), self.spec_backend());
                let h1 = hub_of(*final(global), self.spec_backend());
                &&& r == h0.id_for(h0.devices@, id_in)
                &&& h1.devices@ == inserted(h0.devices@, r, Element::Occupied(DeviceRecord { label }, r.epoch))
                &&& same_except_devices(h0, h1)
            }),
    {
        proof {
            use_type_invariant(self);
        }
        match self.backend {
            Backend::Vulkan => global.backends.vulkan.hub.request_device(label, id_in),
            _ => global.backends.gl.hub.request_device(label, id_in),
        }
    }

    /// Free the slot of the device `device_id`.
    pub fn device_drop(&self, global: &mut Global, device_id: Id)
        requires
            old(global).wf(),
            ({
                let h0 = hub_of(*old(global), self.spec_backend());
                device_id.backend == self.spec_backend()
            }),
        ensures
            only_hub_changed(*old(global), *final(global), self.spec_backend()),
            ({
                let h0 = hub_of(*old(global), self.spec_backend());
                let h1 = hub_of(*final(global), self.spec_backend());
                &&& h1.devices@ == removed(h0.devices@, device_id)
                &&& same_except_devices(h0, h1)
            }),
    {
        proof {
            use_type_invariant(self);
        }
        match self.backend {
            Backend::Vulkan => global.backends.vulkan.hub.device_drop(device_id),
            _ => global.backends.gl.hub.device_drop(device_id),
        }
    }

    /// Poll the device `device_id`, making its waiting mappings active.
    pub fn device_poll(&self, global: &mut Global, device_id: Id) -> (r: Result<(), DeviceError>)
        requires
            old(global).wf(),
            ({
                let h0 = hub_of(*old(global), self.spec_backend());
                device_id.backend == self.spec_backend()
            }),
        ensures
            only_hub_changed(*old(global), *final(global), self.spec_backend()),
            ({
                let h0 = hub_of(*old(global), self.spec_backend());
                let h1 = hub_of(*final(global), self.spec_backend());
                &&& r is Ok <==> h0.device_valid(device_id)
                &&& h1.buffers@ == (if r is Ok { polled(h0.buffers@, device_id) } else { h0.buffers@ })
                &&& same_except_buffers(h0, h1)
            }),
    {
        proof {
            use_type_invariant(self);
        }
        match self.backend {
            Backend::Vulkan => global.backends.vulkan.hub.device_poll(device_id),
            _ => global.backends.gl.hub.device_poll(device_id),
        }
    }

    /// Create a buffer; see [`Hub::device_create_buffer`].
    pub fn device_create_buffer(&self, global: &mut Global, device_id: Id, desc: BufferDescriptor, id_in: Option<Id>) -> (r: (Id, Option<CreateBufferError>))
        requires
            old(global).wf(),
            ({
                let h0 = hub_of(*old(global), self.spec_backend());
                device_id.backend == self.spec_backend()
            }),
            ({
                let h0 = hub_of(*old(global), self.spec_backend());
                id_in matches Some(id) ==> can_insert(h0.buffers@, id) && id.backend == self.spec_backend()
            }),
        ensures
            only_hub_changed(*old(global), *final(global), self.spec_backend()),
            ({
                let h0 = hub_of(*old(global), self.spec_backend());
                let h1 = hub_of(*final(global), self.spec_backend());
                &&& r.0 == h0.id_for(h0.buffers@, id_in)
                &&& h1.buffers@ == inserted(h0.buffers@, r.0, created_buffer(device_id, h0.device_valid(device_id), r.0.epoch, desc))
                &&& r.1 == error_of(created_buffer(device_id, h0.device_valid(device_id), r.0.epoch, desc))
                &&& same_except_buffers(h0, h1)
            }),
    {
        proof {
            use_type_invariant(self);
        }
        match self.backend {
            Backend::Vulkan => global.backends.vulkan.hub.device_create_buffer(device_id, desc, id_in),
            _ => global.backends.gl.hub.device_create_buffer(device_id, desc, id_in),
        }
    }

    /// Bind `id_in`, or a fresh identifier when none is given, to a buffer
    /// that failed validation for `cause` before a descriptor could be built.
    /// Every later use of the identifier fails with that cause.
    pub fn create_buffer_error(&self, global: &mut Global, id_in: Option<Id>, label: String, cause: CreateBufferError) -> (r: Id)
        requires
            old(global).wf(),
            ({
                let h0 = hub_of(*old(global), self.spec_backend());
                id_in matches Some(id) ==> can_insert(h0.buffers@, id) && id.backend == self.spec_backend()
            }),
        ensures
            only_hub_changed(*old(global), *final(global), self.spec_backend()),
            ({
                let h0 = hub_of(*old(global), self.spec_backend());
                let h1 = hub_of(*final(global), self.spec_backend());
                &&& r == h0.id_for(h0.buffers@, id_in)
                &&& h1.buffers@ == inserted(h0.buffers@, r, Element::Error(r.epoch, label, cause))
                &&& same_except_buffers(h0, h1)
            }),
    {
        proof {
            use_type_invariant(self);
        }
        match self.backend {
            Backend::Vulkan => global.backends.vulkan.hub.create_buffer_error(id_in, label, cause),
            _ => global.backends.gl.hub.create_buffer_error(id_in, label, cause),
        }
    }

    /// The label of the buffer `id`.
    pub fn buffer_label(&self, global: &Global, id: Id) -> (r: String)
        requires
            global.wf(),
            ({
                let h0 = hub_of(*global, self.spec_backend());
                id.backend == self.spec_backend()
            }),
        ensures
            ({
                let h0 = hub_of(*global, self.spec_backend());
                &&& r@ == label_of(slot(h0.buffers@, id), |b: BufferRecord| b.label@)
            }),
    {
        proof {
            use_type_invariant(self);
        }
        match self.backend {
            Backend::Vulkan => global.backends.vulkan.hub.buffer_label(id),
            _ => global.backends.gl.hub.buffer_label(id),
        }
    }

    /// Ask for a range of the buffer `id` to be mapped; see [`Hub::buffer_map_async`].
    pub fn buffer_map_async(&self, global: &mut Global, id: Id, offset: u64, size: u64, host: HostMap) -> (r: Result<(), BufferAccessError>)
        requires
            old(global).wf(),
            ({
                let h0 = hub_of(*old(global), self.spec_backend());
                id.backend == self.spec_backend()
            }),
        ensures
            only_hub_changed(*old(global), *final(global), self.spec_backend()),
            ({
                let h0 = hub_of(*old(global), self.spec_backend());
                let h1 = hub_of(*final(global), self.spec_backend());
                &&& r == map_async_outcome(h0.buffers@, id, offset, size, host)
                &&& h1.buffers@ == (if r is Ok { with_map_state(h0.buffers@, id, MapState::Waiting { host, offset, size }) } else { h0.buffers@ })
                &&& same_except_buffers(h0, h1)
            }),
    {
        proof {
            use_type_invariant(self);
        }
        match self.backend {
            Backend::Vulkan => global.backends.vulkan.hub.buffer_map_async(id, offset, size, host),
            _ => global.backends.gl.hub.buffer_map_async(id, offset, size, host),
        }
    }

    /// The mapped range at `offset` of the buffer `id`; see [`Hub::buffer_get_mapped_range`].
    pub fn buffer_get_mapped_range(&self, global: &Global, id: Id, offset: u64, size: Option<u64>) -> (r: Result<MappedRange, BufferAccessError>)
        requires
            global.wf(),
            ({
                let h0 = hub_of(*global, self.spec_backend());
                id.backend == self.spec_backend()
            }),
        ensures
            ({
                let h0 = hub_of(*global, self.spec_backend());
                &&& r == mapped_range_outcome(h0.buffers@, id, offset, size)
            }),
    {
        proof {
            use_type_invariant(self);
        }
        match self.backend {
            Backend::Vulkan => global.backends.vulkan.hub.buffer_get_mapped_range(id, offset, size),
            _ => global.backends.gl.hub.buffer_get_mapped_range(id, offset, size),
        }
    }

    /// The mapping state of the buffer `id`.
    pub fn buffer_map_state(&self, global: &Global, id: Id) -> (r: Result<MapState, BufferAccessError>)
        requires
            global.wf(),
            id.backend == self.spec_backend(),
        ensures
            r == map_state_outcome(hub_of(*global, self.spec_backend()).buffers@, id),
    {
        proof {
            use_type_invariant(self);
        }
        match self.backend {
            Backend::Vulkan => global.backends.vulkan.hub.buffer_map_state(id),
            _ => global.backends.gl.hub.buffer_map_state(id),
        }
    }

    /// Unmap the buffer `id`.
    pub fn buffer_unmap(&self, global: &mut Global, id: Id) -> (r: Result<(), BufferAccessError>)
        requires
            old(global).wf(),
            ({
                let h0 = hub_of(*old(global), self.spec_backend());
                id.backend == self.spec_backend()
            }),
        ensures
            only_hub_changed(*old(global), *final(global), self.spec_backend()),
            ({
                let h0 = hub_of(*old(global), self.spec_backend());
                let h1 = hub_of(*final(global), self.spec_backend());
                &&& r == unmap_outcome(h0.buffers@, id)
                &&& h1.buffers@ == (if r is Ok { with_map_state(h0.buffers@, id, MapState::Idle) } else { h0.buffers@ })
                &&& same_except_buffers(h0, h1)
            }),
    {
        proof {
            use_type_invariant(self);
        }
        match self.backend {
            Backend::Vulkan => global.backends.vulkan.hub.buffer_unmap(id),
            _ => global.backends.gl.hub.buffer_unmap(id),
        }
    }

    /// Free the slot of the buffer `id`.
    pub fn buffer_drop(&self, global: &mut Global, id: Id)
        requires
            old(global).wf(),
            ({
                let h0 = hub_of(*old(global), self.spec_backend());
                id.backend == self.spec_backend()
            }),
        ensures
            only_hub_changed(*old(global), *final(global), self.spec_backend()),
            ({
                let h0 = hub_of(*old(global), self.spec_backend());
                let h1 = hub_of(*final(global), self.spec_backend());
                &&& h1.buffers@ == removed(h0.buffers@, id)
                &&& same_except_buffers(h0, h1)
            }),
    {
        proof {
            use_type_invariant(self);
        }
        match self.backend {
            Backend::Vulkan => global.backends.vulkan.hub.buffer_drop(id),
            _ => global.backends.gl.hub.buffer_drop(id),
        }
    }

    /// Create a sampler; see [`Hub::device_create_sampler`].
    pub fn device_create_sampler(&self, global: &mut Global, device_id: Id, desc: SamplerDescriptor, id_in: Option<Id>) -> (r: (Id, Option<CreateSamplerError>))
        requires
            old(global).wf(),
            ({
                let h0 = hub_of(*old(global), self.spec_backend());
                device_id.backend == self.spec_backend()
            }),
            ({
                let h0 = hub_of(*old(global), self.spec_backend());
                id_in matches Some(id) ==> can_insert(h0.samplers@, id) && id.backend == self.spec_backend()
            }),
        ensures
            only_hub_changed(*old(global), *final(global), self.spec_backend()),
            ({
                let h0 = hub_of(*old(global), self.spec_backend());
                let h1 = hub_of(*final(global), self.spec_backend());
                &&& r.0 == h0.id_for(h0.samplers@, id_in)
                &&& h1.samplers@ == inserted(h0.samplers@, r.0, created_sampler(device_id, h0.device_valid(device_id), r.0.epoch, desc))
                &&& r.1 == error_of(created_sampler(device_id, h0.device_valid(device_id), r.0.epoch, desc))
                &&& same_except_samplers(h0, h1)
            }),
    {
        proof {
            use_type_invariant(self);
        }
        match self.backend {
            Backend::Vulkan => global.backends.vulkan.hub.device_create_sampler(device_id, desc, id_in),
            _ => global.backends.gl.hub.device_create_sampler(device_id, desc, id_in),
        }
    }

    /// The label of the sampler `id`.
    pub fn sampler_label(&self, global: &Global, id: Id) -> (r: String)
        requires
            global.wf(),
            ({
                let h0 = hub_of(*global, self.spec_backend());
                id.backend == self.spec_backend()
            }),
        ensures
            ({
                let h0 = hub_of(*global, self.spec_backend());
                &&& r@ == label_of(slot(h0.samplers@, id), |b: SamplerRecord| b.label@)
            }),
    {
        proof {
            use_type_invariant(self);
        }
        match self.backend {
            Backend::Vulkan => global.backends.vulkan.hub.sampler_label(id),
            _ => global.backends.gl.hub.sampler_label(id),
        }
    }

    /// Free the slot of the sampler `id`.
    pub fn sampler_drop(&self, global: &mut Global, id: Id)
        requires
            old(global).wf(),
            ({
                let h0 = hub_of(*old(global), self.spec_backend());
                id.backend == self.spec_backend()
            }),
        ensures
            only_hub_changed(*old(global), *final(global), self.spec_backend()),
            ({
                let h0 = hub_of(*old(global), self.spec_backend());
                let h1 = hub_of(*final(global), self.spec_backend());
                &&& h1.samplers@ == removed(h0.samplers@, id)
                &&& same_except_samplers(h0, h1)
            }),
    {
        proof {
            use_type_invariant(self);
        }
        match self.backend {
            Backend::Vulkan => global.backends.vulkan.hub.sampler_drop(id),
            _ => global.backends.gl.hub.sampler_drop(id),
        }
    }

    /// Create a bind group; see [`Hub::device_create_bind_group`].
    pub fn device_create_bind_group(&self, global: &mut Global, device_id: Id, desc: BindGroupDescriptor, id_in: Option<Id>) -> (r: (Id, Option<CreateBindGroupError>))
        requires
            old(global).wf(),
            ({
                let h0 = hub_of(*old(global), self.spec_backend());
                device_id.backend == self.spec_backend()
            }),
            ({
                let h0 = hub_of(*old(global), self.spec_backend());
                id_in matches Some(id) ==> can_insert(h0.bind_groups@, id) && id.backend == self.spec_backend()
            }),
        ensures
            only_hub_changed(*old(global), *final(global), self.spec_backend()),
            ({
                let h0 = hub_of(*old(global), self.spec_backend());
                let h1 = hub_of(*final(global), self.spec_backend());
                &&& r.0 == h0.id_for(h0.bind_groups@, id_in)
                &&& h1.bind_groups@ == inserted(h0.bind_groups@, r.0, created_bind_group(h0.buffers@, device_id, h0.device_valid(device_id), r.0.epoch, desc))
                &&& r.1 == error_of(created_bind_group(h0.buffers@, device_id, h0.device_valid(device_id), r.0.epoch, desc))
                &&& same_except_bind_groups(h0, h1)
            }),
    {
        proof {
            use_type_invariant(self);
        }
        match self.backend {
            Backend::Vulkan => global.backends.vulkan.hub.device_create_bind_group(device_id, desc, id_in),
            _ => global.backends.gl.hub.device_create_bind_group(device_id, desc, id_in),
        }
    }

    /// The label of the bind group `id`.
    pub fn bind_group_label(&self, global: &Global, id: Id) -> (r: String)
        requires
            global.wf(),
            ({
                let h0 = hub_of(*global, self.spec_backend());
                id.backend == self.spec_backend()
            }),
        ensures
            ({
                let h0 = hub_of(*global, self.spec_backend());
                &&& r@ == label_of(slot(h0.bind_groups@, id), |b: BindGroupRecord| b.label@)
            }),
    {
        proof {
            use_type_invariant(self);
        }
        match self.backend {
            Backend::Vulkan => global.backends.vulkan.hub.bind_group_label(id),
            _ => global.backends.gl.hub.bind_group_label(id),
        }
    }

    /// Free the slot of the bind group `id`.
    pub fn bind_group_drop(&self, global: &mut Global, id: Id)
        requires
            old(global).wf(),
            ({
                let h0 = hub_of(*old(global), self.spec_backend());
                id.backend == self.spec_backend()
            }),
        ensures
            only_hub_changed(*old(global), *final(global), self.spec_backend()),
            ({
                let h0 = hub_of(*old(global), self.spec_backend());
                let h1 = hub_of(*final(global), self.spec_backend());
                &&& h1.bind_groups@ == removed(h0.bind_groups@, id)
                &&& same_except_bind_groups(h0, h1)
            }),
    {
        proof {
            use_type_invariant(self);
        }
        match self.backend {
            Backend::Vulkan => global.backends.vulkan.hub.bind_group_drop(id),
            _ => global.backends.gl.hub.bind_group_drop(id),
        }
    }

    /// Create a texture; see [`Hub::device_create_texture`].
    pub fn device_create_texture(&self, global: &mut Global, device_id: Id, desc: TextureDescriptor, id_in: Option<Id>) -> (r: (Id, Option<CreateTextureError>))
        requires
            old(global).wf(),
            ({
                let h0 = hub_of(*old(global), self.spec_backend());
                device_id.backend == self.spec_backend()
            }),
            ({
                let h0 = hub_of(*old(global), self.spec_backend());
                id_in matches Some(id) ==> can_insert(h0.textures@, id) && id.backend == self.spec_backend()
            }),
        ensures
            only_hub_changed(*old(global), *final(global), self.spec_backend()),
            ({
                let h0 = hub_of(*old(global), self.spec_backend());
                let h1 = hub_of(*final(global), self.spec_backend());
                &&& r.0 == h0.id_for(h0.textures@, id_in)
                &&& h1.textures@ == inserted(h0.textures@, r.0, created_texture(device_id, h0.device_valid(device_id), r.0.epoch, desc))
                &&& r.1 == error_of(created_texture(device_id, h0.device_valid(device_id), r.0.epoch, desc))
                &&& same_except_textures(h0, h1)
            }),
    {
        proof {
            use_type_invariant(self);
        }
        match self.backend {
            Backend::Vulkan => global.backends.vulkan.hub.device_create_texture(device_id, desc, id_in),
            _ => global.backends.gl.hub.device_create_texture(device_id, desc, id_in),
        }
    }

    /// Bind `id_in`, or a fresh identifier when none is given, to a texture that failed validation for `cause` before a descriptor could be built.
    pub fn create_texture_error(&self, global: &mut Global, id_in: Option<Id>, label: String, cause: CreateTextureError) -> (r: Id)
        requires
            old(global).wf(),
            ({
                let h0 = hub_of(*old(global), self.spec_backend());
                id_in matches Some(id) ==> can_insert(h0.textures@, id) && id.backend == self.spec_backend()
            }),
        ensures
            only_hub_changed(*old(global), *final(global), self.spec_backend()),
            ({
                let h0 = hub_of(*old(global), self.spec_backend());
                let h1 = hub_of(*final(global), self.spec_backend());
                &&& r == h0.id_for(h0.textures@, id_in)
                &&& h1.textures@ == inserted(h0.textures@, r, Element::Error(r.epoch, label, cause))
                &&& same_except_textures(h0, h1)
            }),
    {
        proof {
            use_type_invariant(self);
        }
        match self.backend {
            Backend::Vulkan => global.backends.vulkan.hub.create_texture_error(id_in, label, cause),
            _ => global.backends.gl.hub.create_texture_error(id_in, label, cause),
        }
    }

    /// The label of the texture `id`.
    pub fn texture_label(&self, global: &Global, id: Id) -> (r: String)
        requires
            global.wf(),
            ({
                let h0 = hub_of(*global, self.spec_backend());
                id.backend == self.spec_backend()
            }),
        ensures
            ({
                let h0 = hub_of(*global, self.spec_backend());
                &&& r@ == label_of(slot(h0.textures@, id), |t: TextureRecord| t.label@)
            }),
    {
        proof {
            use_type_invariant(self);
        }
        match self.backend {
            Backend::Vulkan => global.backends.vulkan.hub.texture_label(id),
            _ => global.backends.gl.hub.texture_label(id),
        }
    }

    /// Free the slot of the texture `id`.
    pub fn texture_drop(&self, global: &mut Global, id: Id)
        requires
            old(global).wf(),
            ({
                let h0 = hub_of(*old(global), self.spec_backend());
                id.backend == self.spec_backend()
            }),
        ensures
            only_hub_changed(*old(global), *final(global), self.spec_backend()),
            ({
                let h0 = hub_of(*old(global), self.spec_backend());
                let h1 = hub_of(*final(global), self.spec_backend());
                &&& h1.textures@ == removed(h0.textures@, id)
                &&& same_except_textures(h0, h1)
            }),
    {
        proof {
            use_type_invariant(self);
        }
        match self.backend {
            Backend::Vulkan => global.backends.vulkan.hub.texture_drop(id),
            _ => global.backends.gl.hub.texture_drop(id),
        }
    }
}

/// What reading a table back from `tag` gives.
pub open spec fn deserialize_outcome(tag: u8) -> Result<CoreTable, TableError> {
    match backend_of_tag(tag) {
        None => Err(TableError::UnknownTag(tag)),
        Some(b) => if compiled_in(b) {
            Ok(table_of(b))
        } else {
            Err(TableError::UnsupportedBackend(b))
        },
    }
}

/// The table of backend `b`.
pub closed spec fn table_of(b: Backend) -> CoreTable {
    CoreTable { backend: b }
}

/// The table of a backend belongs to that backend.
pub proof fn lemma_table_of_backend(b: Backend)
    ensures
        table_of(b).spec_backend() == b,
{
}

/// Tables are determined by their backend: two tables of one backend are
/// the same table.
pub proof fn lemma_one_table_per_backend(t1: CoreTable, t2: CoreTable)
    requires
        t1.spec_backend() == t2.spec_backend(),
    ensures
        t1 == t2,
{
}

/// Serializing a table and reading it back on this build gives the same
/// table.
pub proof fn lemma_serialize_round_trip(t: CoreTable)
    requires
        compiled_in(t.spec_backend()),
    ensures
        deserialize_outcome(tag_of(t.spec_backend())) == Ok::<CoreTable, TableError>(t),
{
    lemma_tag_round_trip(t.spec_backend());
}

/// Reading back the tag of a backend that this build lacks fails, naming
/// that backend, and never gives another backend's table.
pub proof fn lemma_deserialize_missing_backend(b: Backend)
    requires
        !compiled_in(b),
    ensures
        deserialize_outcome(tag_of(b)) == Err::<CoreTable, TableError>(
            TableError::UnsupportedBackend(b),
        ),
{
    lemma_tag_round_trip(b);
}

} // verus!
