use vstd::prelude::*;

use crate::backend::{compiled_in, Backend};
use crate::hub::{Hub, HubReport};
use crate::id::Id;
use crate::resource::{BindGroupDescriptor, CreateBindGroupError};
use crate::storage::{
    can_insert, inserted, report_of, slot, Element, RegistryReport, Storage,
};

verus! {

/// The backend bits of an instance descriptor: bit `1 << tag` asks for the
/// backend whose serialized tag is `tag`.
pub struct InstanceDescriptor {
    pub backends: u32,
}

/// Whether `bits` asks for `b`.
pub open spec fn requests(bits: u32, b: Backend) -> bool {
    match b {
        Backend::Vulkan => bits & 0x2 != 0,
        Backend::Gl => bits & 0x10 != 0,
        _ => false,
    }
}

/// The platform instance: which compiled-in backends it initialised.
pub struct Instance {
    pub name: String,
    pub vulkan: bool,
    pub gl: bool,
}

impl Instance {
    /// An instance named `name` with the compiled-in backends that `desc`
    /// asks for.
    pub fn new(name: &str, desc: InstanceDescriptor) -> (r: Instance)
        ensures
            r.name@ == name@,
            r.vulkan == requests(desc.backends, Backend::Vulkan),
            r.gl == requests(desc.backends, Backend::Gl),
    {
        Instance {
            name: name.to_owned(),
            vulkan: desc.backends & 0x2 != 0,
            gl: desc.backends & 0x10 != 0,
        }
    }
}

/// A presentable surface, known by its raw window handle.
#[derive(Clone, Copy, Debug, PartialEq, Eq, Structural)]
pub struct Surface {
    pub raw_handle: u64,
}

/// A registered surface and the number of shared references to it that
/// are held outside the registry.
pub struct SurfaceEntry {
    pub surface: Surface,
    pub holders: u32,
}

/// Why a surface could not be shared or released.
#[derive(Clone, Copy, Debug, PartialEq, Eq, Structural)]
pub enum SurfaceError {
    /// The identifier names no surface.
    Invalid,
    /// The count of shared references would leave its range.
    RefCount,
}

/// The per-backend state reachable through a backend tag alone.
pub struct BackendDetails {
    pub backend: Backend,
    pub hub: Hub,
}

/// A device handed out through [`BackendDetails::device_by_id`].
#[derive(Clone, Copy, Debug, PartialEq, Eq, Structural)]
pub struct Device {
    backend: Backend,
    id: Id,
}

impl Device {
    /// The backend this device belongs to.
    pub closed spec fn spec_backend(&self) -> Backend {
        self.backend
    }

    /// The identifier of this device.
    pub closed spec fn spec_id(&self) -> Id {
        self.id
    }

    /// The backend this device belongs to.
    pub fn backend(&self) -> (r: Backend)
        ensures
            r == self.spec_backend(),
    {
        self.backend
    }

    /// The identifier of this device.
    pub fn id(&self) -> (r: Id)
        ensures
            r == self.spec_id(),
    {
        self.id
    }
}

impl BackendDetails {
    /// Fresh details, with an empty hub, for `backend`.
    pub fn new(backend: Backend) -> (r: Self)
        ensures
            r.backend == backend,
            r.hub.backend == backend,
            r.hub.wf(),
            r.hub.is_empty(),
    {
        BackendDetails { backend, hub: Hub::new(backend) }
    }

    /// The device that `id` names. A dangling identifier is a caller's bug.
    pub fn device_by_id(&self, id: Id) -> (r: Device)
        requires
            self.hub.device_valid(id),
        ensures
            r.spec_backend() == self.backend,
            r.spec_id() == id,
    {
        Device { backend: self.backend, id }
    }

    /// Create a bind group on `device`; see [`Hub::device_create_bind_group`].
    pub fn device_create_bind_group(
        &mut self,
        device: &Device,
        desc: BindGroupDescriptor,
        id_in: Option<Id>,
    ) -> (r: (Id, Option<CreateBindGroupError>))
        requires
            old(self).hub.wf(),
            device.spec_backend() == old(self).backend,
            id_in matches Some(id) ==> can_insert(old(self).hub.bind_groups@, id),
        ensures
            final(self).hub.wf(),
            final(self).backend == old(self).backend,
            r.0 == old(self).hub.id_for(old(self).hub.bind_groups@, id_in),
            final(self).hub.bind_groups@ == inserted(
                old(self).hub.bind_groups@,
                r.0,
                crate::hub::created_bind_group(
                    old(self).hub.buffers@,
                    device.spec_id(),
                    old(self).hub.device_valid(device.spec_id()),
                    r.0.epoch,
                    desc,
                ),
            ),
            r.1 == crate::hub::error_of(
                crate::hub::created_bind_group(
                    old(self).hub.buffers@,
                    device.spec_id(),
                    old(self).hub.device_valid(device.spec_id()),
                    r.0.epoch,
                    desc,
                ),
            ),
            final(self).hub.backend == old(self).hub.backend,
            final(self).hub.textures == old(self).hub.textures,
            final(self).hub.devices == old(self).hub.devices,
            final(self).hub.buffers == old(self).hub.buffers,
            final(self).hub.samplers == old(self).hub.samplers,
    {
        self.hub.device_create_bind_group(device.id, desc, id_in)
    }

    /// The label of the bind group `id`.
    pub fn bind_group_label(&self, id: Id) -> (r: String)
        ensures
            r@ == crate::hub::label_of(
                slot(self.hub.bind_groups@, id),
                |b: crate::resource::BindGroupRecord| b.label@,
            ),
    {
        self.hub.bind_group_label(id)
    }

    /// Free the slot of the bind group `id`.
    pub fn bind_group_drop(&mut self, id: Id)
        requires
            old(self).hub.wf(),
        ensures
            final(self).hub.wf(),
            final(self).backend == old(self).backend,
            final(self).hub.bind_groups@ == crate::storage::removed(
                old(self).hub.bind_groups@,
                id,
            ),
            final(self).hub.backend == old(self).hub.backend,
            final(self).hub.textures == old(self).hub.textures,
            final(self).hub.devices == old(self).hub.devices,
            final(self).hub.buffers == old(self).hub.buffers,
            final(self).hub.samplers == old(self).hub.samplers,
    {
        self.hub.bind_group_drop(id)
    }
}

/// The details of every backend compiled into this build.
pub struct Backends {
    pub vulkan: BackendDetails,
    pub gl: BackendDetails,
}

impl Backends {
    /// Fresh details for every compiled-in backend.
    pub fn new() -> (r: Self)
        ensures
            r.vulkan.backend == Backend::Vulkan,
            r.gl.backend == Backend::Gl,
            r.vulkan.hub.backend == Backend::Vulkan,
            r.gl.hub.backend == Backend::Gl,
            r.vulkan.hub.wf(),
            r.gl.hub.wf(),
            r.vulkan.hub.is_empty(),
            r.gl.hub.is_empty(),
    {
        Backends { vulkan: BackendDetails::new(Backend::Vulkan), gl: BackendDetails::new(Backend::Gl) }
    }
}

/// The census of a [`Global`]: its surfaces, and the hub of each
/// compiled-in backend that the instance initialised.
#[derive(Clone, Copy, Debug, PartialEq, Eq, Structural)]
pub struct GlobalReport {
    pub surfaces: RegistryReport,
    pub vulkan: Option<HubReport>,
    pub gl: Option<HubReport>,
}

impl GlobalReport {
    /// The census of the surfaces.
    pub fn surfaces(&self) -> (r: &RegistryReport)
        ensures
            *r == self.surfaces,
    {
        &self.surfaces
    }

    /// The census of the hub of `backend`, which must be a compiled-in
    /// backend that the instance initialised.
    pub fn hub_report(&self, backend: Backend) -> (r: &HubReport)
        requires
            backend == Backend::Vulkan ==> self.vulkan is Some,
            backend == Backend::Gl ==> self.gl is Some,
            compiled_in(backend),
        ensures
            backend == Backend::Vulkan ==> Some(*r) == self.vulkan,
            backend == Backend::Gl ==> Some(*r) == self.gl,
    {
        match backend {
            Backend::Vulkan => self.vulkan.as_ref().unwrap(),
            _ => self.gl.as_ref().unwrap(),
        }
    }
}

/// One step of tearing a [`Global`] down, in the order taken.
#[derive(Clone, Copy, Debug, PartialEq, Eq, Structural)]
pub enum TeardownStep {
    /// Every resource of a backend's hub was destroyed.
    ClearHub(Backend),
    /// The platform instance was released.
    DropInstance,
    /// A registered surface was destroyed.
    DestroySurface(Id),
}

/// Why tearing a [`Global`] down stopped: a surface was still shared.
#[derive(Clone, Copy, Debug, PartialEq, Eq, Structural)]
pub enum TeardownError {
    SurfaceStillInUse(Id),
}

/// The surface slots of a registry.
pub type SurfaceSlots = Seq<Element<SurfaceEntry, SurfaceError>>;

/// Whether slot `i` holds a surface that is shared outside the registry.
pub open spec fn shared_at(s: SurfaceSlots, i: int) -> bool {
    s[i] matches Element::Occupied(e, _) && e.holders > 0
}

/// The teardown steps of the surfaces in slots `[0, n)`.
pub open spec fn surface_steps(s: SurfaceSlots, n: int) -> Seq<TeardownStep>
    decreases n,
{
    if n <= 0 {
        Seq::empty()
    } else {
        surface_steps(s, n - 1) + match s[n - 1] {
            Element::Occupied(_, ep) => seq![
                TeardownStep::DestroySurface(
                    Id { index: (n - 1) as usize, epoch: ep, backend: Backend::Empty },
                ),
            ],
            _ => Seq::empty(),
        }
    }
}

/// The teardown steps that come before the surfaces: the hubs, then the
/// instance.
pub open spec fn head_steps() -> Seq<TeardownStep> {
    seq![
        TeardownStep::ClearHub(Backend::Vulkan),
        TeardownStep::ClearHub(Backend::Gl),
        TeardownStep::DropInstance,
    ]
}

/// The top-level owner: one platform instance, one registry of surfaces
/// shared by all backends, and the details of each compiled-in backend.
pub struct Global {
    pub instance: Instance,
    pub surfaces: Storage<SurfaceEntry, SurfaceError>,
    pub backends: Backends,
}

/// The hub of backend `b` in `g`.
pub open spec fn hub_of(g: Global, b: Backend) -> Hub {
    if b == Backend::Vulkan {
        g.backends.vulkan.hub
    } else {
        g.backends.gl.hub
    }
}

/// `g1` differs from `g0` at most in the hub of backend `b`, and is
/// consistent.
pub open spec fn only_hub_changed(g0: Global, g1: Global, b: Backend) -> bool {
    &&& g1.wf()
    &&& g1.instance == g0.instance
    &&& g1.surfaces == g0.surfaces
    &&& g1.backends.vulkan.backend == g0.backends.vulkan.backend
    &&& g1.backends.gl.backend == g0.backends.gl.backend
    &&& (b == Backend::Vulkan ==> g1.backends.gl == g0.backends.gl)
    &&& (b != Backend::Vulkan ==> g1.backends.vulkan == g0.backends.vulkan)
}

impl Global {
    /// Internal consistency: each backend's details and hub carry its tag,
    /// and each hub is consistent.
    pub open spec fn wf(&self) -> bool {
        &&& self.backends.vulkan.backend == Backend::Vulkan
        &&& self.backends.gl.backend == Backend::Gl
        &&& self.backends.vulkan.hub.backend == Backend::Vulkan
        &&& self.backends.gl.hub.backend == Backend::Gl
        &&& self.backends.vulkan.hub.wf()
        &&& self.backends.gl.hub.wf()
    }

    /// A global named `name` with a fresh instance, no surfaces and empty
    /// hubs.
    pub fn new(name: &str, instance_desc: InstanceDescriptor) -> (r: Self)
        ensures
            r.wf(),
            r.instance.name@ == name@,
            r.instance.vulkan == requests(instance_desc.backends, Backend::Vulkan),
            r.instance.gl == requests(instance_desc.backends, Backend::Gl),
            r.surfaces@.len() == 0,
            r.backends.vulkan.hub.is_empty(),
            r.backends.gl.hub.is_empty(),
    {
        Global {
            instance: Instance::new(name, instance_desc),
            surfaces: Storage::new(),
            backends: Backends::new(),
        }
    }

    /// A global around an existing instance.
    pub fn from_instance(instance: Instance) -> (r: Self)
        ensures
            r.wf(),
            r.instance == instance,
            r.surfaces@.len() == 0,
            r.backends.vulkan.hub.is_empty(),
            r.backends.gl.hub.is_empty(),
    {
        Global { instance, surfaces: Storage::new(), backends: Backends::new() }
    }

    /// The details of the backend that `id` belongs to, which must be
    /// compiled in.
    pub fn backend(&self, id: Id) -> (r: &BackendDetails)
        requires
            compiled_in(id.backend),
        ensures
            id.backend == Backend::Vulkan ==> *r == self.backends.vulkan,
            id.backend == Backend::Gl ==> *r == self.backends.gl,
    {
        match id.backend() {
            Backend::Vulkan => &self.backends.vulkan,
            _ => &self.backends.gl,
        }
    }

    /// Destroy every resource of the hub of `backend`.
    pub fn clear_backend(&mut self, backend: Backend)
        requires
            old(self).wf(),
            compiled_in(backend),
        ensures
            final(self).wf(),
            hub_of(*final(self), backend).devices@.len() == 0,
            hub_of(*final(self), backend).buffers@.len() == 0,
            hub_of(*final(self), backend).samplers@.len() == 0,
            hub_of(*final(self), backend).bind_groups@.len() == 0,
            hub_of(*final(self), backend).textures@.len() == 0,
            backend == Backend::Vulkan ==> final(self).backends.gl == old(self).backends.gl,
            backend == Backend::Gl ==> final(self).backends.vulkan == old(self).backends.vulkan,
            final(self).instance == old(self).instance,
            final(self).surfaces == old(self).surfaces,
    {
        match backend {
            Backend::Vulkan => self.backends.vulkan.hub.clear(),
            _ => self.backends.gl.hub.clear(),
        }
    }

    /// A census of the surfaces and of the hub of every backend that the
    /// instance initialised.
    pub fn generate_report(&self) -> (r: GlobalReport)
        ensures
            r.surfaces == report_of(self.surfaces@),
            r.vulkan == (if self.instance.vulkan {
                Some(self.backends.vulkan.hub.generate_report_spec())
            } else {
                None
            }),
            r.gl == (if self.instance.gl {
                Some(self.backends.gl.hub.generate_report_spec())
            } else {
                None
            }),
    {
        GlobalReport {
            surfaces: self.surfaces.generate_report(),
            vulkan: if self.instance.vulkan {
                Some(self.backends.vulkan.hub.generate_report())
            } else {
                None
            },
            gl: if self.instance.gl {
                Some(self.backends.gl.hub.generate_report())
            } else {
                None
            },
        }
    }

    /// Register the surface of window `raw_handle` under `id_in`, or under a
    /// fresh identifier when none is given. Surfaces carry no backend.
    pub fn instance_create_surface(&mut self, raw_handle: u64, id_in: Option<Id>) -> (r: Id)
        requires
            id_in matches Some(id) ==> can_insert(old(self).surfaces@, id),
        ensures
            r == (match id_in {
                Some(id) => id,
                None => Id { index: old(self).surfaces@.len() as usize, epoch: 1, backend: Backend::Empty },
            }),
            final(self).surfaces@ == inserted(
                old(self).surfaces@,
                r,
                Element::Occupied(SurfaceEntry { surface: Surface { raw_handle }, holders: 0 }, r.epoch),
            ),
            final(self).instance == old(self).instance,
            final(self).backends == old(self).backends,
    {
        let id = match id_in {
            Some(id) => id,
            None => self.surfaces.next_id(Backend::Empty),
        };
        let entry = SurfaceEntry { surface: Surface { raw_handle }, holders: 0 };
        self.surfaces.insert(id, Element::Occupied(entry, id.epoch));
        id
    }

    /// Change by one, up or down, the count of shared references to the
    /// surface `id` that are held outside the registry.
    fn surface_adjust(&mut self, id: Id, up: bool) -> (r: Result<(), SurfaceError>)
        ensures
            match slot(old(self).surfaces@, id) {
                Element::Occupied(e, ep) => if (up && e.holders < u32::MAX) || (!up && e.holders
                    > 0) {
                    r is Ok && final(self).surfaces@ == old(self).surfaces@.update(
                        id.index as int,
                        Element::Occupied(
                            SurfaceEntry {
                                surface: e.surface,
                                holders: (if up {
                                    e.holders + 1
                                } else {
                                    e.holders - 1
                                }) as u32,
                            },
                            ep,
                        ),
                    )
                } else {
                    r == Err::<(), SurfaceError>(SurfaceError::RefCount) && final(self).surfaces@
                        == old(self).surfaces@
                },
                _ => r == Err::<(), SurfaceError>(SurfaceError::Invalid) && final(self).surfaces@
                    == old(self).surfaces@,
            },
            final(self).instance == old(self).instance,
            final(self).backends == old(self).backends,
    {
        let ok = match self.surfaces.get(id) {
            Some(Element::Occupied(e, _)) => {
                if up {
                    e.holders < u32::MAX
                } else {
                    e.holders > 0
                }
            },
            _ => {
                return Err(SurfaceError::Invalid);
            },
        };
        if !ok {
            return Err(SurfaceError::RefCount);
        }
        let taken = self.surfaces.take(id.index);
        let back = match taken {
            Element::Occupied(e, ep) => {
                let holders = if up {
                    e.holders + 1
                } else {
                    e.holders - 1
                };
                Element::Occupied(SurfaceEntry { surface: e.surface, holders }, ep)
            },
            other => other,
        };
        self.surfaces.put(id.index, back);
        proof {
            assert(self.surfaces@ =~= old(self).surfaces@.update(id.index as int, back));
        }
        Ok(())
    }

    /// Hand out one more shared reference to the surface `id`.
    pub fn surface_share(&mut self, id: Id) -> (r: Result<(), SurfaceError>)
        ensures
            match slot(old(self).surfaces@, id) {
                Element::Occupied(e, ep) => if e.holders < u32::MAX {
                    r is Ok && final(self).surfaces@ == old(self).surfaces@.update(
                        id.index as int,
                        Element::Occupied(
                            SurfaceEntry { surface: e.surface, holders: (e.holders + 1) as u32 },
                            ep,
                        ),
                    )
                } else {
                    r == Err::<(), SurfaceError>(SurfaceError::RefCount) && final(self).surfaces@
                        == old(self).surfaces@
                },
                _ => r == Err::<(), SurfaceError>(SurfaceError::Invalid) && final(self).surfaces@
                    == old(self).surfaces@,
            },
            final(self).instance == old(self).instance,
            final(self).backends == old(self).backends,
    {
        self.surface_adjust(id, true)
    }

    /// Give back one shared reference to the surface `id`.
    pub fn surface_release(&mut self, id: Id) -> (r: Result<(), SurfaceError>)
        ensures
            match slot(old(self).surfaces@, id) {
                Element::Occupied(e, ep) => if e.holders > 0 {
                    r is Ok && final(self).surfaces@ == old(self).surfaces@.update(
                        id.index as int,
                        Element::Occupied(
                            SurfaceEntry { surface: e.surface, holders: (e.holders - 1) as u32 },
                            ep,
                        ),
                    )
                } else {
                    r == Err::<(), SurfaceError>(SurfaceError::RefCount) && final(self).surfaces@
                        == old(self).surfaces@
                },
                _ => r == Err::<(), SurfaceError>(SurfaceError::Invalid) && final(self).surfaces@
                    == old(self).surfaces@,
            },
            final(self).instance == old(self).instance,
            final(self).backends == old(self).backends,
    {
        self.surface_adjust(id, false)
    }

    /// Tear the global down: destroy every resource of each backend's hub,
    /// then release the instance, then destroy every registered surface in
    /// slot order. A surface that is still shared outside the registry
    /// stops the teardown with an error naming it; the steps before it have
    /// been taken.
    pub fn teardown(self) -> (r: Result<Vec<TeardownStep>, TeardownError>)
        ensures
            r matches Ok(steps) ==> steps@ == head_steps() + surface_steps(
                self.surfaces@,
                self.surfaces@.len() as int,
            ),
            r is Ok ==> forall|i: int| 0 <= i < self.surfaces@.len() ==> !shared_at(self.surfaces@, i),
            r matches Err(TeardownError::SurfaceStillInUse(id)) ==> 0 <= id.index < self.surfaces@.len()
                && shared_at(self.surfaces@, id.index as int),
            r matches Err(TeardownError::SurfaceStillInUse(id)) ==> slot(self.surfaces@, id) is Occupied,
            r matches Err(TeardownError::SurfaceStillInUse(id)) ==> forall|i: int|
                0 <= i < id.index ==> !shared_at(self.surfaces@, i),
    {
        let Global { instance, surfaces, backends } = self;
        let Backends { vulkan, gl } = backends;
        let mut vulkan = vulkan;
        let mut gl = gl;
        let mut steps: Vec<TeardownStep> = Vec::new();
        vulkan.hub.clear();
        steps.push(TeardownStep::ClearHub(Backend::Vulkan));
        gl.hub.clear();
        steps.push(TeardownStep::ClearHub(Backend::Gl));
        let Instance { .. } = instance;
        steps.push(TeardownStep::DropInstance);
        proof {
            assert(steps@ =~= head_steps() + surface_steps(surfaces@, 0));
        }
        let mut surfaces = surfaces;
        let ghost all = surfaces@;
        let n = surfaces.len();
        let mut i: usize = 0;
        while i < n
            invariant
                all == self.surfaces@,
                n == all.len(),
                surfaces@.len() == n,
                i <= n,
                forall|k: int| i <= k < n ==> #[trigger] surfaces@[k] == all[k],
                steps@ == head_steps() + surface_steps(all, i as int),
                forall|k: int| 0 <= k < i ==> !shared_at(all, k),
            decreases n - i,
        {
            let element = surfaces.take(i);
            proof {
                assert(element == all[i as int]);
            }
            match element {
                Element::Occupied(entry, ep) => {
                    let id = Id { index: i, epoch: ep, backend: Backend::Empty };
                    if entry.holders > 0 {
                        proof {
                            assert(shared_at(all, i as int));
                            assert(slot(all, id) is Occupied);
                        }
                        return Err(TeardownError::SurfaceStillInUse(id));
                    }
                    steps.push(TeardownStep::DestroySurface(id));
                },
                _ => {},
            }
            proof {
                assert(steps@ =~= head_steps() + surface_steps(all, i + 1));
            }
            i = i + 1;
        }
        Ok(steps)
    }
}

} // verus!
