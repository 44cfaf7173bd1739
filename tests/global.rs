use wgpu_core::backend::Backend;
use wgpu_core::core_table::CoreTable;
use wgpu_core::global::{
    Global, InstanceDescriptor, SurfaceError, TeardownError, TeardownStep,
};
use wgpu_core::id::Id;
use wgpu_core::resource::{
    BindGroupDescriptor, BindGroupEntry, BufferDescriptor, COPY_DST, MAP_READ, UNIFORM,
};

fn global() -> Global {
    Global::new("test", InstanceDescriptor { backends: 0x12 })
}

#[test]
fn new_global_initialises_requested_backends() {
    let g = Global::new("only-gl", InstanceDescriptor { backends: 0x10 });
    assert!(!g.instance.vulkan);
    assert!(g.instance.gl);
    assert_eq!(g.instance.name, "only-gl");
    let report = g.generate_report();
    assert!(report.vulkan.is_none());
    assert!(report.gl.is_some());
    assert_eq!(report.surfaces().num_allocated, 0);
}

#[test]
fn report_counts_resources_per_kind() {
    let mut g = global();
    let core = CoreTable::from_backend(Backend::Vulkan);
    let device = core.request_device(&mut g, "dev".to_string(), None);
    let desc = BufferDescriptor {
        label: "ok".to_string(),
        size: 16,
        usage: MAP_READ | COPY_DST,
        mapped_at_creation: false,
    };
    let (ok, err) = core.device_create_buffer(&mut g, device, desc, None);
    assert!(err.is_none());
    let bad = BufferDescriptor {
        label: "bad".to_string(),
        size: 16,
        usage: 0,
        mapped_at_creation: false,
    };
    let (_bad, err) = core.device_create_buffer(&mut g, device, bad, None);
    assert!(err.is_some());
    core.buffer_drop(&mut g, ok);
    let report = g.generate_report();
    let hub = report.hub_report(Backend::Vulkan);
    assert_eq!(hub.devices.num_allocated, 1);
    assert_eq!(hub.buffers.num_allocated, 0);
    assert_eq!(hub.buffers.num_error, 1);
    assert_eq!(hub.buffers.num_kept_from_user, 1);
    assert_eq!(hub.buffers.num_released_from_user, 1);
    assert_eq!(report.hub_report(Backend::Gl).buffers.num_error, 0);
}

#[test]
fn clear_backend_empties_only_that_hub() {
    let mut g = global();
    let vk = CoreTable::from_backend(Backend::Vulkan);
    let gl = CoreTable::from_backend(Backend::Gl);
    vk.request_device(&mut g, "a".to_string(), None);
    gl.request_device(&mut g, "b".to_string(), None);
    g.clear_backend(Backend::Vulkan);
    let report = g.generate_report();
    assert_eq!(report.hub_report(Backend::Vulkan).devices.num_allocated, 0);
    assert_eq!(report.hub_report(Backend::Gl).devices.num_allocated, 1);
}

#[test]
fn backend_of_identifier() {
    let mut g = global();
    let gl = CoreTable::from_backend(Backend::Gl);
    let device = gl.request_device(&mut g, "d".to_string(), None);
    assert_eq!(device.backend(), Backend::Gl);
    let details = g.backend(device);
    assert_eq!(details.backend, Backend::Gl);
    let handle = details.device_by_id(device);
    assert_eq!(handle.backend(), Backend::Gl);
    assert_eq!(handle.id(), device);
}

#[test]
fn bind_group_api_through_backend_details() {
    let mut g = global();
    let vk = CoreTable::from_backend(Backend::Vulkan);
    let device = vk.request_device(&mut g, "d".to_string(), None);
    let desc = BufferDescriptor {
        label: "u".to_string(),
        size: 64,
        usage: UNIFORM,
        mapped_at_creation: false,
    };
    let (buffer, _) = vk.device_create_buffer(&mut g, device, desc, None);
    let handle = g.backend(device).device_by_id(device);
    let desc = BindGroupDescriptor {
        label: "group".to_string(),
        entries: vec![BindGroupEntry { binding: 0, buffer }],
    };
    let (group, err) = g.backends.vulkan.device_create_bind_group(&handle, desc, None);
    assert!(err.is_none());
    assert_eq!(g.backends.vulkan.bind_group_label(group), "group");
    g.backends.vulkan.bind_group_drop(group);
    assert_eq!(g.backends.vulkan.bind_group_label(group), "");
}

#[test]
fn teardown_orders_hubs_instance_surfaces() {
    let mut g = global();
    let s0 = g.instance_create_surface(11, None);
    let s1 = g.instance_create_surface(12, None);
    g.surface_share(s1).unwrap();
    g.surface_release(s1).unwrap();
    let steps = g.teardown().unwrap();
    assert_eq!(
        steps,
        vec![
            TeardownStep::ClearHub(Backend::Vulkan),
            TeardownStep::ClearHub(Backend::Gl),
            TeardownStep::DropInstance,
            TeardownStep::DestroySurface(s0),
            TeardownStep::DestroySurface(s1),
        ]
    );
}

#[test]
fn teardown_with_shared_surface_fails() {
    let mut g = global();
    let _s0 = g.instance_create_surface(1, None);
    let s1 = g.instance_create_surface(2, None);
    g.surface_share(s1).unwrap();
    assert_eq!(g.teardown(), Err(TeardownError::SurfaceStillInUse(s1)));
}

#[test]
fn surface_reference_counting_errors() {
    let mut g = global();
    let s = g.instance_create_surface(5, None);
    assert_eq!(g.surface_release(s), Err(SurfaceError::RefCount));
    let missing = Id { index: 7, epoch: 1, backend: Backend::Empty };
    assert_eq!(g.surface_share(missing), Err(SurfaceError::Invalid));
    assert_eq!(g.generate_report().surfaces.num_allocated, 1);
}

#[test]
fn new_global_has_empty_hubs() {
    let g = global();
    let report = g.generate_report();
    for b in [Backend::Vulkan, Backend::Gl] {
        let hub = report.hub_report(b);
        for r in [hub.devices, hub.buffers, hub.samplers, hub.bind_groups, hub.textures] {
            assert_eq!(r.num_allocated, 0);
            assert_eq!(r.num_kept_from_user, 0);
            assert_eq!(r.num_released_from_user, 0);
            assert_eq!(r.num_error, 0);
        }
    }
}
