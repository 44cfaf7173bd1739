use wgpu_core::backend::Backend;
use wgpu_core::core_table::CoreTable;
use wgpu_core::global::{Global, InstanceDescriptor};
use wgpu_core::id::Id;
use wgpu_core::resource::{
    buffer_usages_from_bits, AddressMode, BindGroupDescriptor, BindGroupEntry, BufferAccessError,
    BufferDescriptor, CompareFunction, CreateBindGroupError, CreateBufferError,
    CreateSamplerError, DeviceError, FilterMode, HostMap, MapState, MappedRange,
    SamplerDescriptor, COPY_DST, COPY_SRC, MAP_READ, MAP_WRITE, STORAGE, UNIFORM,
};
use wgpu_core::webgpu::{
    op_webgpu_buffer_get_map_async, op_webgpu_buffer_get_mapped_range,
    op_webgpu_buffer_map_poll, op_webgpu_buffer_unmap, op_webgpu_create_buffer,
    op_webgpu_create_sampler, MapPoll, WebGpuDevice,
};

fn setup() -> (Global, CoreTable, Id) {
    let mut g = Global::new("t", InstanceDescriptor { backends: 0x12 });
    let core = CoreTable::from_backend(Backend::Vulkan);
    let device = core.request_device(&mut g, "device".to_string(), None);
    (g, core, device)
}

fn buffer_desc(size: u64, usage: u32, mapped: bool) -> BufferDescriptor {
    BufferDescriptor {
        label: "buf".to_string(),
        size,
        usage,
        mapped_at_creation: mapped,
    }
}

fn sampler_desc(anisotropy: u16, filter: FilterMode) -> SamplerDescriptor {
    SamplerDescriptor {
        label: "sampler".to_string(),
        address_mode_u: AddressMode::Repeat,
        address_mode_v: AddressMode::ClampToEdge,
        address_mode_w: AddressMode::MirrorRepeat,
        mag_filter: filter,
        min_filter: filter,
        mipmap_filter: filter,
        compare: Some(CompareFunction::LessEqual),
        anisotropy_clamp: anisotropy,
    }
}

#[test]
fn usage_bits_are_checked() {
    assert_eq!(buffer_usages_from_bits(0x3ff), Some(0x3ff));
    assert_eq!(buffer_usages_from_bits(0x400), None);
}

#[test]
fn create_buffer_validation_errors() {
    let (mut g, core, device) = setup();
    let cases = [
        (buffer_desc(16, 0, false), CreateBufferError::InvalidUsage(0)),
        (buffer_desc(16, 0x800, false), CreateBufferError::InvalidUsage(0x800)),
        (
            buffer_desc(16, MAP_READ | COPY_SRC, false),
            CreateBufferError::UsageMismatch(MAP_READ | COPY_SRC),
        ),
        (
            buffer_desc(16, MAP_WRITE | COPY_DST, false),
            CreateBufferError::UsageMismatch(MAP_WRITE | COPY_DST),
        ),
        (buffer_desc(6, COPY_DST, true), CreateBufferError::UnalignedSize(6)),
    ];
    for (desc, expected) in cases {
        let (_, err) = core.device_create_buffer(&mut g, device, desc, None);
        assert_eq!(err, Some(expected));
    }
    let missing = Id { index: 40, epoch: 1, backend: Backend::Vulkan };
    let (_, err) = core.device_create_buffer(&mut g, missing, buffer_desc(4, COPY_DST, false), None);
    assert_eq!(err, Some(CreateBufferError::Device(DeviceError::Invalid)));
}

#[test]
fn fresh_identifiers_are_sequential() {
    let (mut g, core, device) = setup();
    let (a, _) = core.device_create_buffer(&mut g, device, buffer_desc(4, COPY_DST, false), None);
    let (b, _) = core.device_create_buffer(&mut g, device, buffer_desc(4, COPY_DST, false), None);
    assert_eq!(a, Id { index: 0, epoch: 1, backend: Backend::Vulkan });
    assert_eq!(b, Id { index: 1, epoch: 1, backend: Backend::Vulkan });
    assert_eq!(core.buffer_label(&g, a), "buf");
}

#[test]
fn map_read_round_trip() {
    let (mut g, core, device) = setup();
    let (buf, err) =
        core.device_create_buffer(&mut g, device, buffer_desc(64, MAP_READ | COPY_DST, false), None);
    assert!(err.is_none());
    assert_eq!(
        core.buffer_get_mapped_range(&g, buf, 0, None),
        Err(BufferAccessError::NotMapped)
    );
    assert_eq!(core.buffer_map_async(&mut g, buf, 8, 32, HostMap::Read), Ok(()));
    assert_eq!(
        core.buffer_map_async(&mut g, buf, 8, 32, HostMap::Read),
        Err(BufferAccessError::MapAlreadyPending)
    );
    assert_eq!(
        core.buffer_map_state(&g, buf),
        Ok(MapState::Waiting { host: HostMap::Read, offset: 8, size: 32 })
    );
    assert_eq!(core.device_poll(&mut g, device), Ok(()));
    assert_eq!(
        core.buffer_get_mapped_range(&g, buf, 16, None),
        Ok(MappedRange { offset: 16, size: 24 })
    );
    assert_eq!(
        core.buffer_get_mapped_range(&g, buf, 8, Some(8)),
        Ok(MappedRange { offset: 8, size: 8 })
    );
    assert_eq!(
        core.buffer_get_mapped_range(&g, buf, 0, None),
        Err(BufferAccessError::OutOfBoundsUnderrun { index: 0, min: 8 })
    );
    assert_eq!(
        core.buffer_get_mapped_range(&g, buf, 48, None),
        Err(BufferAccessError::OutOfBoundsOverrun { index: 48, max: 40 })
    );
    assert_eq!(
        core.buffer_get_mapped_range(&g, buf, 8, Some(40)),
        Err(BufferAccessError::OutOfBoundsOverrun { index: 8, max: 40 })
    );
    assert_eq!(
        core.buffer_get_mapped_range(&g, buf, 12, None),
        Err(BufferAccessError::UnalignedOffset(12))
    );
    assert_eq!(
        core.buffer_get_mapped_range(&g, buf, 8, Some(6)),
        Err(BufferAccessError::UnalignedRangeSize(6))
    );
    assert_eq!(
        core.buffer_map_async(&mut g, buf, 0, 8, HostMap::Read),
        Err(BufferAccessError::AlreadyMapped)
    );
    assert_eq!(core.buffer_unmap(&mut g, buf), Ok(()));
    assert_eq!(core.buffer_unmap(&mut g, buf), Err(BufferAccessError::NotMapped));
}

#[test]
fn map_async_argument_errors() {
    let (mut g, core, device) = setup();
    let (buf, _) =
        core.device_create_buffer(&mut g, device, buffer_desc(64, MAP_READ | COPY_DST, false), None);
    assert_eq!(
        core.buffer_map_async(&mut g, buf, 4, 8, HostMap::Read),
        Err(BufferAccessError::UnalignedOffset(4))
    );
    assert_eq!(
        core.buffer_map_async(&mut g, buf, 8, 6, HostMap::Read),
        Err(BufferAccessError::UnalignedRangeSize(6))
    );
    assert_eq!(
        core.buffer_map_async(&mut g, buf, 32, 64, HostMap::Read),
        Err(BufferAccessError::OutOfBoundsOverrun { index: 32, max: 64 })
    );
    assert_eq!(
        core.buffer_map_async(&mut g, buf, 0, 8, HostMap::Write),
        Err(BufferAccessError::MissingUsage(MAP_WRITE))
    );
    let missing = Id { index: 9, epoch: 1, backend: Backend::Vulkan };
    assert_eq!(
        core.buffer_map_async(&mut g, missing, 0, 8, HostMap::Read),
        Err(BufferAccessError::Invalid)
    );
}

#[test]
fn mapped_at_creation_covers_whole_buffer() {
    let (mut g, core, device) = setup();
    let (buf, err) = core.device_create_buffer(&mut g, device, buffer_desc(32, COPY_SRC, true), None);
    assert!(err.is_none());
    assert_eq!(
        core.buffer_get_mapped_range(&g, buf, 0, None),
        Ok(MappedRange { offset: 0, size: 32 })
    );
}

#[test]
fn dropped_buffer_is_invalid() {
    let (mut g, core, device) = setup();
    let (buf, _) = core.device_create_buffer(&mut g, device, buffer_desc(8, COPY_DST, false), None);
    core.buffer_drop(&mut g, buf);
    assert_eq!(core.buffer_unmap(&mut g, buf), Err(BufferAccessError::Invalid));
    assert_eq!(core.buffer_label(&g, buf), "");
}

#[test]
fn assigned_error_is_contagious() {
    let (mut g, core, device) = setup();
    let cause = CreateBufferError::InvalidUsage(0x1000);
    let buf = core.create_buffer_error(&mut g, None, "broken".to_string(), cause);
    assert_eq!(core.buffer_label(&g, buf), "broken");
    let expected = Err(BufferAccessError::Errored(cause));
    assert_eq!(core.buffer_map_async(&mut g, buf, 0, 8, HostMap::Read), expected);
    assert_eq!(core.buffer_get_mapped_range(&g, buf, 0, None).map(|_| ()), expected);
    assert_eq!(core.buffer_unmap(&mut g, buf), expected);
    assert_eq!(core.buffer_map_state(&g, buf).map(|_| ()), expected);
    let desc = BindGroupDescriptor {
        label: "group".to_string(),
        entries: vec![BindGroupEntry { binding: 0, buffer: buf }],
    };
    let (group, err) = core.device_create_bind_group(&mut g, device, desc, None);
    assert_eq!(err, Some(CreateBindGroupError::ErroredBuffer(buf, cause)));
    assert_eq!(core.bind_group_label(&g, group), "group");
}

#[test]
fn preallocated_identifier_is_used() {
    let (mut g, core, _device) = setup();
    let id = Id { index: 0, epoch: 3, backend: Backend::Vulkan };
    let got = core.create_buffer_error(&mut g, Some(id), "x".to_string(), CreateBufferError::UnalignedSize(3));
    assert_eq!(got, id);
    assert_eq!(
        core.buffer_unmap(&mut g, id),
        Err(BufferAccessError::Errored(CreateBufferError::UnalignedSize(3)))
    );
}

#[test]
fn bind_group_errors() {
    let (mut g, core, device) = setup();
    let (uniform, _) = core.device_create_buffer(&mut g, device, buffer_desc(16, UNIFORM, false), None);
    let (storage, _) = core.device_create_buffer(&mut g, device, buffer_desc(16, STORAGE, false), None);
    let (copy, _) = core.device_create_buffer(&mut g, device, buffer_desc(16, COPY_DST, false), None);
    let other_device = core.request_device(&mut g, "other".to_string(), None);
    let (foreign, _) =
        core.device_create_buffer(&mut g, other_device, buffer_desc(16, UNIFORM, false), None);
    let missing = Id { index: 99, epoch: 1, backend: Backend::Vulkan };
    let cases = [
        (
            vec![BindGroupEntry { binding: 0, buffer: uniform }, BindGroupEntry { binding: 1, buffer: storage }],
            None,
        ),
        (
            vec![BindGroupEntry { binding: 0, buffer: uniform }, BindGroupEntry { binding: 0, buffer: storage }],
            Some(CreateBindGroupError::DuplicateBinding(0)),
        ),
        (
            vec![BindGroupEntry { binding: 2, buffer: copy }],
            Some(CreateBindGroupError::MissingBufferUsage(copy)),
        ),
        (
            vec![BindGroupEntry { binding: 2, buffer: foreign }],
            Some(CreateBindGroupError::InvalidBuffer(foreign)),
        ),
        (
            vec![BindGroupEntry { binding: 2, buffer: missing }],
            Some(CreateBindGroupError::InvalidBuffer(missing)),
        ),
    ];
    for (entries, expected) in cases {
        let desc = BindGroupDescriptor { label: "g".to_string(), entries };
        let (_, err) = core.device_create_bind_group(&mut g, device, desc, None);
        assert_eq!(err, expected);
    }
    let desc = BindGroupDescriptor { label: "g".to_string(), entries: vec![] };
    let (_, err) = core.device_create_bind_group(&mut g, missing, desc, None);
    assert_eq!(err, Some(CreateBindGroupError::Device(DeviceError::Invalid)));
}

#[test]
fn sampler_validation() {
    let (mut g, core, device) = setup();
    let (s, err) = core.device_create_sampler(&mut g, device, sampler_desc(1, FilterMode::Nearest), None);
    assert!(err.is_none());
    assert_eq!(core.sampler_label(&g, s), "sampler");
    let (_, err) = core.device_create_sampler(&mut g, device, sampler_desc(16, FilterMode::Linear), None);
    assert!(err.is_none());
    let (_, err) = core.device_create_sampler(&mut g, device, sampler_desc(0, FilterMode::Linear), None);
    assert_eq!(err, Some(CreateSamplerError::InvalidAnisotropy(0)));
    let (_, err) = core.device_create_sampler(&mut g, device, sampler_desc(17, FilterMode::Linear), None);
    assert_eq!(err, Some(CreateSamplerError::InvalidAnisotropy(17)));
    let (_, err) = core.device_create_sampler(&mut g, device, sampler_desc(4, FilterMode::Nearest), None);
    assert_eq!(err, Some(CreateSamplerError::InvalidFilterModeWithAnisotropy));
    core.sampler_drop(&mut g, s);
    assert_eq!(core.sampler_label(&g, s), "");
}

#[test]
fn device_poll_rejects_missing_device() {
    let (mut g, core, device) = setup();
    core.device_drop(&mut g, device);
    assert_eq!(core.device_poll(&mut g, device), Err(DeviceError::Invalid));
}

#[test]
fn glue_invalid_usage_gives_errored_buffer() {
    let (mut g, core, device) = setup();
    let dev = WebGpuDevice { id: device, core };
    let (buffer, err) = op_webgpu_create_buffer(&mut g, dev, "bad".to_string(), 16, 0x1_0000, false);
    assert_eq!(err, Some(CreateBufferError::InvalidUsage(0x1_0000)));
    assert_eq!(buffer.id.backend(), Backend::Vulkan);
    assert_eq!(
        op_webgpu_buffer_get_mapped_range(&g, buffer, 0, None),
        Err(BufferAccessError::Errored(CreateBufferError::InvalidUsage(0x1_0000)))
    );
}

#[test]
fn glue_map_cycle() {
    let (mut g, core, device) = setup();
    let dev = WebGpuDevice { id: device, core };
    let (buffer, err) =
        op_webgpu_create_buffer(&mut g, dev, "b".to_string(), 32, MAP_WRITE | COPY_SRC, false);
    assert!(err.is_none());
    assert_eq!(op_webgpu_buffer_get_map_async(&mut g, buffer, 2, 0, 16), Ok(()));
    assert_eq!(op_webgpu_buffer_map_poll(&mut g, buffer, dev), MapPoll::Mapped);
    assert_eq!(
        op_webgpu_buffer_get_mapped_range(&g, buffer, 0, None),
        Ok(MappedRange { offset: 0, size: 16 })
    );
    assert_eq!(op_webgpu_buffer_unmap(&mut g, buffer), Ok(()));
    assert_eq!(
        op_webgpu_buffer_map_poll(&mut g, buffer, dev),
        MapPoll::Failed(BufferAccessError::NotMapped)
    );
}

#[test]
fn glue_map_poll_waits_for_its_device() {
    let (mut g, core, device) = setup();
    let other = core.request_device(&mut g, "other".to_string(), None);
    let dev = WebGpuDevice { id: device, core };
    let other_dev = WebGpuDevice { id: other, core };
    let (buffer, _) = op_webgpu_create_buffer(&mut g, dev, "b".to_string(), 32, MAP_READ, false);
    assert_eq!(op_webgpu_buffer_get_map_async(&mut g, buffer, 1, 0, 32), Ok(()));
    assert_eq!(op_webgpu_buffer_map_poll(&mut g, buffer, other_dev), MapPoll::Pending);
    assert_eq!(op_webgpu_buffer_map_poll(&mut g, buffer, dev), MapPoll::Mapped);
}

#[test]
fn glue_create_sampler() {
    let (mut g, core, device) = setup();
    let dev = WebGpuDevice { id: device, core };
    let (sampler, err) = op_webgpu_create_sampler(&mut g, dev, sampler_desc(2, FilterMode::Nearest));
    assert_eq!(err, Some(CreateSamplerError::InvalidFilterModeWithAnisotropy));
    assert_eq!(core.sampler_label(&g, sampler.id), "sampler");
}

#[test]
fn preallocated_identifier_past_the_end_fills_gap() {
    let (mut g, core, _device) = setup();
    let id = Id { index: 5, epoch: 2, backend: Backend::Vulkan };
    let got = core.create_buffer_error(&mut g, Some(id), "late".to_string(), CreateBufferError::InvalidUsage(0));
    assert_eq!(got, id);
    assert_eq!(core.buffer_label(&g, id), "late");
    let report = g.generate_report();
    let buffers = report.hub_report(Backend::Vulkan).buffers;
    assert_eq!(buffers.num_error, 1);
    assert_eq!(buffers.num_released_from_user, 5);
}
