use wgpu_core::backend::Backend;
use wgpu_core::core_table::CoreTable;
use wgpu_core::global::{Global, InstanceDescriptor};
use wgpu_core::id::Id;
use wgpu_core::resource::{
    CreateTextureError, DeviceError, TextureDescriptor, RENDER_ATTACHMENT, TEXTURE_BINDING,
};

fn texture(width: u32, mips: u32, samples: u32, usage: u32) -> TextureDescriptor {
    TextureDescriptor {
        label: "tex".to_string(),
        width,
        height: 8,
        depth_or_array_layers: 1,
        mip_level_count: mips,
        sample_count: samples,
        usage,
    }
}

#[test]
fn texture_validation() {
    let mut g = Global::new("t", InstanceDescriptor { backends: 0x12 });
    let core = CoreTable::from_backend(Backend::Gl);
    let device = core.request_device(&mut g, "d".to_string(), None);
    let cases = [
        (texture(8, 1, 1, TEXTURE_BINDING), None),
        (texture(8, 1, 4, RENDER_ATTACHMENT), None),
        (texture(8, 1, 1, 0), Some(CreateTextureError::InvalidUsage(0))),
        (texture(8, 1, 1, 0x20), Some(CreateTextureError::InvalidUsage(0x20))),
        (texture(0, 1, 1, TEXTURE_BINDING), Some(CreateTextureError::ZeroDimension)),
        (texture(8, 0, 1, TEXTURE_BINDING), Some(CreateTextureError::InvalidMipLevelCount(0))),
        (texture(8, 1, 2, TEXTURE_BINDING), Some(CreateTextureError::InvalidSampleCount(2))),
        (texture(8, 3, 4, RENDER_ATTACHMENT), Some(CreateTextureError::MultisampledMipLevels(3))),
    ];
    for (desc, expected) in cases {
        let (_, err) = core.device_create_texture(&mut g, device, desc, None);
        assert_eq!(err, expected);
    }
    let missing = Id { index: 5, epoch: 2, backend: Backend::Gl };
    let (_, err) = core.device_create_texture(&mut g, missing, texture(8, 1, 1, TEXTURE_BINDING), None);
    assert_eq!(err, Some(CreateTextureError::Device(DeviceError::Invalid)));
    let report = g.generate_report();
    let hub = report.hub_report(Backend::Gl);
    assert_eq!(hub.textures.num_allocated, 2);
    assert_eq!(hub.textures.num_error, 7);
}

#[test]
fn texture_error_entry_and_drop() {
    let mut g = Global::new("t", InstanceDescriptor { backends: 0x12 });
    let core = CoreTable::from_backend(Backend::Gl);
    let id = core.create_texture_error(&mut g, None, "broken".to_string(), CreateTextureError::ZeroDimension);
    assert_eq!(id, Id { index: 0, epoch: 1, backend: Backend::Gl });
    assert_eq!(core.texture_label(&g, id), "broken");
    core.texture_drop(&mut g, id);
    assert_eq!(core.texture_label(&g, id), "");
    assert_eq!(g.generate_report().hub_report(Backend::Gl).textures.num_released_from_user, 1);
}
