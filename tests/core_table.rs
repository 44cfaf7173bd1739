use wgpu_core::backend::Backend;
use wgpu_core::core_table::{CoreTable, TableError};

#[test]
fn from_backend_gives_table_of_that_backend() {
    for b in [Backend::Vulkan, Backend::Gl] {
        let t = CoreTable::from_backend(b);
        assert_eq!(t.backend(), b);
        assert_eq!(CoreTable::from_backend(b), t);
    }
    assert_ne!(
        CoreTable::from_backend(Backend::Vulkan),
        CoreTable::from_backend(Backend::Gl)
    );
}

#[test]
fn try_from_backend_rejects_missing_backends() {
    for b in [
        Backend::Empty,
        Backend::Metal,
        Backend::Dx12,
        Backend::BrowserWebGpu,
    ] {
        assert!(CoreTable::try_from_backend(b).is_none());
    }
    assert!(CoreTable::try_from_backend(Backend::Gl).is_some());
}

#[test]
fn serialize_round_trips() {
    for b in [Backend::Vulkan, Backend::Gl] {
        let t = CoreTable::from_backend(b);
        let tag = t.serialize();
        assert_eq!(CoreTable::deserialize(tag), Ok(t));
    }
    assert_eq!(CoreTable::from_backend(Backend::Vulkan).serialize(), 1);
    assert_eq!(CoreTable::from_backend(Backend::Gl).serialize(), 4);
}

#[test]
fn deserialize_missing_backend_fails() {
    assert_eq!(
        CoreTable::deserialize(2),
        Err(TableError::UnsupportedBackend(Backend::Metal))
    );
    assert_eq!(
        CoreTable::deserialize(0),
        Err(TableError::UnsupportedBackend(Backend::Empty))
    );
    assert_eq!(CoreTable::deserialize(9), Err(TableError::UnknownTag(9)));
}

#[test]
fn backend_tags_and_names() {
    assert_eq!(Backend::from_tag(3), Some(Backend::Dx12));
    assert_eq!(Backend::from_tag(6), None);
    assert_eq!(Backend::BrowserWebGpu.to_tag(), 5);
    assert_eq!(Backend::Metal.to_str(), "metal");
    assert!(Backend::Vulkan.is_compiled_in());
    assert!(!Backend::Metal.is_compiled_in());
}
