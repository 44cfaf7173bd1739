use vstd::prelude::*;

verus! {

/// One native graphics API implementation, or the no-op fallback.
#[derive(Clone, Copy, Debug, PartialEq, Eq, Structural, Hash)]
pub enum Backend {
    Empty,
    Vulkan,
    Metal,
    Dx12,
    Gl,
    BrowserWebGpu,
}

/// The backends compiled into this build.
pub open spec fn compiled_in(b: Backend) -> bool {
    b == Backend::Vulkan || b == Backend::Gl
}

/// The small integer that names a backend in serialized form.
pub open spec fn tag_of(b: Backend) -> u8 {
    match b {
        Backend::Empty => 0,
        Backend::Vulkan => 1,
        Backend::Metal => 2,
        Backend::Dx12 => 3,
        Backend::Gl => 4,
        Backend::BrowserWebGpu => 5,
    }
}

/// The backend named by a serialized tag, if the tag names one.
pub open spec fn backend_of_tag(t: u8) -> Option<Backend> {
    if t == 0 {
        Some(Backend::Empty)
    } else if t == 1 {
        Some(Backend::Vulkan)
    } else if t == 2 {
        Some(Backend::Metal)
    } else if t == 3 {
        Some(Backend::Dx12)
    } else if t == 4 {
        Some(Backend::Gl)
    } else if t == 5 {
        Some(Backend::BrowserWebGpu)
    } else {
        None
    }
}

impl Backend {
    /// Whether this backend is compiled into this build.
    pub fn is_compiled_in(self) -> (r: bool)
        ensures
            r == compiled_in(self),
    {
        match self {
            Backend::Vulkan | Backend::Gl => true,
            _ => false,
        }
    }

    /// The serialized tag of this backend.
    pub fn to_tag(self) -> (r: u8)
        ensures
            r == tag_of(self),
    {
        match self {
            Backend::Empty => 0,
            Backend::Vulkan => 1,
            Backend::Metal => 2,
            Backend::Dx12 => 3,
            Backend::Gl => 4,
            Backend::BrowserWebGpu => 5,
        }
    }

    /// The backend a serialized tag names; `None` for a tag that names none.
    pub fn from_tag(t: u8) -> (r: Option<Backend>)
        ensures
            r == backend_of_tag(t),
    {
        match t {
            0 => Some(Backend::Empty),
            1 => Some(Backend::Vulkan),
            2 => Some(Backend::Metal),
            3 => Some(Backend::Dx12),
            4 => Some(Backend::Gl),
            5 => Some(Backend::BrowserWebGpu),
            _ => None,
        }
    }

    /// The lower-case name of this backend.
    pub fn to_str(self) -> (r: &'static str)
        ensures
            r@ == name_of(self),
    {
        match self {
            Backend::Empty => "empty",
            Backend::Vulkan => "vulkan",
            Backend::Metal => "metal",
            Backend::Dx12 => "dx12",
            Backend::Gl => "gl",
            Backend::BrowserWebGpu => "webgpu",
        }
    }
}

/// The lower-case name of a backend.
pub open spec fn name_of(b: Backend) -> Seq<char> {
    match b {
        Backend::Empty => "empty"@,
        Backend::Vulkan => "vulkan"@,
        Backend::Metal => "metal"@,
        Backend::Dx12 => "dx12"@,
        Backend::Gl => "gl"@,
        Backend::BrowserWebGpu => "webgpu"@,
    }
}

/// Every backend's tag reads back as that backend.
pub proof fn lemma_tag_round_trip(b: Backend)
    ensures
        backend_of_tag(tag_of(b)) == Some(b),
{
}

} // verus!
