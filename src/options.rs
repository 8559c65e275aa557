use vstd::prelude::*;

use crate::wgsl_type::WgslTypeMap;

verus! {

/// How a host struct's bytes reach device memory.
#[derive(Debug, Clone, Copy, PartialEq, Eq, Hash, Structural)]
pub enum WgslTypeSerializeStrategy {
    /// Element-wise encoding through an adapter library; the host layout is
    /// advisory.
    Encase,
    /// Raw byte copy; the host layout must match the device layout exactly.
    Bytemuck,
}

impl WgslTypeSerializeStrategy {
    pub fn is_encase(&self) -> (r: bool)
        ensures
            r == (*self == WgslTypeSerializeStrategy::Encase),
    {
        match self {
            WgslTypeSerializeStrategy::Encase => true,
            WgslTypeSerializeStrategy::Bytemuck => false,
        }
    }

    pub fn is_bytemuck(&self) -> (r: bool)
        ensures
            r == (*self == WgslTypeSerializeStrategy::Bytemuck),
    {
        match self {
            WgslTypeSerializeStrategy::Encase => false,
            WgslTypeSerializeStrategy::Bytemuck => true,
        }
    }
}

/// The options of one generation run that struct generation reads.
#[derive(Debug)]
pub struct WgslBindgenOption {
    pub serialization_strategy: WgslTypeSerializeStrategy,
    /// Also derive human-readable (de)serialization.
    pub derive_serde: bool,
    /// The host types chosen for the shader's vectors and matrices.
    pub type_map: WgslTypeMap,
}

impl WgslBindgenOption {
    pub open spec fn wf(&self) -> bool {
        self.type_map.wf()
    }
}

} // verus!
