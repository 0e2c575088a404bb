use vstd::prelude::*;

use crate::translators::offline::ctranslate2::Device;

verus! {

/// The small many-to-many model driven through the out-of-process runner.
pub struct M2M100_418MTranslator {
    pub device: Device,
    pub base_path: String,
}

impl M2M100_418MTranslator {
    /// Binds the descriptor to a resolved model directory.
    pub fn new(base_path: String, device: Device) -> (r: Self)
        ensures
            r.device == device,
            r.base_path@ == base_path@,
    {
        Self { device, base_path }
    }
}

} // verus!
