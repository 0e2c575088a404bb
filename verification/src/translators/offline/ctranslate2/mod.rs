use vstd::prelude::*;

pub mod model_management;

verus! {

/// The device a local model runs on.
#[derive(PartialEq, Eq, Structural, Copy, Clone, Debug)]
pub enum Device {
    CPU,
    CUDA,
}

impl Default for Device {
    fn default() -> (r: Self)
        ensures
            r is CPU,
    {
        Device::CPU
    }
}

impl Device {
    /// The device selected by a "use the GPU" flag.
    pub fn gpu(y: bool) -> (r: Self)
        ensures
            r is CUDA <==> y,
    {
        if y {
            Device::CUDA
        } else {
            Device::CPU
        }
    }

    /// True exactly of the CUDA device.
    pub fn is_cuda(&self) -> (r: bool)
        ensures
            r == (self is CUDA),
    {
        match self {
            Device::CPU => false,
            Device::CUDA => true,
        }
    }

    /// The device chosen when the caller expresses no preference.
    pub fn auto() -> (r: Self)
        ensures
            r is CPU,
    {
        Device::CPU
    }

    /// The device's name as the inference engine expects it.
    pub fn name(&self) -> (r: String)
        ensures
            self is CPU ==> r@ == "cpu"@,
            self is CUDA ==> r@ == "cuda"@,
    {
        match self {
            Device::CPU => "cpu".to_owned(),
            Device::CUDA => "cuda".to_owned(),
        }
    }
}

} // verus!
