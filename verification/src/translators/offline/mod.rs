use vstd::prelude::*;

pub mod ctranslate2;
pub mod jparacrawl;
pub mod jparacrawlbig;
pub mod m2m100;
pub mod m2m100_12b;
pub mod m2m100_418m;
pub mod nllb;
pub mod sugoi;

verus! {

/// How a local model's weights are stored on disk: quantized (`Compact`)
/// or at full width (`Normal`).
#[derive(PartialEq, Eq, Structural, Copy, Clone, Debug)]
pub enum ModelFormat {
    Compact,
    Normal,
}

impl ModelFormat {
    /// True exactly of the quantized format.
    pub fn is_compressed(&self) -> (r: bool)
        ensures
            r == (self is Compact),
    {
        if self == &ModelFormat::Compact {
            return true;
        }
        false
    }
}

impl Default for ModelFormat {
    fn default() -> (r: Self)
        ensures
            r is Compact,
    {
        ModelFormat::Compact
    }
}

} // verus!
