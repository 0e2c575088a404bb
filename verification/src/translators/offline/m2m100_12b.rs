use vstd::prelude::*;

use crate::translators::offline::ctranslate2::Device;

verus! {

/// The big many-to-many model driven through the out-of-process runner.
pub struct M2M100_12BTranslator {
    pub device: Device,
    pub base_path: String,
}

impl M2M100_12BTranslator {
    /// Binds the descriptor to a resolved model directory.
    pub fn new(device: Device, base_path: String) -> (r: Self)
        ensures
            r.device == device,
            r.base_path@ == base_path@,
    {
        Self { device, base_path }
    }

    /// The decoder prefix of a batch: one single-token row `__lang__` per
    /// query.
    pub fn generate_target_prefix(lang: &str, ammount: usize) -> (r: Vec<Vec<String>>)
        ensures
            r@.len() == ammount,
            forall|i: int|
                0 <= i < r@.len() ==> r@[i]@.len() == 1 && r@[i]@[0]@ == "__"@ + lang@ + "__"@,
    {
        let mut target_prefix: Vec<Vec<String>> = Vec::new();
        let mut i: usize = 0;
        while i < ammount
            invariant
                i <= ammount,
                target_prefix@.len() == i,
                forall|j: int|
                    0 <= j < i ==> target_prefix@[j]@.len() == 1 && target_prefix@[j]@[0]@ == "__"@
                        + lang@ + "__"@,
            decreases ammount - i,
        {
            let mut s: String = "__".to_owned();
            s.append(lang);
            s.append("__");
            let mut row: Vec<String> = Vec::new();
            row.push(s);
            target_prefix.push(row);
            i += 1;
        }
        target_prefix
    }
}

} // verus!
