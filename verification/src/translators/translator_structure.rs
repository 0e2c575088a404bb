use vstd::prelude::*;

use crate::languages::Language;

verus! {

/// One translation result: the produced text and the language it is in.
#[derive(Debug, PartialEq, Eq)]
pub struct TranslationOutput {
    /// Translation
    pub text: String,
    /// Text language
    pub lang: Language,
}

/// A batched translation result: the produced texts, in the order of the
/// inputs, and the language they are in.
#[derive(Debug, PartialEq, Eq)]
pub struct TranslationVecOutput {
    /// Translations
    pub text: Vec<String>,
    /// Language
    pub lang: Language,
}

impl Clone for TranslationOutput {
    fn clone(&self) -> (r: Self)
        ensures
            r == *self,
    {
        TranslationOutput { text: self.text.clone(), lang: self.lang }
    }
}

/// Copies a list of strings, keeping each text as it is.
pub fn clone_strings(v: &Vec<String>) -> (r: Vec<String>)
    ensures
        r@.len() == v@.len(),
        forall|i: int| 0 <= i < v@.len() ==> r@[i] == v@[i],
        r@ == v@,
{
    let mut r: Vec<String> = Vec::new();
    let mut i: usize = 0;
    while i < v.len()
        invariant
            i <= v@.len(),
            r@.len() == i,
            forall|j: int| 0 <= j < i ==> r@[j] == v@[j],
        decreases v@.len() - i,
    {
        r.push(v[i].clone());
        i += 1;
    }
    proof {
        assert(r@ =~= v@);
    }
    r
}

impl Clone for TranslationVecOutput {
    fn clone(&self) -> (r: Self)
        ensures
            r.text@ == self.text@,
            r.lang == self.lang,
    {
        TranslationVecOutput { text: clone_strings(&self.text), lang: self.lang }
    }
}

} // verus!
