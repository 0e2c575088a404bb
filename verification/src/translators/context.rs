use vstd::prelude::*;

verus! {

/// Auxiliary hints handed to the context-aware providers.
#[derive(Clone, Debug, PartialEq, Eq)]
pub enum Context {
    /// Additional framing for the generative providers, e.g. "The following
    /// text is a conversation between two people."
    ChatGPT(String),
}

/// Picks the first generative-provider hint out of a hint list.
pub fn get_gpt_context(context_data: &[Context]) -> (r: Option<&str>)
    ensures
        context_data@.len() == 0 ==> r is None,
        context_data@.len() > 0 ==> (r matches Some(s) && (context_data@[0] matches Context::ChatGPT(
            v,
        ) && s@ == v@)),
{
    if context_data.len() > 0 {
        match &context_data[0] {
            Context::ChatGPT(v) => Some(v.as_str()),
        }
    } else {
        None
    }
}

} // verus!
