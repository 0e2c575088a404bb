use vstd::prelude::*;

use crate::error::Error;
use crate::translators::helpers::str_eq;

verus! {

/// The generative model a model token denotes; the empty token names
/// the oldest.
pub open spec fn spec_chatgpt_model_of(tok: Seq<char>) -> Option<ChatGPTModel> {
    if tok.len() == 0 {
        Some(ChatGPTModel::GPT3)
    } else if tok == "GPT3"@ {
        Some(ChatGPTModel::GPT3)
    } else if tok == "GPT3.5-Turbo"@ {
        Some(ChatGPTModel::Gpt35Turbo)
    } else if tok == "GPT4"@ {
        Some(ChatGPTModel::GPT4)
    } else {
        None
    }
}

/// The generative models a generative provider can be asked for.
#[derive(Debug, Copy, Clone, PartialEq, Eq, Structural)]
pub enum ChatGPTModel {
    GPT3,
    Gpt35Turbo,
    GPT4,
}

impl ChatGPTModel {
    /// The generative model a model token denotes.
    pub fn parse_model(s: &str) -> (r: Result<ChatGPTModel, Error>)
        ensures
            r is Ok <==> spec_chatgpt_model_of(s@) is Some,
            r matches Ok(v) ==> spec_chatgpt_model_of(s@) == Some(v),
    {
        if s.unicode_len() == 0 {
            Ok(ChatGPTModel::GPT3)
        } else if str_eq(s, "GPT3") {
            Ok(ChatGPTModel::GPT3)
        } else if str_eq(s, "GPT3.5-Turbo") {
            Ok(ChatGPTModel::Gpt35Turbo)
        } else if str_eq(s, "GPT4") {
            Ok(ChatGPTModel::GPT4)
        } else {
            Err(
                Error::new_option(
                    "Invalid model. Supported models: GPT-3, GPT-3.5-Turbo, GPT-4",
                ),
            )
        }
    }
}

impl Default for ChatGPTModel {
    fn default() -> (r: Self)
        ensures
            r is Gpt35Turbo,
    {
        ChatGPTModel::Gpt35Turbo
    }
}

/// The request configuration of the generative provider: model choice,
/// endpoint urls, token, sampling temperature in hundredths, and the
/// pause kept between two requests in milliseconds. The HTTP client built
/// from it lives in the embedding.
#[derive(Debug, Clone, PartialEq, Eq)]
pub struct ChatGPTTranslator {
    pub model: ChatGPTModel,
    pub token: String,
    pub url: String,
    pub old_url: String,
    pub temperature: u32,
    pub wait_time_ms: u64,
}

impl ChatGPTTranslator {
    /// Builds the request configuration: an empty proxy string selects
    /// the provider's own endpoint, any other string stands as the
    /// endpoint itself.
    pub fn new(
        model: &ChatGPTModel,
        token: &str,
        proxy: &str,
        old_proxy: &str,
        temperature: u32,
        wait_time_ms: u64,
    ) -> (r: Result<ChatGPTTranslator, Error>)
        ensures
            r matches Ok(t) && t.model == *model && t.token@ == token@ && t.temperature
                == temperature && t.wait_time_ms == wait_time_ms && t.url@ == (if proxy@.len() == 0 {
                "https://api.openai.com/v1/chat/completions"@
            } else {
                proxy@
            }) && t.old_url@ == (if old_proxy@.len() == 0 {
                "https://api.openai.com/v1/completions"@
            } else {
                old_proxy@
            }),
    {
        let url: String = if proxy.unicode_len() == 0 {
            "https://api.openai.com/v1/chat/completions".to_owned()
        } else {
            proxy.to_owned()
        };
        let old_url: String = if old_proxy.unicode_len() == 0 {
            "https://api.openai.com/v1/completions".to_owned()
        } else {
            old_proxy.to_owned()
        };
        Ok(
            ChatGPTTranslator {
                model: *model,
                token: token.to_owned(),
                url,
                old_url,
                temperature,
                wait_time_ms,
            },
        )
    }
}

} // verus!
