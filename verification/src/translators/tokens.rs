use vstd::prelude::*;

verus! {

/// The credential set handed to the resolver: one optional secret per
/// provider that needs one. The embedding application fills it from its
/// own configuration source.
#[derive(Debug, Clone, PartialEq, Eq)]
pub struct Tokens {
    /// GPT token
    pub gpt_token: Option<String>,
    /// GPT4 alternative API url
    pub gpt_proxy: Option<String>,
    /// GPT3 alternative API url
    pub gpt_old_proxy: Option<String>,
    /// Deepl token
    pub deepl_token: Option<String>,
    /// Libre token
    pub libre_token: Option<String>,
    /// id or key for youdao
    pub youdao_key: Option<String>,
    /// youdao secret
    pub youdao_secret: Option<String>,
    /// baidu appid for baidu translator
    pub baidu_appid: Option<String>,
    /// baidu key for baidu translator
    pub baidu_key: Option<String>,
}

impl Tokens {
    /// A token set with no credential in it.
    pub fn empty() -> (r: Self)
        ensures
            r.gpt_token is None,
            r.gpt_proxy is None,
            r.gpt_old_proxy is None,
            r.deepl_token is None,
            r.libre_token is None,
            r.youdao_key is None,
            r.youdao_secret is None,
            r.baidu_appid is None,
            r.baidu_key is None,
    {
        Self {
            gpt_token: None,
            gpt_proxy: None,
            gpt_old_proxy: None,
            deepl_token: None,
            libre_token: None,
            youdao_key: None,
            youdao_secret: None,
            baidu_appid: None,
            baidu_key: None,
        }
    }
}

} // verus!
