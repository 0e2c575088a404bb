use vstd::prelude::*;

use crate::translators::helpers::{spec_dec_str, usize_to_string};

verus! {

/// The Youdao API provider: application key and secret.
#[derive(Debug, Clone, PartialEq, Eq)]
pub struct YouDaoApiTranslator {
    pub app_key: String,
    pub app_secret: String,
}

/// The hex digest that the signature scheme derives from its input. The
/// digest is outside code; the form builder is specified against this
/// name.
pub uninterp spec fn sha256_hex_of(s: Seq<char>) -> Seq<char>;

/// Relies on sha256::digest: the hex digest depends on the input text
/// alone.
#[verifier::external_body]
fn sha256_hex(s: &str) -> (r: String)
    ensures
        r@ == sha256_hex_of(s@),
{
    sha256::digest(s)
}

/// The view of a truncated signature input: short texts stand as they
/// are; longer ones as first ten characters, decimal length, last ten
/// characters.
pub open spec fn spec_truncate(q: Seq<char>) -> Seq<char> {
    if q.len() <= 20 {
        q
    } else {
        q.take(10) + spec_dec_str(q.len()) + q.skip(q.len() - 10)
    }
}

/// Shortens a long signature input the way the provider's signature
/// scheme asks: ten characters from each end around the decimal length.
pub fn truncate(q: &str) -> (r: String)
    ensures
        r@ == spec_truncate(q@),
{
    let len = q.unicode_len();
    if len <= 20 {
        q.to_owned()
    } else {
        let mut result: String = q.substring_char(0, 10).to_owned();
        result.append(usize_to_string(len).as_str());
        result.append(q.substring_char(len - 10, len));
        proof {
            assert(q@.subrange(0, 10) =~= q@.take(10));
            assert(q@.subrange(q@.len() - 10, q@.len() as int) =~= q@.skip(q@.len() - 10));
        }
        result
    }
}

impl YouDaoApiTranslator {
    /// Stores the application credentials.
    pub fn new(app_key: &str, app_secret: &str) -> (r: Self)
        ensures
            r.app_key@ == app_key@,
            r.app_secret@ == app_secret@,
    {
        Self { app_key: app_key.to_owned(), app_secret: app_secret.to_owned() }
    }

    /// The signature input of a request: key, truncated query, salt,
    /// time, secret, in that order.
    pub open spec fn spec_sign_input(self, q: Seq<char>, salt: Seq<char>, curtime: Seq<char>) -> Seq<
        char,
    > {
        self.app_key@ + spec_truncate(q) + salt + curtime + self.app_secret@
    }

    /// Builds the parameter list of a text-translation request. Salt and
    /// request time come from the caller, so the form is a function of
    /// its arguments; the signature field carries the scheme's digest of
    /// `spec_sign_input`.
    pub fn build_text_translate_form(
        &self,
        q: &str,
        from: String,
        to: String,
        salt: &str,
        curtime: &str,
    ) -> (r: Vec<(String, String)>)
        ensures
            r@.len() == 8,
            r@[0].0@ == "q"@ && r@[0].1@ == q@,
            r@[1].0@ == "from"@ && r@[1].1@ == from@,
            r@[2].0@ == "to"@ && r@[2].1@ == to@,
            r@[3].0@ == "appKey"@ && r@[3].1@ == self.app_key@,
            r@[4].0@ == "salt"@ && r@[4].1@ == salt@,
            r@[5].0@ == "signType"@ && r@[5].1@ == "v3"@,
            r@[6].0@ == "curtime"@ && r@[6].1@ == curtime@,
            r@[7].0@ == "sign"@ && r@[7].1@ == sha256_hex_of(
                self.spec_sign_input(q@, salt@, curtime@),
            ),
    {
        let mut params: Vec<(String, String)> = Vec::new();
        params.push(("q".to_owned(), q.to_owned()));
        params.push(("from".to_owned(), from));
        params.push(("to".to_owned(), to));
        params.push(("appKey".to_owned(), self.app_key.clone()));
        params.push(("salt".to_owned(), salt.to_owned()));
        params.push(("signType".to_owned(), "v3".to_owned()));
        params.push(("curtime".to_owned(), curtime.to_owned()));
        let mut sign_str = String::new();
        sign_str.append(self.app_key.as_str());
        sign_str.append(truncate(q).as_str());
        sign_str.append(salt);
        sign_str.append(curtime);
        sign_str.append(self.app_secret.as_str());
        let sign = sha256_hex(sign_str.as_str());
        params.push(("sign".to_owned(), sign));
        params
    }
}

} // verus!
