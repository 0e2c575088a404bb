use vstd::prelude::*;

use crate::translators::helpers::str_eq;

verus! {

/// The Baidu API provider: endpoint and application credentials.
#[derive(Debug, Clone, PartialEq, Eq)]
pub struct BaiduApiTranslator {
    pub url: String,
    pub app_id: String,
    pub key: String,
}

impl BaiduApiTranslator {
    /// Stores the application credentials beside the provider's endpoint.
    pub fn new(app_id: &str, key: &str) -> (r: Self)
        ensures
            r.url@ == "https://fanyi-api.baidu.com/api/trans/vip/translate"@,
            r.app_id@ == app_id@,
            r.key@ == key@,
    {
        Self {
            url: "https://fanyi-api.baidu.com/api/trans/vip/translate".to_owned(),
            app_id: app_id.to_owned(),
            key: key.to_owned(),
        }
    }
}

/// The hex digest that the request signature derives from its input. The
/// digest is outside code; the form builder is specified against this
/// name.
pub uninterp spec fn md5_hex_of(s: Seq<char>) -> Seq<char>;

/// Relies on md5::compute and the crate's LowerHex rendering: the hex
/// digest depends on the input text alone.
#[verifier::external_body]
fn md5_hex(s: &str) -> (r: String)
    ensures
        r@ == md5_hex_of(s@),
{
    format!("{:x}", md5::compute(s))
}

/// The data submitted by the form
#[derive(Debug, Clone, PartialEq, Eq)]
pub struct Form {
    pub q: String,
    pub from: String,
    pub to: String,
    pub appid: String,
    pub salt: String,
    pub sign: String,
}

impl Form {
    /// Assembles a request form; the signature field carries the digest
    /// of app id, query, salt and key, in that order.
    pub fn new(appid: &str, q: &str, salt: &str, key: &str, from: &str, to: &str) -> (r: Self)
        ensures
            r.q@ == q@,
            r.from@ == from@,
            r.to@ == to@,
            r.appid@ == appid@,
            r.salt@ == salt@,
            r.sign@ == md5_hex_of(appid@ + q@ + salt@ + key@),
    {
        let mut data: String = appid.to_owned();
        data.append(q);
        data.append(salt);
        data.append(key);
        let sign = md5_hex(data.as_str());
        Self {
            q: q.to_owned(),
            from: from.to_owned(),
            to: to.to_owned(),
            appid: appid.to_owned(),
            salt: salt.to_owned(),
            sign,
        }
    }
}

/// An error record of the provider: code, message, and what detail came
/// along.
#[derive(Debug, Clone, PartialEq, Eq)]
pub struct BaiduApiError {
    pub code: String,
    pub msg: String,
    pub data: Option<String>,
}

impl BaiduApiError {
    /// The advice published for each error code.
    pub open spec fn spec_solution(code: Seq<char>) -> Seq<char> {
        if code == "52000"@ {
            "success"@
        } else if code == "52001"@ {
            "Request timed out. Solution: Please try again."@
        } else if code == "52002"@ {
            "system error. Solution: Please try again."@
        } else if code == "52003"@ {
            "Unauthorized user. Solution: Please check whether the appid is correct or whether the service is enabled."@
        } else if code == "54000"@ {
            "The required parameter is empty. Solution: Please check whether to pass fewer parameters."@
        } else if code == "54001"@ {
            "Wrong signature. Solution: Please check your signature generation method."@
        } else if code == "54003"@ {
            "Frequency of access is limited. Solution: Please reduce your calling frequency, or switch to the premium version after authentication."@
        } else if code == "54004"@ {
            "Insufficient account balance. Solution: Please go to the management console to recharge the account."@
        } else if code == "54005"@ {
            "Long query requests are frequent. Solution: Please reduce the sending frequency of long queries and try again after 3s."@
        } else if code == "58000"@ {
            "Client IP is illegal. Solution: Check whether the IP address filled in the personal information is correct, and you can go to Developer Information-Basic Information to modify it."@
        } else if code == "58001"@ {
            "Target language direction is not supported. Solution: Check if the target language is in the language list."@
        } else if code == "58002"@ {
            "The service is currently down. Solution: Please go to the management console to enable the service."@
        } else if code == "90107"@ {
            "The certification has not passed or is not valid. Solution: Please go to My Certification to check the certification progress."@
        } else {
            "unknown error"@
        }
    }

    /// The advice published for this record's error code.
    pub fn solution(&self) -> (r: &'static str)
        ensures
            r@ == Self::spec_solution(self.code@),
    {
        let code = self.code.as_str();
        if str_eq(code, "52000") {
            "success"
        } else if str_eq(code, "52001") {
            "Request timed out. Solution: Please try again."
        } else if str_eq(code, "52002") {
            "system error. Solution: Please try again."
        } else if str_eq(code, "52003") {
            "Unauthorized user. Solution: Please check whether the appid is correct or whether the service is enabled."
        } else if str_eq(code, "54000") {
            "The required parameter is empty. Solution: Please check whether to pass fewer parameters."
        } else if str_eq(code, "54001") {
            "Wrong signature. Solution: Please check your signature generation method."
        } else if str_eq(code, "54003") {
            "Frequency of access is limited. Solution: Please reduce your calling frequency, or switch to the premium version after authentication."
        } else if str_eq(code, "54004") {
            "Insufficient account balance. Solution: Please go to the management console to recharge the account."
        } else if str_eq(code, "54005") {
            "Long query requests are frequent. Solution: Please reduce the sending frequency of long queries and try again after 3s."
        } else if str_eq(code, "58000") {
            "Client IP is illegal. Solution: Check whether the IP address filled in the personal information is correct, and you can go to Developer Information-Basic Information to modify it."
        } else if str_eq(code, "58001") {
            "Target language direction is not supported. Solution: Check if the target language is in the language list."
        } else if str_eq(code, "58002") {
            "The service is currently down. Solution: Please go to the management console to enable the service."
        } else if str_eq(code, "90107") {
            "The certification has not passed or is not valid. Solution: Please go to My Certification to check the certification progress."
        } else {
            "unknown error"
        }
    }
}

} // verus!
