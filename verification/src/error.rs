use vstd::prelude::*;

verus! {

/// A plain error record: a message, and optionally the text of an
/// underlying error.
#[derive(Debug, PartialEq, Eq)]
pub struct TextError {
    pub message: String,
    pub error: Option<String>,
}

/// The error taxonomy of the library: construction and format problems
/// (`Text`), transport failures (`Fetch`), provider-specific rejections
/// (`BaiduError`) and missing credentials (`MissingToken`).
#[derive(Debug, PartialEq, Eq)]
pub enum Error {
    Text(TextError),
    Fetch(String),
    BaiduError(String),
    MissingToken(String),
}

impl Clone for TextError {
    fn clone(&self) -> (r: Self)
        ensures
            r == *self,
    {
        TextError { message: self.message.clone(), error: self.error.clone() }
    }
}

impl Clone for Error {
    fn clone(&self) -> (r: Self)
        ensures
            r == *self,
    {
        match self {
            Error::Text(t) => Error::Text(t.clone()),
            Error::Fetch(s) => Error::Fetch(s.clone()),
            Error::BaiduError(s) => Error::BaiduError(s.clone()),
            Error::MissingToken(s) => Error::MissingToken(s.clone()),
        }
    }
}

/// The message of a missing-credential error, naming the absent token.
pub open spec fn spec_missing_token_message(token: Seq<char>) -> Seq<char> {
    "Missing token: "@ + token + ". Add token to .env"@
}

impl Error {
    /// A `Text` error that wraps an underlying error's text.
    pub fn new(message: &str, error: &str) -> (r: Error)
        ensures
            r matches Error::Text(t) && t.message@ == message@ && (t.error matches Some(e) && e@
                == error@),
    {
        Error::Text(TextError { message: message.to_owned(), error: Some(error.to_owned()) })
    }

    /// A `Text` error that carries only a message.
    pub fn new_option(message: &str) -> (r: Error)
        ensures
            r matches Error::Text(t) && t.message@ == message@ && t.error is None,
    {
        Error::Text(TextError { message: message.to_owned(), error: None })
    }

    /// The error for a credential that a provider needs but the token set
    /// does not hold.
    pub fn missing_token(token: &str) -> (r: Error)
        ensures
            r matches Error::MissingToken(m) && m@ == spec_missing_token_message(token@),
    {
        let mut m = String::new();
        m.append("Missing token: ");
        m.append(token);
        m.append(". Add token to .env");
        Error::MissingToken(m)
    }
}

} // verus!
