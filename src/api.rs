use vstd::prelude::*;

use crate::config::NaverAuth;
use serde_urlencoded::ser::Error as FormError;
use crate::model::{form_fields, lang_code, PapagoReq, PapagoResponse};

verus! {

/// The endpoint of the neural translation model.
pub const NMT_URL: &'static str = "https://openapi.naver.com/v1/papago/n2mt";

/// The endpoint of the statistical translation model.
pub const SMT_URL: &'static str = "https://openapi.naver.com/v1/language/translate";

/// What can go wrong in one translation.
#[derive(Debug, Clone, PartialEq, Eq)]
pub enum Error {
    /// The request could not be form-encoded.
    WrongPayload,
    /// The request got no answer (connection, timeout, TLS).
    ReqFail,
    /// The answer fit neither reply shape.
    RespParseFail,
    /// The service refused the request, with this message.
    PapagoError(String),
    /// A language code outside the supported set.
    InvalidLanguage,
}

/// The text that describes an error to a person.
pub open spec fn error_text(e: Error) -> Seq<char> {
    match e {
        Error::WrongPayload => "Request payload is not correct"@,
        Error::ReqFail => "Request has failed. Maybe check your internet connection."@,
        Error::RespParseFail => "Response was not something expected. Please report if it's a bug"@,
        Error::PapagoError(msg) => msg@,
        Error::InvalidLanguage => "Language code is not supported"@,
    }
}

impl Error {
    /// The text that describes this error to a person; a service error is its message.
    pub fn describe(&self) -> (r: String)
        ensures
            r@ == error_text(*self),
    {
        match self {
            Error::WrongPayload => String::from_str("Request payload is not correct"),
            Error::ReqFail => String::from_str(
                "Request has failed. Maybe check your internet connection.",
            ),
            Error::RespParseFail => String::from_str(
                "Response was not something expected. Please report if it's a bug",
            ),
            Error::PapagoError(msg) => msg.clone(),
            Error::InvalidLanguage => String::from_str("Language code is not supported"),
        }
    }
}

/// The `application/x-www-form-urlencoded` text of a sequence of name/value pairs.
pub uninterp spec fn form_encoding_of(pairs: Seq<(Seq<char>, Seq<char>)>) -> Seq<char>;

/// The characters of each name and value in a list of string pairs.
pub open spec fn pairs_view(pairs: Seq<(String, String)>) -> Seq<(Seq<char>, Seq<char>)> {
    pairs.map_values(|p: (String, String)| (p.0@, p.1@))
}

#[verifier::external_type_specification]
#[verifier::external_body]
pub struct ExFormError(FormError);

/// Relies on serde_urlencoded::to_string: a sequence of string pairs is always
/// accepted and written as one form-encoded string, `name=value` joined by `&`,
/// which depends on the pairs alone.
#[verifier::external_body]
fn form_encode(pairs: &Vec<(String, String)>) -> (r: Result<String, FormError>)
    ensures
        r is Ok,
        r matches Ok(s) ==> s@ == form_encoding_of(pairs_view(pairs@)),
{
    serde_urlencoded::to_string(pairs)
}

/// The HTTP POST that carries one translation request.
#[derive(Debug, Clone, PartialEq, Eq)]
pub struct HttpPost {
    pub url: String,
    pub headers: Vec<(String, String)>,
    pub body: String,
}

/// What an `HttpPost` holds, as characters.
pub ghost struct PostPlan {
    pub url: Seq<char>,
    pub headers: Seq<(Seq<char>, Seq<char>)>,
    pub body: Seq<char>,
}

impl View for HttpPost {
    type V = PostPlan;

    open spec fn view(&self) -> PostPlan {
        PostPlan { url: self.url@, headers: pairs_view(self.headers@), body: self.body@ }
    }
}

/// The headers that authenticate a request and name its content type.
pub open spec fn auth_headers(auth: NaverAuth) -> Seq<(Seq<char>, Seq<char>)> {
    seq![
        ("X-Naver-Client-Id"@, auth.client_id@),
        ("X-Naver-Client-Secret"@, auth.client_secret@),
        ("Content-Type"@, "application/x-www-form-urlencoded"@),
    ]
}

/// The POST that sends `req` to `url` with `auth`.
pub open spec fn planned_post(url: Seq<char>, auth: NaverAuth, req: PapagoReq) -> PostPlan {
    PostPlan { url, headers: auth_headers(auth), body: form_encoding_of(form_fields(req)) }
}

/// The POST that sends `payload` to `url` with the credentials of `auth`, its body
/// the form encoding of the `source`, `target` and `text` fields. String fields
/// always encode, so this never gives `WrongPayload`.
pub fn prepare_request(url: &str, auth: &NaverAuth, payload: PapagoReq) -> (r: Result<
    HttpPost,
    Error,
>)
    ensures
        r matches Ok(p) && p@ == planned_post(url@, *auth, payload),
{
    let mut fields: Vec<(String, String)> = Vec::new();
    fields.push((String::from_str("source"), String::from_str(payload.source.code())));
    fields.push((String::from_str("target"), String::from_str(payload.target.code())));
    fields.push((String::from_str("text"), payload.text));
    assert(pairs_view(fields@) =~= form_fields(payload));
    let body = match form_encode(&fields) {
        Ok(b) => b,
        Err(_) => {
            return Err(Error::WrongPayload);
        },
    };
    let mut headers: Vec<(String, String)> = Vec::new();
    headers.push((String::from_str("X-Naver-Client-Id"), auth.client_id.clone()));
    headers.push((String::from_str("X-Naver-Client-Secret"), auth.client_secret.clone()));
    headers.push(
        (String::from_str("Content-Type"), String::from_str("application/x-www-form-urlencoded")),
    );
    assert(pairs_view(headers@) =~= auth_headers(*auth));
    Ok(HttpPost { url: String::from_str(url), headers, body })
}

/// Sending the same request to either endpoint differs only in the URL: the
/// headers and the form body are the same.
pub proof fn lemma_endpoint_changes_only_url(auth: NaverAuth, req: PapagoReq)
    ensures
        planned_post(NMT_URL@, auth, req).url == NMT_URL@,
        planned_post(SMT_URL@, auth, req).url == SMT_URL@,
        NMT_URL@ != SMT_URL@,
        planned_post(NMT_URL@, auth, req).headers == planned_post(SMT_URL@, auth, req).headers,
        planned_post(NMT_URL@, auth, req).body == planned_post(SMT_URL@, auth, req).body,
{
    reveal_strlit("https://openapi.naver.com/v1/papago/n2mt");
    reveal_strlit("https://openapi.naver.com/v1/language/translate");
    assert(NMT_URL@[31] != SMT_URL@[31]);
}

/// How the one exchange with the service ended, as seen after decoding the body.
#[derive(Debug, Clone, PartialEq, Eq)]
pub enum Exchange {
    /// No answer came (connection refused, timeout, DNS or TLS failure).
    TransportFailed,
    /// An answer came whose body fits neither reply shape.
    Unrecognised,
    /// An answer came and its body decoded into one of the two reply shapes.
    Decoded(PapagoResponse),
}

/// The result of a translation, given how its exchange ended.
pub open spec fn exchange_outcome(exchange: Exchange) -> Result<String, Error> {
    match exchange {
        Exchange::TransportFailed => Err(Error::ReqFail),
        Exchange::Unrecognised => Err(Error::RespParseFail),
        Exchange::Decoded(PapagoResponse::Success { message }) => Ok(message.result.translated_text),
        Exchange::Decoded(PapagoResponse::Fail { error_message, .. }) => Err(
            Error::PapagoError(error_message),
        ),
    }
}

/// The translated text of a successful reply; otherwise the error that says why
/// there is none: `ReqFail`, `RespParseFail`, or the service's own message.
pub fn conclude(exchange: Exchange) -> (r: Result<String, Error>)
    ensures
        r == exchange_outcome(exchange),
{
    match exchange {
        Exchange::TransportFailed => Err(Error::ReqFail),
        Exchange::Unrecognised => Err(Error::RespParseFail),
        Exchange::Decoded(PapagoResponse::Success { message }) => Ok(message.result.translated_text),
        Exchange::Decoded(PapagoResponse::Fail { error_message, error_code: _ }) => Err(
            Error::PapagoError(error_message),
        ),
    }
}

} // verus!
