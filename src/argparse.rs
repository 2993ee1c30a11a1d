use vstd::prelude::*;

use crate::api::{Error, NMT_URL, SMT_URL};
use crate::model::{code_outcome, parse_code, Lang, PapagoReq};

verus! {

/// The lowercase form of a string.
pub uninterp spec fn lowercase_of(s: Seq<char>) -> Seq<char>;

/// Relies on str::to_lowercase: the lowercase form of a string, which depends on
/// its characters alone.
#[verifier::external_body]
fn lowercase(s: &str) -> (r: String)
    ensures
        r@ == lowercase_of(s@),
{
    s.to_lowercase()
}

/// The language named by a code written in any letter case, or `InvalidLanguage`.
pub fn parse_lang(possible_lang: &str) -> (r: Result<Lang, Error>)
    ensures
        r == code_outcome(lowercase_of(possible_lang@)),
{
    let lowered = lowercase(possible_lang);
    parse_code(lowered.as_str())
}

/// What one run of the command asks for: the request, and the endpoint to send it to.
pub struct CLIArgs {
    pub payload: PapagoReq,
    pub api: &'static str,
}

/// The endpoint chosen by the statistical-model flag; the neural one by default.
pub open spec fn endpoint_url(smt: bool) -> Seq<char> {
    if smt {
        SMT_URL@
    } else {
        NMT_URL@
    }
}

/// The endpoint chosen by the statistical-model flag; the neural one by default.
pub fn endpoint(smt: bool) -> (r: &'static str)
    ensures
        r@ == endpoint_url(smt),
{
    if smt {
        SMT_URL
    } else {
        NMT_URL
    }
}

/// The run described by the command-line values: both language codes are read in
/// any letter case, and an unknown one gives `InvalidLanguage`.
pub fn cli_args(source: &str, target: &str, text: &str, smt: bool) -> (r: Result<CLIArgs, Error>)
    ensures
        match (code_outcome(lowercase_of(source@)), code_outcome(lowercase_of(target@))) {
            (Ok(s), Ok(t)) => r matches Ok(a) && a.payload.source == s && a.payload.target == t
                && a.payload.text@ == text@ && a.api@ == endpoint_url(smt),
            _ => r == Err::<CLIArgs, Error>(Error::InvalidLanguage),
        },
{
    let source = match parse_lang(source) {
        Ok(l) => l,
        Err(e) => {
            return Err(e);
        },
    };
    let target = match parse_lang(target) {
        Ok(l) => l,
        Err(e) => {
            return Err(e);
        },
    };
    let payload = PapagoReq { source, target, text: text.to_owned() };
    Ok(CLIArgs { payload, api: endpoint(smt) })
}

} // verus!
