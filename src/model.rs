use vstd::prelude::*;

use crate::api::Error;

verus! {

/// A language that the service translates from or into.
#[derive(Debug, Clone, Copy, PartialEq, Eq, Structural)]
pub enum Lang {
    /// Korean
    Ko,
    /// English
    En,
    /// Simplified Chinese
    Cn,
    /// Traditional Chinese
    Tw,
    /// Spanish
    Es,
    /// French
    Fr,
    /// Vietnamese
    Vi,
    /// Thai
    Th,
    /// Indonesian
    Id,
}

/// The wire code of a language.
pub open spec fn lang_code(l: Lang) -> Seq<char> {
    match l {
        Lang::Ko => "ko"@,
        Lang::En => "en"@,
        Lang::Cn => "cn"@,
        Lang::Tw => "tw"@,
        Lang::Es => "es"@,
        Lang::Fr => "fr"@,
        Lang::Vi => "vi"@,
        Lang::Th => "th"@,
        Lang::Id => "id"@,
    }
}

/// The language whose wire code is `code`, if there is one.
pub open spec fn lang_of_code(code: Seq<char>) -> Option<Lang> {
    if code == "ko"@ {
        Some(Lang::Ko)
    } else if code == "en"@ {
        Some(Lang::En)
    } else if code == "cn"@ {
        Some(Lang::Cn)
    } else if code == "tw"@ {
        Some(Lang::Tw)
    } else if code == "es"@ {
        Some(Lang::Es)
    } else if code == "fr"@ {
        Some(Lang::Fr)
    } else if code == "vi"@ {
        Some(Lang::Vi)
    } else if code == "th"@ {
        Some(Lang::Th)
    } else if code == "id"@ {
        Some(Lang::Id)
    } else {
        None
    }
}

/// What reading `code` as a wire code gives: its language, or `InvalidLanguage`.
pub open spec fn code_outcome(code: Seq<char>) -> Result<Lang, Error> {
    match lang_of_code(code) {
        Some(l) => Ok(l),
        None => Err(Error::InvalidLanguage),
    }
}

impl Lang {
    /// The two-letter code that stands for this language on the wire.
    pub fn code(&self) -> (r: &'static str)
        ensures
            r@ == lang_code(*self),
    {
        match self {
            Lang::Ko => "ko",
            Lang::En => "en",
            Lang::Cn => "cn",
            Lang::Tw => "tw",
            Lang::Es => "es",
            Lang::Fr => "fr",
            Lang::Vi => "vi",
            Lang::Th => "th",
            Lang::Id => "id",
        }
    }
}

/// Whether two strings hold the same characters.
fn same_text(a: &str, b: &str) -> (r: bool)
    ensures
        r == (a@ == b@),
{
    let n = a.unicode_len();
    if n != b.unicode_len() {
        return false;
    }
    let mut i: usize = 0;
    while i < n
        invariant
            n == a@.len(),
            n == b@.len(),
            i <= n,
            forall|j: int| 0 <= j < i ==> a@[j] == b@[j],
        decreases n - i,
    {
        if a.get_char(i) != b.get_char(i) {
            return false;
        }
        i = i + 1;
    }
    assert(a@ =~= b@);
    true
}

/// Reads an exact wire code (case matters): its language, or `InvalidLanguage`.
pub fn parse_code(code: &str) -> (r: Result<Lang, Error>)
    ensures
        r == code_outcome(code@),
{
    if same_text(code, "ko") {
        Ok(Lang::Ko)
    } else if same_text(code, "en") {
        Ok(Lang::En)
    } else if same_text(code, "cn") {
        Ok(Lang::Cn)
    } else if same_text(code, "tw") {
        Ok(Lang::Tw)
    } else if same_text(code, "es") {
        Ok(Lang::Es)
    } else if same_text(code, "fr") {
        Ok(Lang::Fr)
    } else if same_text(code, "vi") {
        Ok(Lang::Vi)
    } else if same_text(code, "th") {
        Ok(Lang::Th)
    } else if same_text(code, "id") {
        Ok(Lang::Id)
    } else {
        Err(Error::InvalidLanguage)
    }
}

/// Every language reads back from its own wire code, so no two languages share a code.
pub proof fn lemma_code_round_trip(l: Lang)
    ensures
        lang_of_code(lang_code(l)) == Some(l),
        code_outcome(lang_code(l)) == Ok::<Lang, Error>(l),
{
    reveal_strlit("ko");
    reveal_strlit("en");
    reveal_strlit("cn");
    reveal_strlit("tw");
    reveal_strlit("es");
    reveal_strlit("fr");
    reveal_strlit("vi");
    reveal_strlit("th");
    reveal_strlit("id");
    assert("ko"@[0] == 'k' && "ko"@[1] == 'o');
    assert("en"@[0] == 'e' && "en"@[1] == 'n');
    assert("cn"@[0] == 'c' && "cn"@[1] == 'n');
    assert("tw"@[0] == 't' && "tw"@[1] == 'w');
    assert("es"@[0] == 'e' && "es"@[1] == 's');
    assert("fr"@[0] == 'f' && "fr"@[1] == 'r');
    assert("vi"@[0] == 'v' && "vi"@[1] == 'i');
    assert("th"@[0] == 't' && "th"@[1] == 'h');
    assert("id"@[0] == 'i' && "id"@[1] == 'd');
}

/// The payload of one translation: sent as `source`, `target` and `text` form fields.
#[derive(Debug, Clone, PartialEq, Eq)]
pub struct PapagoReq {
    /// Source language
    pub source: Lang,
    /// Target language
    pub target: Lang,
    /// Text in the source language
    pub text: String,
}

/// The form fields of a request, in the order they are sent.
pub open spec fn form_fields(req: PapagoReq) -> Seq<(Seq<char>, Seq<char>)> {
    seq![("source"@, lang_code(req.source)), ("target"@, lang_code(req.target)), ("text"@, req.text@)]
}

/// The part of a successful reply that holds the translation.
#[derive(Debug, Clone, PartialEq, Eq)]
pub struct PapagoResult {
    /// The translated text (`translatedText` on the wire)
    pub translated_text: String,
}

/// The envelope of a successful reply (`message` on the wire).
#[derive(Debug, Clone, PartialEq, Eq)]
pub struct Message {
    /// `@type` on the wire
    pub _type: String,
    /// `@service` on the wire
    pub _service: String,
    /// `@version` on the wire
    pub _version: String,
    /// The translation
    pub result: PapagoResult,
}

/// A reply of the service, told apart by its shape.
#[derive(Debug, Clone, PartialEq, Eq)]
pub enum PapagoResponse {
    /// `{"message": {"@type", "@service", "@version", "result": {"translatedText"}}}`
    Success { message: Message },
    /// `{"errorMessage", "errorCode"}`
    Fail { error_message: String, error_code: String },
}

} // verus!
