use papago::api::{Exchange, HttpPost};
use papago::argparse::{cli_args, endpoint, parse_lang};
use papago::config::{auth_from_values, NaverAuth, NaverAuthError};
use papago::model::{parse_code, Message, PapagoResponse, PapagoResult};
use papago::{conclude, prepare_request, Error, Lang, PapagoReq, NMT_URL, SMT_URL};

const ALL_LANGS: [Lang; 9] = [
    Lang::Ko,
    Lang::En,
    Lang::Cn,
    Lang::Tw,
    Lang::Es,
    Lang::Fr,
    Lang::Vi,
    Lang::Th,
    Lang::Id,
];

fn success(text: &str) -> PapagoResponse {
    PapagoResponse::Success {
        message: Message {
            _type: "response".to_owned(),
            _service: "naverservice.nmt.proxy".to_owned(),
            _version: "1.0.0".to_owned(),
            result: PapagoResult { translated_text: text.to_owned() },
        },
    }
}

fn failure(message: &str, code: &str) -> PapagoResponse {
    PapagoResponse::Fail { error_message: message.to_owned(), error_code: code.to_owned() }
}

fn hello_request(source: Lang, target: Lang) -> PapagoReq {
    PapagoReq { source, target, text: "HELLO WORLD".to_owned() }
}

fn header_pairs(post: &HttpPost) -> Vec<(&str, &str)> {
    post.headers.iter().map(|(k, v)| (k.as_str(), v.as_str())).collect()
}

#[test]
fn test_new() {
    let auth = NaverAuth::new("client_id", "client_secret");
    assert_eq!(
        auth,
        NaverAuth {
            client_id: "client_id".to_owned(),
            client_secret: "client_secret".to_owned(),
        }
    );
}

#[test]
fn credentials_differing_in_one_field_are_unequal() {
    let auth = NaverAuth::new("client_id", "client_secret");
    assert_eq!(auth, NaverAuth::new("client_id", "client_secret"));
    assert_ne!(auth, NaverAuth::new("other_id", "client_secret"));
    assert_ne!(auth, NaverAuth::new("client_id", "other_secret"));
    assert_ne!(auth, NaverAuth::new("client_secret", "client_id"));
}

#[test]
fn every_language_reads_back_from_its_code() {
    let codes = ["ko", "en", "cn", "tw", "es", "fr", "vi", "th", "id"];
    for (lang, code) in ALL_LANGS.iter().zip(codes.iter()) {
        assert_eq!(lang.code(), *code);
        assert_eq!(parse_code(lang.code()), Ok(*lang));
        assert_eq!(parse_lang(lang.code()), Ok(*lang));
    }
}

#[test]
fn parse_code_rejects_unknown_and_uppercase_codes() {
    assert_eq!(parse_code("xx"), Err(Error::InvalidLanguage));
    assert_eq!(parse_code(""), Err(Error::InvalidLanguage));
    assert_eq!(parse_code("kor"), Err(Error::InvalidLanguage));
    assert_eq!(parse_code("EN"), Err(Error::InvalidLanguage));
}

#[test]
fn parse_lang_reads_any_letter_case() {
    assert_eq!(parse_lang("EN"), Ok(Lang::En));
    assert_eq!(parse_lang("Ko"), Ok(Lang::Ko));
    assert_eq!(parse_lang("tW"), Ok(Lang::Tw));
    assert_eq!(parse_lang("de"), Err(Error::InvalidLanguage));
}

#[test]
fn credentials_from_values() {
    let ok = auth_from_values(Some("id".to_owned()), Some("secret".to_owned()));
    assert_eq!(ok.unwrap(), NaverAuth::new("id", "secret"));
    let no_id = auth_from_values(None, Some("secret".to_owned()));
    assert_eq!(no_id.unwrap_err(), NaverAuthError::NoClientId);
    let no_secret = auth_from_values(Some("id".to_owned()), None);
    assert_eq!(no_secret.unwrap_err(), NaverAuthError::NoClientSecret);
    let neither = auth_from_values(None, None);
    assert_eq!(neither.unwrap_err(), NaverAuthError::NoClientId);
}

#[test]
fn prepared_request_carries_form_body_and_headers() {
    let auth = NaverAuth::new("my_id", "my_secret");
    let post = prepare_request(NMT_URL, &auth, hello_request(Lang::En, Lang::Ko)).unwrap();
    assert_eq!(post.url, "https://openapi.naver.com/v1/papago/n2mt");
    assert_eq!(post.body, "source=en&target=ko&text=HELLO+WORLD");
    assert_eq!(
        header_pairs(&post),
        vec![
            ("X-Naver-Client-Id", "my_id"),
            ("X-Naver-Client-Secret", "my_secret"),
            ("Content-Type", "application/x-www-form-urlencoded"),
        ]
    );
}

#[test]
fn form_body_escapes_reserved_and_non_ascii_characters() {
    let auth = NaverAuth::new("id", "secret");
    let payload = PapagoReq { source: Lang::Ko, target: Lang::Fr, text: "a&b=c 세계".to_owned() };
    let post = prepare_request(NMT_URL, &auth, payload).unwrap();
    assert_eq!(post.body, "source=ko&target=fr&text=a%26b%3Dc+%EC%84%B8%EA%B3%84");
}

#[test]
fn switching_endpoint_changes_only_the_url() {
    let auth = NaverAuth::new("id", "secret");
    let neural = prepare_request(NMT_URL, &auth, hello_request(Lang::En, Lang::Ko)).unwrap();
    let statistical = prepare_request(SMT_URL, &auth, hello_request(Lang::En, Lang::Ko)).unwrap();
    assert_eq!(neural.url, NMT_URL);
    assert_eq!(statistical.url, SMT_URL);
    assert_ne!(neural.url, statistical.url);
    assert_eq!(neural.headers, statistical.headers);
    assert_eq!(neural.body, statistical.body);
}

#[test]
fn success_reply_gives_translated_text() {
    let r = conclude(Exchange::Decoded(success("안녕 세계")));
    assert_eq!(r, Ok("안녕 세계".to_owned()));
}

#[test]
fn same_source_target_reply_gives_service_error() {
    let reply = failure(
        "source and target must be different (source와 target이 동일합니다.)",
        "N2MT05",
    );
    assert_eq!(
        conclude(Exchange::Decoded(reply)),
        Err(Error::PapagoError(
            "source and target must be different (source와 target이 동일합니다.)".to_owned()
        ))
    );
}

#[test]
fn unsupported_pair_reply_gives_service_error() {
    let reply = failure(
        "There is no source-to-target translator (source->target 번역기가 없습니다.)",
        "N2MT04",
    );
    assert_eq!(
        conclude(Exchange::Decoded(reply)),
        Err(Error::PapagoError(
            "There is no source-to-target translator (source->target 번역기가 없습니다.)"
                .to_owned()
        ))
    );
}

#[test]
fn unrecognised_reply_gives_parse_error() {
    assert_eq!(conclude(Exchange::Unrecognised), Err(Error::RespParseFail));
}

#[test]
fn missing_answer_gives_request_failure() {
    assert_eq!(conclude(Exchange::TransportFailed), Err(Error::ReqFail));
}

#[test]
fn errors_describe_themselves() {
    assert_eq!(Error::WrongPayload.describe(), "Request payload is not correct");
    assert_eq!(
        Error::ReqFail.describe(),
        "Request has failed. Maybe check your internet connection."
    );
    assert_eq!(
        Error::RespParseFail.describe(),
        "Response was not something expected. Please report if it's a bug"
    );
    assert_eq!(Error::PapagoError("boom".to_owned()).describe(), "boom");
    assert_eq!(Error::InvalidLanguage.describe(), "Language code is not supported");
}

#[test]
fn command_line_values_make_a_run() {
    let args = cli_args("EN", "ko", "HELLO WORLD", false).unwrap();
    assert_eq!(args.payload, hello_request(Lang::En, Lang::Ko));
    assert_eq!(args.api, NMT_URL);
    let args = cli_args("en", "ko", "HELLO WORLD", true).unwrap();
    assert_eq!(args.api, SMT_URL);
    assert_eq!(endpoint(true), SMT_URL);
    assert_eq!(endpoint(false), NMT_URL);
    assert!(matches!(cli_args("en", "zz", "x", false), Err(Error::InvalidLanguage)));
    assert!(matches!(cli_args("zz", "ko", "x", false), Err(Error::InvalidLanguage)));
}
