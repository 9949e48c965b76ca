use credinform_cli::config::{Client, Data};
use credinform_cli::credinform::TaxNumber;
use credinform_cli::error::AppError;
use credinform_cli::fns::{build_url, FnsClient, FnsResponse};
use credinform_cli::json::JsonValue;

fn client(base: &str, token: &str) -> Client {
    let mut data = Data::default_config();
    data.fns.base_url = base.to_string();
    data.fns.token = token.to_string();
    Client::new(data)
}

#[test]
fn url_join_uses_one_slash() {
    assert_eq!(build_url("https://api-fns.ru/api", "egr").unwrap(), "https://api-fns.ru/api/egr");
    assert_eq!(build_url("https://api-fns.ru/api//", "//egr").unwrap(), "https://api-fns.ru/api/egr");
    assert_eq!(
        build_url("https://api-fns.ru/api/", "/egr").unwrap(),
        build_url("https://api-fns.ru/api", "egr").unwrap()
    );
    assert!(build_url("not a url", "egr").is_err());
    assert_eq!(build_url("HTTPS://API-FNS.RU/api", "egr").unwrap(), "https://api-fns.ru/api/egr");
    assert_eq!(build_url("https://api-fns.ru", "").unwrap(), "https://api-fns.ru/");
}

#[test]
fn prepared_request_carries_tax_number_and_key() {
    let fns = FnsClient::new(&client("https://api-fns.ru/api/", "KEY"));
    let req = fns.prepare("/search", &TaxNumber::new("7838368395")).unwrap();
    assert_eq!(req.url, "https://api-fns.ru/api/search");
    assert_eq!(req.endpoint, "/search");
    assert_eq!(
        req.query,
        vec![
            ("req".to_string(), "7838368395".to_string()),
            ("key".to_string(), "KEY".to_string())
        ]
    );
}

#[test]
fn empty_key_is_refused_before_anything_else() {
    let fns = FnsClient::new(&client("not a url", ""));
    match fns.prepare("egr", &TaxNumber::new("1")) {
        Err(e @ AppError::EmptyFnsToken) => assert_eq!(
            e.message(),
            "FNS token пуст. Заполните значение в config.toml (fns.token)"
        ),
        other => panic!("{:?}", other),
    }
}

#[test]
fn bad_base_address_is_refused() {
    let fns = FnsClient::new(&client("not a url", "KEY"));
    match fns.prepare("egr", &TaxNumber::new("1")) {
        Err(e @ AppError::InvalidFnsUrl { .. }) => {
            assert_eq!(e.message(), "Некорректный путь FNS для egr")
        }
        other => panic!("{:?}", other),
    }
}

#[test]
fn response_is_json_or_text() {
    let json = FnsResponse::from_body("egr", Some(JsonValue::Bool(true)), "true".to_string());
    assert_eq!(json.endpoint, "egr");
    assert!(matches!(json.data, JsonValue::Bool(true)));
    let plain = FnsResponse::from_body("egr", None, "<html>".to_string());
    match plain.data {
        JsonValue::Str(t) => assert_eq!(t, "<html>"),
        other => panic!("{:?}", other),
    }
}

#[test]
fn response_paths() {
    let t = TaxNumber::new("7838368395");
    assert_eq!(FnsResponse::dir(&t), "fns_data/7838368395");
    let r = FnsResponse::from_body("vyp", None, String::new());
    assert_eq!(r.file_path(&t), "fns_data/7838368395/vyp.json");
}
