use base64::Engine;
use credinform_cli::credinform::models::address::capitalize;
use credinform_cli::credinform::models::credinform_data::CredinformData;
use credinform_cli::credinform::models::credinform_file::CredinformFile;
use credinform_cli::credinform::{AccessToken, Address, SearchCompany, TaxNumber};
use credinform_cli::error::{AppError, Base64Error};
use credinform_cli::json::JsonValue;

fn s(x: &str) -> String {
    x.to_string()
}

fn obj(members: Vec<(&str, JsonValue)>) -> JsonValue {
    JsonValue::Object(members.into_iter().map(|(k, v)| (s(k), v)).collect())
}

fn text(x: &str) -> JsonValue {
    JsonValue::Str(s(x))
}

#[test]
fn capitalize_uppercases_only_the_first_character() {
    assert_eq!(capitalize("basicInformation"), "BasicInformation");
    assert_eq!(capitalize(""), "");
    assert_eq!(capitalize("élan vital"), "Élan vital");
    assert_eq!(capitalize("ßx"), "SSx");
    assert_eq!(capitalize("Trademarks"), "Trademarks");
}

#[test]
fn address_new_keeps_text_and_parse_capitalizes() {
    assert_eq!(Address::new("basicInformation").to_string(), "basicInformation");
    let parsed: Address = "basicInformation".parse().unwrap();
    assert_eq!(parsed.to_string(), "BasicInformation");
    assert_eq!(parsed.as_str(), "BasicInformation");
}

#[test]
fn from_vec_keeps_order_and_text() {
    let list = vec![s("7838368395"), s("7707083893")];
    let numbers = TaxNumber::from_vec(&list);
    assert_eq!(numbers.len(), 2);
    assert_eq!(numbers[0].to_string(), "7838368395");
    assert_eq!(numbers[1].as_str(), "7707083893");
    let fields = vec![s("BasicInformation"), s("trademarks")];
    let addresses = Address::from_vec(&fields);
    assert_eq!(addresses[0].to_string(), "BasicInformation");
    assert_eq!(addresses[1].to_string(), "trademarks");
    assert!(Address::from_vec(&Vec::new()).is_empty());
}

#[test]
fn plain_wrappers_keep_their_text() {
    assert_eq!(AccessToken::new("abc-123").to_string(), "abc-123");
    let t: AccessToken = "key".parse().unwrap();
    assert_eq!(t.to_string(), "key");
    let n: TaxNumber = "7838368395".parse().unwrap();
    assert_eq!(n.to_string(), "7838368395");
    let c = SearchCompany::new("id-1", "ООО Ромашка");
    assert_eq!(c.id, "id-1");
    assert_eq!(c.name, "ООО Ромашка");
}

#[test]
fn credinform_data_keeps_the_data_object() {
    let response = obj(vec![
        ("meta", text("x")),
        ("data", obj(vec![("inn", text("7838368395")), ("year", JsonValue::Number(s("2020")))])),
    ]);
    let d = CredinformData::new("Ромашка", response).unwrap();
    assert_eq!(d.company_name, "Ромашка");
    assert_eq!(d.data.len(), 2);
    assert_eq!(d.data[0].0, "inn");
    assert_eq!(d.data[1].0, "year");
}

#[test]
fn credinform_data_without_data_object_is_empty() {
    let d = CredinformData::new("A", obj(vec![("data", text("not an object"))])).unwrap();
    assert!(d.data.is_empty());
    let d = CredinformData::new("A", text("plain")).unwrap();
    assert!(d.data.is_empty());
    let d = CredinformData::new("A", JsonValue::Null).unwrap();
    assert!(d.data.is_empty());
}

#[test]
fn credinform_data_paths() {
    let d = CredinformData::new("ООО Ромашка", JsonValue::Null).unwrap();
    let t = TaxNumber::new("7838368395");
    assert_eq!(d.dir(&t), "credinform_data/7838368395 - ООО Ромашка");
    assert_eq!(
        d.file_path(&Address::new("BasicInformation"), &t),
        "credinform_data/7838368395 - ООО Ромашка/BasicInformation.json"
    );
}

fn image(name: Option<&str>, ext: Option<&str>, data: Option<&str>) -> JsonValue {
    let mut m = Vec::new();
    if let Some(n) = name {
        m.push(("fileName", text(n)));
    }
    if let Some(e) = ext {
        m.push(("extension", text(e)));
    }
    if let Some(d) = data {
        m.push(("fileData", text(d)));
    }
    obj(m)
}

#[test]
fn credinform_file_reads_its_three_strings() {
    let f = CredinformFile::new("Co", &image(Some("logo"), Some("PNG"), Some("aGVsbG8="))).unwrap();
    assert_eq!(f.to_string(), "logo.PNG");
    let t = TaxNumber::new("123");
    assert_eq!(f.dir(&t), "credinform_data/123 - Co/files");
    assert_eq!(f.file_path(&t), "credinform_data/123 - Co/files/logo.png");
    assert_eq!(f.decoded_bytes().unwrap(), b"hello".to_vec());
    let d = CredinformData::new("Co", JsonValue::Null).unwrap();
    assert!(f.dir(&t).starts_with(&d.dir(&t)));
    assert_eq!(f.dir(&t), format!("{}/files", d.dir(&t)));
}

#[test]
fn credinform_file_names_the_first_missing_member() {
    assert_eq!(
        CredinformFile::new("Co", &image(None, None, None)).unwrap_err(),
        "Failed to get fileName"
    );
    assert_eq!(
        CredinformFile::new("Co", &image(Some("a"), None, Some("x"))).unwrap_err(),
        "Failed to get extension"
    );
    assert_eq!(
        CredinformFile::new("Co", &image(Some("a"), Some("b"), None)).unwrap_err(),
        "Failed to get fileData"
    );
    let wrong_type = obj(vec![
        ("fileName", JsonValue::Number(s("1"))),
        ("extension", text("b")),
        ("fileData", text("c")),
    ]);
    assert_eq!(CredinformFile::new("Co", &wrong_type).unwrap_err(), "Failed to get fileName");
    assert_eq!(
        CredinformFile::new("Co", &JsonValue::Null).unwrap_err(),
        "Failed to get fileName"
    );
}

#[test]
fn credinform_file_with_bad_base64_fails_to_decode() {
    for (data, expected) in [
        ("!!!", "Invalid symbol 33, offset 0."),
        ("aGVsbG8", "Invalid padding"),
        ("aGVsbG8=!", "Invalid symbol 33, offset 8."),
    ] {
        let f = CredinformFile::new("Co", &image(Some("a"), Some("b"), Some(data))).unwrap();
        match f.decoded_bytes() {
            Err(e @ AppError::InvalidFileData(_)) => {
                assert_eq!(e.message(), expected);
                let theirs = base64::engine::general_purpose::STANDARD.decode(data).unwrap_err();
                assert_eq!(e.message(), theirs.to_string());
            }
            other => panic!("unexpected {:?}", other),
        }
    }
}

#[test]
fn decoder_messages_for_every_error() {
    assert_eq!(
        Base64Error::InvalidByte { offset: 12, byte: 45 }.message(),
        "Invalid symbol 45, offset 12."
    );
    assert_eq!(Base64Error::InvalidLength { length: 5 }.message(), "Invalid input length: 5");
    assert_eq!(
        Base64Error::InvalidLastSymbol { offset: 3, byte: 255 }.message(),
        "Invalid last symbol 255, offset 3."
    );
    assert_eq!(Base64Error::InvalidPadding.message(), "Invalid padding");
}

#[test]
fn capitalizing_twice_changes_nothing_more() {
    for s in ["", "basic", "Basic", "ßeta", "élan", "1abc"] {
        assert_eq!(capitalize(&capitalize(s)), capitalize(s));
    }
}
