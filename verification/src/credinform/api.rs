//! What the Credinform client sends and how it reads the answers: request
//! addresses and bodies, and the values taken out of the responses.
use vstd::prelude::*;
use super::models::credinform_file::{file_from_json, CredinformFileView};
use super::models::{AccessToken, Address, CredinformData, CredinformFile, SearchCompany, TaxNumber};
use crate::config::Client;
use crate::error::AppError;
use crate::json::{member, object1, object2, JsonValue};
use crate::urls::{parse_url_with_param, parsed_url, parsed_url_with_param};

verus! {

/// The authorization endpoint.
pub open spec fn token_url() -> Seq<char> {
    "https://restapi.credinform.ru/api/Authorization/GetAccessKey"@
}

/// The company search endpoint, without its query.
pub open spec fn search_url() -> Seq<char> {
    "https://restapi.credinform.ru/api/Search/SearchCompany"@
}

/// The address of a company information endpoint, without its query.
pub open spec fn data_url(address: Seq<char>) -> Seq<char> {
    "https://restapi.credinform.ru/api/CompanyInformation/"@ + address
}

/// The authorization endpoint's address.
pub fn token_url_string() -> (r: String)
    ensures
        r@ == token_url(),
{
    "https://restapi.credinform.ru/api/Authorization/GetAccessKey".to_owned()
}

/// Header pairs as text, in order.
pub open spec fn header_views(headers: Seq<(String, String)>) -> Seq<(Seq<char>, Seq<char>)> {
    headers.map_values(|h: (String, String)| (h.0@, h.1@))
}

/// Appends the header `name: value`.
fn push_header(headers: &mut Vec<(String, String)>, name: &str, value: &str)
    ensures
        header_views(final(headers)@) == header_views(old(headers)@).push((name@, value@)),
{
    headers.push((name.to_owned(), value.to_owned()));
    assert(header_views(headers@) =~= header_views(old(headers)@).push((name@, value@)));
}

/// The headers of the authorization request: JSON in and out.
pub fn token_request_headers() -> (r: Vec<(String, String)>)
    ensures
        header_views(r@) == seq![
            ("Content-Type"@, "application/json"@),
            ("Accept"@, "application/json"@),
        ],
{
    let mut r: Vec<(String, String)> = Vec::new();
    assert(header_views(r@) =~= Seq::empty());
    push_header(&mut r, "Content-Type", "application/json");
    push_header(&mut r, "Accept", "application/json");
    assert(header_views(r@) =~= seq![
        ("Content-Type"@, "application/json"@),
        ("Accept"@, "application/json"@),
    ]);
    r
}

/// The headers of the search and information requests: a JSON patch body,
/// a text answer, and the access key.
pub fn data_request_headers(access_key: &AccessToken) -> (r: Vec<(String, String)>)
    ensures
        header_views(r@) == seq![
            ("Content-Type"@, "application/json-patch+json"@),
            ("Accept"@, "text/plain"@),
            ("accessKey"@, access_key@),
        ],
{
    let mut r: Vec<(String, String)> = Vec::new();
    assert(header_views(r@) =~= Seq::empty());
    push_header(&mut r, "Content-Type", "application/json-patch+json");
    push_header(&mut r, "Accept", "text/plain");
    let key = access_key.to_string();
    push_header(&mut r, "accessKey", key.as_str());
    assert(header_views(r@) =~= seq![
        ("Content-Type"@, "application/json-patch+json"@),
        ("Accept"@, "text/plain"@),
        ("accessKey"@, access_key@),
    ]);
    r
}

/// The body of the authorization request: `{"username": .., "password": ..}`.
pub fn token_request_body(client: &Client) -> (r: JsonValue)
    ensures
        r.spec_keys() == seq!["username"@, "password"@],
        r.str_member("username"@) == Some(client.data.credinform.username@),
        r.str_member("password"@) == Some(client.data.credinform.password@),
{
    proof {
        reveal_strlit("username");
        reveal_strlit("password");
        assert("username"@[0] != "password"@[0]);
    }
    object2(
        "username",
        JsonValue::string(client.username()),
        "password",
        JsonValue::string(client.password()),
    )
}

/// The access key of an authorization response: its `accessKey` string.
pub fn access_token_from_response(response: &JsonValue) -> (r: Result<AccessToken, AppError>)
    ensures
        match r {
            Ok(t) => response.str_member("accessKey"@) == Some(t@),
            Err(e) => response.str_member("accessKey"@) is None && e is MissingAccessKey,
        },
{
    match response.get_str("accessKey") {
        Some(k) => Ok(AccessToken::new(k)),
        None => Err(AppError::MissingAccessKey),
    }
}

/// The company search address with the configured API version as the
/// `apiVersion` query parameter.
pub fn search_company_url(client: &Client) -> (r: Result<String, AppError>)
    ensures
        match r {
            Ok(u) => parsed_url_with_param(search_url(), "apiVersion"@, client.data.credinform.api_version@)
                == Some(u@),
            Err(e) => parsed_url(search_url()) is None && e is InvalidSearchUrl,
        },
{
    match parse_url_with_param(
        "https://restapi.credinform.ru/api/Search/SearchCompany",
        "apiVersion",
        client.api_version(),
    ) {
        Ok(u) => Ok(u),
        Err(reason) => Err(AppError::InvalidSearchUrl { reason }),
    }
}

/// The body of the search request:
/// `{"language": "Russian", "searchCompanyParameters": {"taxNumber": ..}}`.
pub fn search_company_body(tax_number: &TaxNumber) -> (r: JsonValue)
    ensures
        r.spec_keys() == seq!["language"@, "searchCompanyParameters"@],
        r.str_member("language"@) == Some("Russian"@),
        r.spec_get("searchCompanyParameters"@) matches Some(p) && p.spec_keys() == seq![
            "taxNumber"@,
        ] && p.str_member("taxNumber"@) == Some(tax_number@),
{
    proof {
        reveal_strlit("language");
        reveal_strlit("searchCompanyParameters");
        assert("language"@[0] != "searchCompanyParameters"@[0]);
    }
    let params = object1("taxNumber", JsonValue::string(tax_number.as_str()));
    object2("language", JsonValue::string("Russian"), "searchCompanyParameters", params)
}

/// The first company listed in a search response.
pub open spec fn first_company(response: JsonValue) -> Option<JsonValue> {
    match response.array_member("companyDataList"@) {
        Some(list) => if list.len() > 0 {
            Some(list[0])
        } else {
            None
        },
        None => None,
    }
}

/// Law: the company read from a search response is the first entry of its
/// `companyDataList`, whatever the length of the list.
pub proof fn law_first_company_is_entry_zero(response: JsonValue)
    ensures
        match response.array_member("companyDataList"@) {
            Some(list) => if list.len() > 0 {
                first_company(response) == Some(list[0])
            } else {
                first_company(response) is None
            },
            None => first_company(response) is None,
        },
{
}

/// The company of a search response: the `companyId` and `companyName`
/// strings of the first entry of `companyDataList`.
pub fn search_company_from_response(response: &JsonValue, tax_number: &TaxNumber) -> (r: Result<
    SearchCompany,
    AppError,
>)
    ensures
        response.array_member("companyDataList"@) is None ==> (r matches Err(
            AppError::CompanyNotFound { tax_number: t },
        ) && t@ == tax_number@),
        response.array_member("companyDataList"@) is Some && (first_company(*response) is None
            || first_company(*response).unwrap().str_member("companyId"@) is None) ==> (r matches Err(
            AppError::MissingCompanyId { tax_number: t },
        ) && t@ == tax_number@),
        (first_company(*response) matches Some(c) && c.str_member("companyId"@) is Some
            && c.str_member("companyName"@) is None) ==> (r matches Err(
            AppError::MissingCompanyName { tax_number: t },
        ) && t@ == tax_number@),
        r matches Ok(company) ==> (first_company(*response) matches Some(c) && c.str_member(
            "companyId"@,
        ) == Some(company.id@) && c.str_member("companyName"@) == Some(company.name@)),
        (first_company(*response) matches Some(c) && c.str_member("companyId"@) is Some
            && c.str_member("companyName"@) is Some) ==> r is Ok,
        r matches Ok(company) ==> (response.array_member("companyDataList"@) matches Some(list)
            && list.len() > 0 && list[0].str_member("companyId"@) == Some(company.id@)
            && list[0].str_member("companyName"@) == Some(company.name@)),
{
    let list = match response.get("companyDataList") {
        Some(v) => match v.as_array() {
            Some(a) => a,
            None => return Err(AppError::CompanyNotFound { tax_number: tax_number.to_string() }),
        },
        None => return Err(AppError::CompanyNotFound { tax_number: tax_number.to_string() }),
    };
    if list.len() == 0 {
        return Err(AppError::MissingCompanyId { tax_number: tax_number.to_string() });
    }
    let first = &list[0];
    let id = match first.get_str("companyId") {
        Some(s) => s,
        None => return Err(AppError::MissingCompanyId { tax_number: tax_number.to_string() }),
    };
    let name = match first.get_str("companyName") {
        Some(s) => s,
        None => return Err(AppError::MissingCompanyName { tax_number: tax_number.to_string() }),
    };
    Ok(SearchCompany::new(id, name))
}

/// The address of the information endpoint `address`, with the configured
/// API version as the `apiVersion` query parameter.
pub fn company_information_url(client: &Client, address: &Address) -> (r: Result<String, AppError>)
    ensures
        match r {
            Ok(u) => parsed_url_with_param(
                data_url(address@),
                "apiVersion"@,
                client.data.credinform.api_version@,
            ) == Some(u@),
            Err(e) => parsed_url(data_url(address@)) is None && (e matches AppError::InvalidDataUrl {
                address: a,
                ..
            } && a@ == address@),
        },
{
    let mut base = "https://restapi.credinform.ru/api/CompanyInformation/".to_owned();
    base.append(address.as_str());
    match parse_url_with_param(base.as_str(), "apiVersion", client.api_version()) {
        Ok(u) => Ok(u),
        Err(reason) => Err(AppError::InvalidDataUrl { address: address.to_string(), reason }),
    }
}

/// The body of an information request: `{"companyId": .., "language": "Russian"}`.
pub fn company_information_body(company: &SearchCompany) -> (r: JsonValue)
    ensures
        r.spec_keys() == seq!["companyId"@, "language"@],
        r.str_member("companyId"@) == Some(company.id@),
        r.str_member("language"@) == Some("Russian"@),
{
    proof {
        reveal_strlit("companyId");
        reveal_strlit("language");
        assert("companyId"@[0] != "language"@[0]);
    }
    object2(
        "companyId",
        JsonValue::string(company.id.as_str()),
        "language",
        JsonValue::string("Russian"),
    )
}

/// The endpoint that lists a company's trademarks.
pub fn trademarks_address() -> (r: Address)
    ensures
        r@ == "Trademarks"@,
{
    Address::new("Trademarks")
}

/// A file description read from a response, or the message of its failure.
pub open spec fn file_result(r: Result<CredinformFile, String>) -> Result<CredinformFileView, Seq<char>> {
    match r {
        Ok(f) => Ok(f@),
        Err(e) => Err(e@),
    }
}

/// The trademark images of a `Trademarks` response: for each entry of its
/// `trademarkList`, the file described by the entry's `fileImage` (`Null`
/// when absent), or why it could not be read. `None` when there is no list.
pub fn trademark_files(data: &CredinformData) -> (r: Option<Vec<Result<CredinformFile, String>>>)
    ensures
        match r {
            None => !(member(data.data@, "trademarkList"@) matches Some(JsonValue::Array(_))),
            Some(files) => member(data.data@, "trademarkList"@) matches Some(JsonValue::Array(list))
                && files.len() == list.len() && forall|i: int|
                0 <= i < list.len() ==> file_result(#[trigger] files@[i]) == file_from_json(
                    data.company_name@,
                    list@[i].spec_index("fileImage"@),
                ),
        },
{
    let list = match crate::json::find_key(&data.data, "trademarkList") {
        Some(k) => match data.data[k].1.as_array() {
            Some(a) => a,
            None => return None,
        },
        None => return None,
    };
    let mut files: Vec<Result<CredinformFile, String>> = Vec::new();
    let mut i: usize = 0;
    while i < list.len()
        invariant
            i <= list.len(),
            files.len() == i,
            forall|j: int|
                0 <= j < i ==> file_result(#[trigger] files@[j]) == file_from_json(
                    data.company_name@,
                    list@[j].spec_index("fileImage"@),
                ),
        decreases list.len() - i,
    {
        let null = JsonValue::Null;
        let item = &list[i];
        assert(*item == list@[i as int]);
        let image = match item.get("fileImage") {
            Some(v) => v,
            None => &null,
        };
        assert(*image == list@[i as int].spec_index("fileImage"@));
        let file = CredinformFile::new(data.company_name.as_str(), image);
        assert(file_result(file) == file_from_json(data.company_name@, *image));
        files.push(file);
        assert(file_result(files@[i as int]) == file_from_json(
            data.company_name@,
            list@[i as int].spec_index("fileImage"@),
        ));
        i = i + 1;
    }
    Some(files)
}

} // verus!
