//! The FNS client: request addresses, the answer kept as JSON or as text,
//! and where answers are saved.
use vstd::prelude::*;
use crate::config::Client;
use crate::credinform::TaxNumber;
use crate::error::AppError;
use crate::json::JsonValue;
use crate::text::{trim_end, trim_end_char, trim_start, trim_start_char};
use crate::urls::{parse_url, parsed_url};

verus! {

/// The address of `endpoint` under `base`: the trailing `/` of the base and
/// the leading `/` of the endpoint are dropped, and one `/` joins them.
pub open spec fn join_url(base: Seq<char>, endpoint: Seq<char>) -> Seq<char> {
    trim_end(base, '/') + seq!['/'] + trim_start(endpoint, '/')
}

/// Parses the address of `endpoint` under `base`.
pub fn build_url(base: &str, endpoint: &str) -> (r: Result<String, String>)
    ensures
        match r {
            Ok(u) => parsed_url(join_url(base@, endpoint@)) == Some(u@),
            Err(_) => parsed_url(join_url(base@, endpoint@)) is None,
        },
{
    let mut full = trim_end_char(base, '/');
    crate::text::push_char(&mut full, '/');
    let tail = trim_start_char(endpoint, '/');
    full.append(tail.as_str());
    assert(full@ =~= join_url(base@, endpoint@));
    parse_url(full.as_str())
}

/// A GET request to make: the address, and the query pairs `req` (the tax
/// number) and `key` (the API key), in that order.
#[derive(Debug)]
pub struct FnsRequest {
    pub endpoint: String,
    pub url: String,
    pub query: Vec<(String, String)>,
}

/// The client's settings: the base address without trailing `/`, and the key.
#[derive(Debug, Clone)]
pub struct FnsClient {
    base_url: String,
    key: String,
}

impl FnsClient {
    /// The base address the client uses.
    pub closed spec fn spec_base_url(self) -> Seq<char> {
        self.base_url@
    }

    /// The API key the client sends.
    pub closed spec fn spec_key(self) -> Seq<char> {
        self.key@
    }

    /// A client for the FNS settings of `config`.
    pub fn new(config: &Client) -> (r: Self)
        ensures
            r.spec_base_url() == trim_end(config.data.fns.base_url@, '/'),
            r.spec_key() == config.data.fns.token@,
    {
        FnsClient {
            base_url: trim_end_char(config.fns_base_url(), '/'),
            key: config.fns_token().to_owned(),
        }
    }

    /// The request for `endpoint` about `tax_number`. Fails, before anything
    /// is sent, when the key is empty or the address does not parse.
    pub fn prepare(&self, endpoint: &str, tax_number: &TaxNumber) -> (r: Result<
        FnsRequest,
        AppError,
    >)
        ensures
            self.spec_key().len() == 0 ==> r matches Err(AppError::EmptyFnsToken),
            self.spec_key().len() > 0 && parsed_url(join_url(self.spec_base_url(), endpoint@))
                is None ==> (r matches Err(AppError::InvalidFnsUrl { endpoint: e, .. })
                && e@ == endpoint@),
            r matches Ok(req) ==> {
                &&& self.spec_key().len() > 0
                &&& parsed_url(join_url(self.spec_base_url(), endpoint@)) == Some(req.url@)
                &&& req.endpoint@ == endpoint@
                &&& req.query@.len() == 2
                &&& req.query@[0].0@ == "req"@
                &&& req.query@[0].1@ == tax_number@
                &&& req.query@[1].0@ == "key"@
                &&& req.query@[1].1@ == self.spec_key()
            },
            self.spec_key().len() > 0 && parsed_url(join_url(self.spec_base_url(), endpoint@))
                is Some ==> r is Ok,
    {
        if self.key.as_str().is_empty() {
            return Err(AppError::EmptyFnsToken);
        }
        let url = match build_url(self.base_url.as_str(), endpoint) {
            Ok(u) => u,
            Err(reason) => {
                return Err(AppError::InvalidFnsUrl { endpoint: endpoint.to_owned(), reason });
            },
        };
        let mut query: Vec<(String, String)> = Vec::new();
        query.push(("req".to_owned(), tax_number.to_string()));
        query.push(("key".to_owned(), self.key.as_str().to_owned()));
        Ok(FnsRequest { endpoint: endpoint.to_owned(), url, query })
    }
}

/// The answer of one FNS endpoint.
#[derive(Debug)]
pub struct FnsResponse {
    pub endpoint: String,
    pub data: JsonValue,
}

impl FnsResponse {
    /// The answer to keep: the parsed JSON when the body is JSON, else the
    /// body's text as a JSON string.
    pub fn from_body(endpoint: &str, parsed: Option<JsonValue>, text: String) -> (r: Self)
        ensures
            r.endpoint@ == endpoint@,
            match parsed {
                Some(v) => r.data == v,
                None => r.data == JsonValue::Str(text),
            },
    {
        let data = match parsed {
            Some(v) => v,
            None => JsonValue::Str(text),
        };
        FnsResponse { endpoint: endpoint.to_owned(), data }
    }

    /// The folder answers about a company are saved in: `fns_data/<tax number>`.
    pub fn dir(tax_number: &TaxNumber) -> (r: String)
        ensures
            r@ == "fns_data/"@ + tax_number@,
    {
        let mut r = "fns_data/".to_owned();
        r.append(tax_number.as_str());
        r
    }

    /// The file the answer is saved in: `fns_data/<tax number>/<endpoint>.json`.
    pub fn file_path(&self, tax_number: &TaxNumber) -> (r: String)
        ensures
            r@ == "fns_data/"@ + tax_number@ + "/"@ + self.endpoint@ + ".json"@,
    {
        let mut r = FnsResponse::dir(tax_number);
        r.append("/");
        r.append(self.endpoint.as_str());
        r.append(".json");
        r
    }
}

/// A trimmed string does not end with the trimmed character.
proof fn lemma_trim_end_no_trailing(s: Seq<char>, c: char)
    ensures
        trim_end(s, c).len() > 0 ==> trim_end(s, c).last() != c,
        trim_end(s, c).len() <= s.len(),
    decreases s.len(),
{
    if s.len() > 0 && s.last() == c {
        lemma_trim_end_no_trailing(s.drop_last(), c);
    }
}

/// A trimmed string does not start with the trimmed character.
proof fn lemma_trim_start_no_leading(s: Seq<char>, c: char)
    ensures
        trim_start(s, c).len() > 0 ==> trim_start(s, c)[0] != c,
    decreases s.len(),
{
    if s.len() > 0 && s[0] == c {
        lemma_trim_start_no_leading(s.drop_first(), c);
    }
}

/// Law: slashes at the end of the base address and at the start of the
/// endpoint do not change the address requested.
pub proof fn law_join_url_ignores_extra_slashes(base: Seq<char>, endpoint: Seq<char>)
    ensures
        join_url(base.push('/'), endpoint) == join_url(base, endpoint),
        join_url(base, seq!['/'] + endpoint) == join_url(base, endpoint),
{
    assert(base.push('/').drop_last() =~= base);
    assert((seq!['/'] + endpoint).drop_first() =~= endpoint);
}

/// Law: the base address and the endpoint are joined by exactly one `/`,
/// whatever slashes they carried.
pub proof fn law_join_url_single_slash(base: Seq<char>, endpoint: Seq<char>)
    ensures
        ({
            let b = trim_end(base, '/');
            let e = trim_start(endpoint, '/');
            &&& join_url(base, endpoint) == b + seq!['/'] + e
            &&& b.len() > 0 ==> b.last() != '/'
            &&& e.len() > 0 ==> e[0] != '/'
        }),
{
    lemma_trim_end_no_trailing(base, '/');
    lemma_trim_start_no_leading(endpoint, '/');
}

/// Law: a client's base address never ends with `/`.
pub proof fn law_client_base_has_no_trailing_slash(configured: Seq<char>)
    ensures
        trim_end(configured, '/').len() > 0 ==> trim_end(configured, '/').last() != '/',
{
    lemma_trim_end_no_trailing(configured, '/');
}

} // verus!
