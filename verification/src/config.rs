//! The settings read from `config.toml` and the client that serves them.
use vstd::prelude::*;

verus! {

/// The `[credinform]` section: credentials, API version, the companies'
/// tax numbers and the endpoint names to download.
#[derive(Debug)]
pub struct Credinform {
    pub username: String,
    pub password: String,
    pub api_version: String,
    pub tax_numbers: Vec<String>,
    pub fields: Vec<String>,
}

/// The `[fns]` section: the API key, the endpoint names to download and the
/// service's base address.
#[derive(Debug)]
pub struct Fns {
    pub token: String,
    pub fields: Vec<String>,
    pub base_url: String,
}

/// The whole configuration file.
#[derive(Debug)]
pub struct Data {
    pub credinform: Credinform,
    pub fns: Fns,
}

/// The address of the FNS service used when the configuration names none.
pub fn default_fns_base_url() -> (r: String)
    ensures
        r@ == "https://api-fns.ru/api"@,
{
    "https://api-fns.ru/api".to_owned()
}

impl Fns {
    /// An `[fns]` section with no key and no endpoints.
    pub fn empty() -> (r: Self)
        ensures
            r.token@ == Seq::<char>::empty(),
            r.fields@ == Seq::<String>::empty(),
            r.base_url@ == "https://api-fns.ru/api"@,
    {
        Fns { token: String::new(), fields: Vec::new(), base_url: default_fns_base_url() }
    }
}

impl Data {
    /// The configuration written when no file exists yet: placeholder
    /// credentials, API version 1.7 and no companies or endpoints.
    pub fn default_config() -> (r: Self)
        ensures
            r.credinform.username@ == "your_username"@,
            r.credinform.password@ == "your_password"@,
            r.credinform.api_version@ == "1.7"@,
            r.credinform.tax_numbers@ == Seq::<String>::empty(),
            r.credinform.fields@ == Seq::<String>::empty(),
            r.fns.token@ == Seq::<char>::empty(),
            r.fns.fields@ == Seq::<String>::empty(),
            r.fns.base_url@ == "https://api-fns.ru/api"@,
    {
        Data {
            credinform: Credinform {
                username: "your_username".to_owned(),
                password: "your_password".to_owned(),
                api_version: "1.7".to_owned(),
                tax_numbers: Vec::new(),
                fields: Vec::new(),
            },
            fns: Fns::empty(),
        }
    }
}

/// The loaded configuration, with accessors for each setting.
#[derive(Debug)]
pub struct Client {
    pub data: Data,
}

impl Client {
    /// A client serving the settings in `data`.
    pub fn new(data: Data) -> (r: Self)
        ensures
            r.data == data,
    {
        Client { data }
    }

    pub fn username(&self) -> (r: &str)
        ensures
            r@ == self.data.credinform.username@,
    {
        self.data.credinform.username.as_str()
    }

    pub fn password(&self) -> (r: &str)
        ensures
            r@ == self.data.credinform.password@,
    {
        self.data.credinform.password.as_str()
    }

    pub fn api_version(&self) -> (r: &str)
        ensures
            r@ == self.data.credinform.api_version@,
    {
        self.data.credinform.api_version.as_str()
    }

    /// The configured tax numbers.
    pub fn tax_numbers(&self) -> (r: &Vec<String>)
        ensures
            *r == self.data.credinform.tax_numbers,
    {
        &self.data.credinform.tax_numbers
    }

    /// The configured Credinform endpoint names.
    pub fn credinform_fields(&self) -> (r: &Vec<String>)
        ensures
            *r == self.data.credinform.fields,
    {
        &self.data.credinform.fields
    }

    /// The configured FNS endpoint names.
    pub fn fns_fields(&self) -> (r: &Vec<String>)
        ensures
            *r == self.data.fns.fields,
    {
        &self.data.fns.fields
    }

    /// The FNS API key.
    pub fn fns_token(&self) -> (r: &str)
        ensures
            r@ == self.data.fns.token@,
    {
        self.data.fns.token.as_str()
    }

    /// The FNS service's base address.
    pub fn fns_base_url(&self) -> (r: &str)
        ensures
            r@ == self.data.fns.base_url@,
    {
        self.data.fns.base_url.as_str()
    }
}

} // verus!
