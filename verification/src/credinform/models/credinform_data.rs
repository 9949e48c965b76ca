use vstd::prelude::*;
use super::{Address, TaxNumber};
use crate::json::{take_member, JsonValue};

verus! {

/// The members of the `data` object of a response, or none when the
/// response has no `data` object.
pub open spec fn data_section(response: JsonValue) -> Seq<(String, JsonValue)> {
    match response.spec_get("data"@) {
        Some(JsonValue::Object(m)) => m@,
        _ => Seq::empty(),
    }
}

/// The information of one endpoint about one company.
#[derive(Debug)]
pub struct CredinformData {
    pub company_name: String,
    pub data: Vec<(String, JsonValue)>,
}

/// Law: the data kept from a response is its `data` object, member for
/// member and unchanged, or nothing when the response has no `data` object.
pub proof fn law_data_section_is_the_data_object(response: JsonValue)
    ensures
        match response.spec_get("data"@) {
            Some(JsonValue::Object(m)) => data_section(response).len() == m@.len() && forall|i: int|
                0 <= i < m@.len() ==> #[trigger] data_section(response)[i] == m@[i],
            _ => data_section(response).len() == 0,
        },
{
}

/// The folder that holds the downloads of one company.
pub open spec fn company_dir(tax_number: Seq<char>, company_name: Seq<char>) -> Seq<char> {
    "credinform_data/"@ + tax_number + " - "@ + company_name
}

impl CredinformData {
    /// Keeps the `data` object of `response` (or an empty one) under the
    /// company's name; this never fails.
    pub fn new(name: &str, response: JsonValue) -> (r: Result<Self, String>)
        ensures
            r is Ok,
            r matches Ok(d) ==> d.company_name@ == name@ && d.data@ == data_section(response),
            r matches Ok(d) ==> match response.spec_get("data"@) {
                Some(JsonValue::Object(m)) => d.data@.len() == m@.len() && forall|i: int|
                    0 <= i < m@.len() ==> #[trigger] d.data@[i] == m@[i],
                _ => d.data@.len() == 0,
            },
    {
        let data = match response {
            JsonValue::Object(members) => {
                let mut members = members;
                match take_member(&mut members, "data") {
                    Some(JsonValue::Object(d)) => d,
                    _ => Vec::new(),
                }
            },
            _ => Vec::new(),
        };
        Ok(CredinformData { company_name: name.to_owned(), data })
    }

    /// The folder the data is saved in: `credinform_data/<tax number> - <company>`.
    pub fn dir(&self, tax_number: &TaxNumber) -> (r: String)
        ensures
            r@ == company_dir(tax_number@, self.company_name@),
    {
        let mut r = "credinform_data/".to_owned();
        r.append(tax_number.as_str());
        r.append(" - ");
        r.append(self.company_name.as_str());
        r
    }

    /// The file the data of `address` is saved in: `<dir>/<address>.json`.
    pub fn file_path(&self, address: &Address, tax_number: &TaxNumber) -> (r: String)
        ensures
            r@ == company_dir(tax_number@, self.company_name@) + "/"@ + address@ + ".json"@,
    {
        let mut r = self.dir(tax_number);
        r.append("/");
        r.append(address.as_str());
        r.append(".json");
        r
    }
}

} // verus!
