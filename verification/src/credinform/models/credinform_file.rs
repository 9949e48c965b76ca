use vstd::prelude::*;
use base64::Engine;
use super::TaxNumber;
use super::credinform_data::company_dir;
use crate::error::{AppError, Base64Error};
use crate::json::JsonValue;
use crate::text::{ascii_lower, to_ascii_lowercase};

verus! {

/// A file attached to a company's record, with its content in Base64.
#[derive(Debug, Clone)]
pub struct CredinformFile {
    company: String,
    name: String,
    ext: String,
    bytes: String,
}

/// The parts of a file as text.
pub struct CredinformFileView {
    pub company: Seq<char>,
    pub name: Seq<char>,
    pub ext: Seq<char>,
    pub bytes: Seq<char>,
}

impl View for CredinformFile {
    type V = CredinformFileView;

    closed spec fn view(&self) -> CredinformFileView {
        CredinformFileView {
            company: self.company@,
            name: self.name@,
            ext: self.ext@,
            bytes: self.bytes@,
        }
    }
}

/// The file described by `file_data` (its `fileName`, `extension` and
/// `fileData` strings), or the message naming the first that is missing.
pub open spec fn file_from_json(company: Seq<char>, file_data: JsonValue) -> Result<
    CredinformFileView,
    Seq<char>,
> {
    match file_data.str_member("fileName"@) {
        None => Err("Failed to get fileName"@),
        Some(name) => match file_data.str_member("extension"@) {
            None => Err("Failed to get extension"@),
            Some(ext) => match file_data.str_member("fileData"@) {
                None => Err("Failed to get fileData"@),
                Some(bytes) => Ok(CredinformFileView { company, name, ext, bytes }),
            },
        },
    }
}

/// What standard Base64 (padding required) decodes from `input`: the bytes,
/// or the decoder's error when `input` is not valid.
pub uninterp spec fn base64_standard_decode(input: Seq<char>) -> Result<Seq<u8>, Base64Error>;

/// Calls `Engine::decode` of `base64::engine::general_purpose::STANDARD`
/// on the UTF-8 bytes of `input`: the standard alphabet with canonical
/// padding. The outcome (the bytes, or the decoder's error with its fields)
/// is named, not written out.
#[verifier::external_body]
fn base64_decode(input: &str) -> (r: Result<Vec<u8>, Base64Error>)
    ensures
        match r {
            Ok(b) => base64_standard_decode(input@) == Ok::<Seq<u8>, Base64Error>(b@),
            Err(e) => base64_standard_decode(input@) == Err::<Seq<u8>, Base64Error>(e),
        },
{
    match base64::engine::general_purpose::STANDARD.decode(input) {
        Ok(b) => Ok(b),
        Err(base64::DecodeError::InvalidByte(offset, byte)) => Err(Base64Error::InvalidByte { offset, byte }),
        Err(base64::DecodeError::InvalidLength(length)) => Err(Base64Error::InvalidLength { length }),
        Err(base64::DecodeError::InvalidLastSymbol(offset, byte)) => Err(Base64Error::InvalidLastSymbol { offset, byte }),
        Err(base64::DecodeError::InvalidPadding) => Err(Base64Error::InvalidPadding),
    }
}

impl CredinformFile {
    /// Reads the file description of `file_data` for the company `company_name`.
    pub fn new(company_name: &str, file_data: &JsonValue) -> (r: Result<Self, String>)
        ensures
            match r {
                Ok(f) => file_from_json(company_name@, *file_data) == Ok::<
                    CredinformFileView,
                    Seq<char>,
                >(f@),
                Err(e) => file_from_json(company_name@, *file_data) == Err::<
                    CredinformFileView,
                    Seq<char>,
                >(e@),
            },
    {
        let name = match file_data.get_str("fileName") {
            Some(s) => s.to_owned(),
            None => return Err("Failed to get fileName".to_owned()),
        };
        let ext = match file_data.get_str("extension") {
            Some(s) => s.to_owned(),
            None => return Err("Failed to get extension".to_owned()),
        };
        let bytes = match file_data.get_str("fileData") {
            Some(s) => s.to_owned(),
            None => return Err("Failed to get fileData".to_owned()),
        };
        Ok(CredinformFile { company: company_name.to_owned(), name, ext, bytes })
    }

    /// `<name>.<extension>`.
    pub fn to_string(&self) -> (r: String)
        ensures
            r@ == self@.name + "."@ + self@.ext,
    {
        let mut r = self.name.as_str().to_owned();
        r.append(".");
        r.append(self.ext.as_str());
        r
    }

    /// The folder files of the company are saved in:
    /// `credinform_data/<tax number> - <company>/files`.
    pub fn dir(&self, tax_number: &TaxNumber) -> (r: String)
        ensures
            r@ == company_dir(tax_number@, self@.company) + "/files"@,
    {
        let mut r = "credinform_data/".to_owned();
        r.append(tax_number.as_str());
        r.append(" - ");
        r.append(self.company.as_str());
        r.append("/files");
        r
    }

    /// The path the file is saved to: `<dir>/<name>.<extension in ASCII lowercase>`.
    pub fn file_path(&self, tax_number: &TaxNumber) -> (r: String)
        ensures
            r@ == company_dir(tax_number@, self@.company) + "/files"@ + "/"@ + self@.name + "."@
                + self@.ext.map_values(|c: char| ascii_lower(c)),
    {
        let mut r = self.dir(tax_number);
        r.append("/");
        r.append(self.name.as_str());
        r.append(".");
        let lower = to_ascii_lowercase(self.ext.as_str());
        r.append(lower.as_str());
        r
    }

    /// The file's content: the standard Base64 decoding of its data.
    pub fn decoded_bytes(&self) -> (r: Result<Vec<u8>, AppError>)
        ensures
            match r {
                Ok(b) => base64_standard_decode(self@.bytes) == Ok::<Seq<u8>, Base64Error>(b@),
                Err(e) => e matches AppError::InvalidFileData(d) && base64_standard_decode(
                    self@.bytes,
                ) == Err::<Seq<u8>, Base64Error>(d),
            },
    {
        match base64_decode(self.bytes.as_str()) {
            Ok(b) => Ok(b),
            Err(e) => Err(AppError::InvalidFileData(e)),
        }
    }
}

/// Law: the attachments of a company are saved inside the folder that holds
/// the company's data.
pub proof fn law_files_inside_company_dir(tax_number: Seq<char>, company: Seq<char>)
    ensures
        ({
            let dir = company_dir(tax_number, company);
            let files = dir + "/files"@;
            files.len() > dir.len() && files.subrange(0, dir.len() as int) == dir
        }),
{
    reveal_strlit("/files");
    let dir = company_dir(tax_number, company);
    assert((dir + "/files"@).subrange(0, dir.len() as int) =~= dir);
}

} // verus!
