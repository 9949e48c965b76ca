//! Values exchanged with the Credinform service.
pub mod access_token;
pub mod address;
pub mod search_company;
pub mod tax_number;

pub use access_token::AccessToken;
pub use address::Address;
pub use search_company::SearchCompany;
pub use tax_number::TaxNumber;
pub mod credinform_data;
pub mod credinform_file;

pub use credinform_data::CredinformData;
pub use credinform_file::CredinformFile;
