//! The errors the library reports, with the message shown to the user.
use vstd::prelude::*;

verus! {

/// Why a text is not valid standard Base64, as the decoder reports it.
#[derive(Debug, Clone, Copy, PartialEq, Eq, Structural)]
pub enum Base64Error {
    /// A byte outside the alphabet, or misplaced padding, at `offset`.
    InvalidByte { offset: usize, byte: u8 },
    /// The number of symbols cannot end a Base64 text.
    InvalidLength { length: usize },
    /// The last symbol, at `offset`, has bits set that decode to nothing.
    InvalidLastSymbol { offset: usize, byte: u8 },
    /// The padding is missing or not canonical.
    InvalidPadding,
}

/// The message that the `Display` implementation of `base64::DecodeError`
/// writes for the error `e`.
pub uninterp spec fn base64_error_text(e: Base64Error) -> Seq<char>;

/// Builds the `base64::DecodeError` that `e` stands for (one variant for
/// each, fields moved) and formats it with its `Display` implementation.
/// The text is named, not written out.
#[verifier::external_body]
fn base64_error_message(e: Base64Error) -> (r: String)
    ensures
        r@ == base64_error_text(e),
{
    let error = match e {
        Base64Error::InvalidByte { offset, byte } => base64::DecodeError::InvalidByte(offset, byte),
        Base64Error::InvalidLength { length } => base64::DecodeError::InvalidLength(length),
        Base64Error::InvalidLastSymbol { offset, byte } => base64::DecodeError::InvalidLastSymbol(offset, byte),
        Base64Error::InvalidPadding => base64::DecodeError::InvalidPadding,
    };
    error.to_string()
}

impl Base64Error {
    /// The message the decoder gives for this error.
    pub fn message(&self) -> (r: String)
        ensures
            r@ == base64_error_text(*self),
    {
        base64_error_message(*self)
    }
}

/// Why an operation of the library failed.
#[derive(Debug)]
pub enum AppError {
    /// The configuration lists no tax numbers.
    EmptyTaxNumbers,
    /// The FNS API key is empty.
    EmptyFnsToken,
    /// The FNS address for `endpoint` is not a valid URL.
    InvalidFnsUrl { endpoint: String, reason: String },
    /// The company search address is not a valid URL.
    InvalidSearchUrl { reason: String },
    /// The address of the endpoint `address` is not a valid URL.
    InvalidDataUrl { address: String, reason: String },
    /// The authorization response holds no `accessKey` string.
    MissingAccessKey,
    /// The search response holds no `companyDataList` array.
    CompanyNotFound { tax_number: String },
    /// The first company found has no `companyId` string.
    MissingCompanyId { tax_number: String },
    /// The first company found has no `companyName` string.
    MissingCompanyName { tax_number: String },
    /// A file's content is not valid standard Base64.
    InvalidFileData(Base64Error),
    /// The completion shell is none of the supported ones.
    UnsupportedShell,
    /// No configuration file existed; a default one was written at `path`.
    ConfigCreated { path: String },
    /// The configuration file is not valid TOML for the expected settings.
    InvalidConfig { reason: String },
}

/// The message of an error. For an invalid address the message
/// names what was being built; the parser's own reason is kept in `reason`.
pub open spec fn error_text(e: AppError) -> Seq<char> {
    match e {
        AppError::EmptyTaxNumbers => "В config.toml пустой список [settings].tax_numbers"@,
        AppError::EmptyFnsToken => "FNS token пуст. Заполните значение в config.toml (fns.token)"@,
        AppError::InvalidFnsUrl { endpoint, .. } => "Некорректный путь FNS для "@ + endpoint@,
        AppError::InvalidSearchUrl { .. } => "Некорректный адрес поиска компании"@,
        AppError::InvalidDataUrl { address, .. } => "Некорректный адрес ручки "@ + address@,
        AppError::MissingAccessKey => "Не удалось получить accessKey, проверьте логин/пароль в config.toml"@,
        AppError::CompanyNotFound { tax_number } => "Компания с ИНН "@ + tax_number@
            + " не найдена"@,
        AppError::MissingCompanyId { tax_number } => "Не удалось получить companyId для "@
            + tax_number@,
        AppError::MissingCompanyName { tax_number } => "Не удалось получить companyName для "@
            + tax_number@,
        AppError::InvalidFileData(e) => base64_error_text(e),
        AppError::UnsupportedShell => "Unsupported shell"@,
        AppError::ConfigCreated { path } => "Config file not found. Created new file "@ + path@
            + "."@,
        AppError::InvalidConfig { reason } => "Invalid TOML format: "@ + reason@,
    }
}

/// Appends `b` and `c` to `a`.
fn join3(a: &str, b: &str, c: &str) -> (r: String)
    ensures
        r@ == a@ + b@ + c@,
{
    let mut r = a.to_owned();
    r.append(b);
    r.append(c);
    r
}

impl AppError {
    /// The message shown to the user.
    pub fn message(&self) -> (r: String)
        ensures
            r@ == error_text(*self),
    {
        match self {
            AppError::EmptyTaxNumbers => "В config.toml пустой список [settings].tax_numbers".to_owned(),
            AppError::EmptyFnsToken => "FNS token пуст. Заполните значение в config.toml (fns.token)".to_owned(),
            AppError::InvalidFnsUrl { endpoint, .. } => {
                let mut r = "Некорректный путь FNS для ".to_owned();
                r.append(endpoint.as_str());
                r
            },
            AppError::InvalidSearchUrl { .. } => "Некорректный адрес поиска компании".to_owned(),
            AppError::InvalidDataUrl { address, .. } => {
                let mut r = "Некорректный адрес ручки ".to_owned();
                r.append(address.as_str());
                r
            },
            AppError::MissingAccessKey => "Не удалось получить accessKey, проверьте логин/пароль в config.toml".to_owned(),
            AppError::CompanyNotFound { tax_number } => join3(
                "Компания с ИНН ",
                tax_number.as_str(),
                " не найдена",
            ),
            AppError::MissingCompanyId { tax_number } => {
                let mut r = "Не удалось получить companyId для ".to_owned();
                r.append(tax_number.as_str());
                r
            },
            AppError::MissingCompanyName { tax_number } => {
                let mut r = "Не удалось получить companyName для ".to_owned();
                r.append(tax_number.as_str());
                r
            },
            AppError::InvalidFileData(e) => e.message(),
            AppError::UnsupportedShell => "Unsupported shell".to_owned(),
            AppError::ConfigCreated { path } => join3(
                "Config file not found. Created new file ",
                path.as_str(),
                ".",
            ),
            AppError::InvalidConfig { reason } => {
                let mut r = "Invalid TOML format: ".to_owned();
                r.append(reason.as_str());
                r
            },
        }
    }
}

} // verus!
