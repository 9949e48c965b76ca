use credinform_cli::cli::{collect_tax_numbers, credinform_jobs, fns_jobs, pick_tax_number, work_total, Args, CredinformJob, Mode};
use credinform_cli::completion::{completion_values, Shell};
use credinform_cli::config::{default_fns_base_url, Client, Data};
use credinform_cli::credinform::{Address, TaxNumber};
use credinform_cli::error::AppError;

fn args(tax: Option<&str>) -> Args {
    Args {
        cred: true,
        fns: false,
        full: false,
        trademarks: false,
        tax_number: tax.map(TaxNumber::new),
        verbose: false,
        field: None,
        config: "config.toml".to_string(),
        completion: None,
    }
}

fn client(numbers: &[&str], fields: &[&str]) -> Client {
    let mut data = Data::default_config();
    data.credinform.tax_numbers = numbers.iter().map(|s| s.to_string()).collect();
    data.credinform.fields = fields.iter().map(|s| s.to_string()).collect();
    Client::new(data)
}

#[test]
fn command_line_tax_number_wins() {
    let c = client(&["111", "222"], &[]);
    assert_eq!(pick_tax_number(&args(Some("999")), &c).unwrap().to_string(), "999");
    assert_eq!(pick_tax_number(&args(None), &c).unwrap().to_string(), "111");
    assert_eq!(pick_tax_number(&args(None), &client(&[], &[])).unwrap().to_string(), "7838368395");
    assert_eq!(pick_tax_number(&args(Some("999")), &client(&[], &[])).unwrap().to_string(), "999");
}

#[test]
fn full_run_needs_tax_numbers() {
    let v = collect_tax_numbers(&client(&["111", "222"], &[])).unwrap();
    assert_eq!(v.iter().map(|t| t.to_string()).collect::<Vec<_>>(), vec!["111", "222"]);
    match collect_tax_numbers(&client(&[], &[])) {
        Err(e @ AppError::EmptyTaxNumbers) => {
            assert_eq!(e.message(), "В config.toml пустой список [settings].tax_numbers")
        }
        other => panic!("{:?}", other),
    }
}

fn describe(j: &CredinformJob) -> String {
    match j {
        CredinformJob::Trademarks(t) => format!("tm:{}", t.to_string()),
        CredinformJob::Data(t, a) => format!("{}:{}", t.to_string(), a.to_string()),
    }
}

#[test]
fn credinform_jobs_in_order() {
    let taxes = vec![TaxNumber::new("1"), TaxNumber::new("2")];
    let addrs = vec![Address::new("A"), Address::new("B")];
    let jobs: Vec<String> = credinform_jobs(&taxes, &addrs, true).iter().map(describe).collect();
    assert_eq!(jobs, vec!["tm:1", "1:A", "1:B", "tm:2", "2:A", "2:B"]);
    let jobs: Vec<String> = credinform_jobs(&taxes, &addrs, false).iter().map(describe).collect();
    assert_eq!(jobs, vec!["1:A", "1:B", "2:A", "2:B"]);
    assert!(credinform_jobs(&Vec::new(), &addrs, true).is_empty());
}

#[test]
fn fns_jobs_in_order() {
    let taxes = vec![TaxNumber::new("1"), TaxNumber::new("2")];
    let eps = vec!["egr".to_string(), "vyp".to_string()];
    let jobs: Vec<(String, String)> = fns_jobs(&taxes, &eps)
        .into_iter()
        .map(|j| (j.tax_number.to_string(), j.endpoint))
        .collect();
    assert_eq!(
        jobs,
        vec![
            ("1".to_string(), "egr".to_string()),
            ("1".to_string(), "vyp".to_string()),
            ("2".to_string(), "egr".to_string()),
            ("2".to_string(), "vyp".to_string()),
        ]
    );
}

#[test]
fn total_counts_every_job() {
    assert_eq!(work_total(2, 3, 4, true), 2 * 3 + 2 + 2 * 4);
    assert_eq!(work_total(2, 3, 4, false), 14);
    assert_eq!(work_total(0, 3, 4, true), 0);
    let taxes = vec![TaxNumber::new("1"), TaxNumber::new("2")];
    let addrs = vec![Address::new("A"), Address::new("B"), Address::new("C")];
    let eps = vec!["egr".to_string()];
    let n = credinform_jobs(&taxes, &addrs, true).len() + fns_jobs(&taxes, &eps).len();
    assert_eq!(n, work_total(2, 3, 1, true));
}

#[test]
fn shells_by_name() {
    assert_eq!(Shell::from_name("bash").unwrap(), Shell::Bash);
    assert_eq!(Shell::from_name("zsh").unwrap(), Shell::Zsh);
    assert_eq!(Shell::from_name("fish").unwrap(), Shell::Fish);
    assert_eq!(Shell::from_name("powershell").unwrap(), Shell::PowerShell);
    assert_eq!(Shell::from_name("elvish").unwrap(), Shell::Elvish);
    match Shell::from_name("tcsh") {
        Err(e @ AppError::UnsupportedShell) => assert_eq!(e.message(), "Unsupported shell"),
        other => panic!("{:?}", other),
    }
    assert!(Shell::from_name("Bash").is_err());
}

#[test]
fn completion_offers_configured_values_only() {
    let v = completion_values(&client(&["111"], &[]));
    assert_eq!(v.tax_numbers, Some(vec!["111".to_string()]));
    assert_eq!(v.fields, None);
    let v = completion_values(&client(&[], &["BasicInformation", "Trademarks"]));
    assert_eq!(v.tax_numbers, None);
    assert_eq!(v.fields, Some(vec!["BasicInformation".to_string(), "Trademarks".to_string()]));
}

#[test]
fn default_configuration() {
    let d = Data::default_config();
    assert_eq!(d.credinform.username, "your_username");
    assert_eq!(d.credinform.password, "your_password");
    assert_eq!(d.credinform.api_version, "1.7");
    assert!(d.credinform.tax_numbers.is_empty());
    assert!(d.credinform.fields.is_empty());
    assert!(d.fns.token.is_empty());
    assert!(d.fns.fields.is_empty());
    assert_eq!(d.fns.base_url, default_fns_base_url());
    assert_eq!(default_fns_base_url(), "https://api-fns.ru/api");
    let c = Client::new(Data::default_config());
    assert_eq!(c.username(), "your_username");
    assert_eq!(c.password(), "your_password");
    assert_eq!(c.api_version(), "1.7");
    assert_eq!(c.fns_token(), "");
    assert_eq!(c.fns_base_url(), "https://api-fns.ru/api");
    assert!(c.tax_numbers().is_empty() && c.credinform_fields().is_empty() && c.fns_fields().is_empty());
}

#[test]
fn configuration_error_messages() {
    let e = AppError::ConfigCreated { path: "config.toml".to_string() };
    assert_eq!(e.message(), "Config file not found. Created new file config.toml.");
    let e = AppError::InvalidConfig { reason: "bad".to_string() };
    assert_eq!(e.message(), "Invalid TOML format: bad");
    let e = AppError::InvalidSearchUrl { reason: "x".to_string() };
    assert_eq!(e.message(), "Некорректный адрес поиска компании");
    let e = AppError::InvalidDataUrl { address: "Basic".to_string(), reason: "x".to_string() };
    assert_eq!(e.message(), "Некорректный адрес ручки Basic");
    assert_eq!(
        AppError::MissingAccessKey.message(),
        "Не удалось получить accessKey, проверьте логин/пароль в config.toml"
    );
}

#[test]
fn run_mode_follows_the_flags() {
    let mut a = args(None);
    assert_eq!(a.mode(), Mode::Single { cred: true, fns: false });
    a.fns = true;
    assert_eq!(a.mode(), Mode::Single { cred: true, fns: true });
    a.full = true;
    assert_eq!(a.mode(), Mode::Full);
    a.completion = Some("bash".to_string());
    assert_eq!(a.mode(), Mode::Completion);
    let mut b = args(None);
    b.cred = false;
    assert_eq!(b.mode(), Mode::Help);
    b.trademarks = true;
    b.verbose = true;
    assert_eq!(b.mode(), Mode::Help);
}
