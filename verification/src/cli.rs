//! Command-line decisions: which tax number a single request is about, which
//! companies a full run covers, and the work a run consists of.
use vstd::prelude::*;
use crate::config::Client;
use crate::credinform::{Address, TaxNumber};
use crate::error::AppError;

verus! {

/// The command-line arguments.
#[derive(Debug)]
pub struct Args {
    /// Request data from Credinform.
    pub cred: bool,
    /// Request data from FNS.
    pub fns: bool,
    /// Download every endpoint of the configuration for every company.
    pub full: bool,
    /// Also download trademarks.
    pub trademarks: bool,
    /// The company for single requests.
    pub tax_number: Option<TaxNumber>,
    /// Log progress.
    pub verbose: bool,
    /// The one endpoint to request and print.
    pub field: Option<String>,
    /// The configuration file.
    pub config: String,
    /// Print a completion script for this shell and stop.
    pub completion: Option<String>,
}

/// What a run does, decided from the arguments alone.
#[derive(Debug, Clone, Copy, PartialEq, Eq, Structural)]
pub enum Mode {
    /// Print a completion script and stop.
    Completion,
    /// Download everything the configuration names, for every company.
    Full,
    /// Single requests to Credinform, FNS or both, about one company.
    Single { cred: bool, fns: bool },
    /// Nothing was asked for: print the help.
    Help,
}

/// The mode of a run: a completion request comes first, then `--full`, then
/// the single requests; with none of them the help is printed.
pub open spec fn mode_of(args: Args) -> Mode {
    if args.completion is Some {
        Mode::Completion
    } else if args.full {
        Mode::Full
    } else if args.cred || args.fns {
        Mode::Single { cred: args.cred, fns: args.fns }
    } else {
        Mode::Help
    }
}

impl Args {
    /// The mode of the run these arguments ask for.
    pub fn mode(&self) -> (r: Mode)
        ensures
            r == mode_of(*self),
            self.completion is Some ==> r == Mode::Completion,
            self.completion is None && self.full ==> r == Mode::Full,
            self.completion is None && !self.full && (self.cred || self.fns) ==> r == (Mode::Single {
                cred: self.cred,
                fns: self.fns,
            }),
            self.completion is None && !self.full && !self.cred && !self.fns ==> r == Mode::Help,
    {
        if self.completion.is_some() {
            Mode::Completion
        } else if self.full {
            Mode::Full
        } else if self.cred || self.fns {
            Mode::Single { cred: self.cred, fns: self.fns }
        } else {
            Mode::Help
        }
    }
}

/// Law: a single-request run makes exactly the requests whose flags are set:
/// Credinform only with `--cred`, FNS only with `--fns`; `--full` and a
/// completion request take precedence, and with no flag the help is shown.
pub proof fn law_mode_follows_flags(args: Args)
    ensures
        args.completion is Some ==> mode_of(args) == Mode::Completion,
        args.completion is None && args.full ==> mode_of(args) == Mode::Full,
        args.completion is None && !args.full && (args.cred || args.fns) ==> mode_of(args) == (
        Mode::Single { cred: args.cred, fns: args.fns }),
        args.completion is None && !args.full && !args.cred && !args.fns ==> mode_of(args)
            == Mode::Help,
        mode_of(args) matches Mode::Single { cred, fns } ==> cred == args.cred && fns == args.fns,
{
}

/// The tax number used when neither the command line nor the configuration
/// names one.
pub open spec fn default_tax_number() -> Seq<char> {
    "7838368395"@
}

/// The tax number for a single request: the one given on the command line,
/// else the first one of the configuration, else the default `7838368395`.
/// It never fails.
pub fn pick_tax_number(args: &Args, client: &Client) -> (r: Result<TaxNumber, AppError>)
    ensures
        r is Ok,
        r matches Ok(x) && x@ == match args.tax_number {
            Some(t) => t@,
            None => if client.data.credinform.tax_numbers.len() > 0 {
                client.data.credinform.tax_numbers@[0]@
            } else {
                default_tax_number()
            },
        },
{
    if let Some(tn) = &args.tax_number {
        return Ok(TaxNumber::new(tn.as_str()));
    }
    let numbers = client.tax_numbers();
    if numbers.len() > 0 {
        Ok(TaxNumber::new(numbers[0].as_str()))
    } else {
        Ok(TaxNumber::new("7838368395"))
    }
}

/// The companies of a full run: every tax number of the configuration, in
/// order; an empty list is refused.
pub fn collect_tax_numbers(client: &Client) -> (r: Result<Vec<TaxNumber>, AppError>)
    ensures
        client.data.credinform.tax_numbers.len() == 0 ==> r matches Err(
            AppError::EmptyTaxNumbers,
        ),
        client.data.credinform.tax_numbers.len() > 0 ==> (r matches Ok(v) && v.len()
            == client.data.credinform.tax_numbers.len() && forall|i: int|
            0 <= i < v.len() ==> #[trigger] v@[i]@ == client.data.credinform.tax_numbers@[i]@),
{
    let numbers = TaxNumber::from_vec(client.tax_numbers());
    if numbers.len() == 0 {
        return Err(AppError::EmptyTaxNumbers);
    }
    Ok(numbers)
}

/// One download from Credinform.
#[derive(Debug)]
pub enum CredinformJob {
    /// The trademarks of a company, with their image files.
    Trademarks(TaxNumber),
    /// One endpoint about a company.
    Data(TaxNumber, Address),
}

/// A Credinform download as text.
pub enum CredinformJobView {
    Trademarks(Seq<char>),
    Data(Seq<char>, Seq<char>),
}

impl View for CredinformJob {
    type V = CredinformJobView;

    open spec fn view(&self) -> CredinformJobView {
        match self {
            CredinformJob::Trademarks(t) => CredinformJobView::Trademarks(t@),
            CredinformJob::Data(t, a) => CredinformJobView::Data(t@, a@),
        }
    }
}

/// One download from FNS: an endpoint about a company.
#[derive(Debug)]
pub struct FnsJob {
    pub tax_number: TaxNumber,
    pub endpoint: String,
}

/// The downloads about one company: its trademarks first when asked for,
/// then each endpoint in order.
pub open spec fn credinform_block(tax_number: Seq<char>, addresses: Seq<Seq<char>>, trademarks: bool) -> Seq<
    CredinformJobView,
> {
    (if trademarks {
        seq![CredinformJobView::Trademarks(tax_number)]
    } else {
        Seq::empty()
    }) + addresses.map_values(|a: Seq<char>| CredinformJobView::Data(tax_number, a))
}

/// The Credinform downloads of a run: the blocks of the companies in order.
pub open spec fn credinform_plan(tax_numbers: Seq<Seq<char>>, addresses: Seq<Seq<char>>, trademarks: bool) -> Seq<
    CredinformJobView,
>
    decreases tax_numbers.len(),
{
    if tax_numbers.len() == 0 {
        Seq::empty()
    } else {
        credinform_plan(tax_numbers.drop_last(), addresses, trademarks) + credinform_block(
            tax_numbers.last(),
            addresses,
            trademarks,
        )
    }
}

/// The FNS downloads of a run: for each company in order, each endpoint in order.
pub open spec fn fns_plan(tax_numbers: Seq<Seq<char>>, endpoints: Seq<Seq<char>>) -> Seq<
    (Seq<char>, Seq<char>),
>
    decreases tax_numbers.len(),
{
    if tax_numbers.len() == 0 {
        Seq::empty()
    } else {
        fns_plan(tax_numbers.drop_last(), endpoints) + endpoints.map_values(
            |e: Seq<char>| (tax_numbers.last(), e),
        )
    }
}

/// The texts of tax numbers.
pub open spec fn tax_number_views(v: Seq<TaxNumber>) -> Seq<Seq<char>> {
    v.map_values(|t: TaxNumber| t@)
}

/// The texts of addresses.
pub open spec fn address_views(v: Seq<Address>) -> Seq<Seq<char>> {
    v.map_values(|a: Address| a@)
}

/// The texts of strings.
pub open spec fn string_views(v: Seq<String>) -> Seq<Seq<char>> {
    v.map_values(|s: String| s@)
}

/// The Credinform downloads of a run, in the order they are started.
pub fn credinform_jobs(tax_numbers: &Vec<TaxNumber>, addresses: &Vec<Address>, trademarks: bool) -> (r:
    Vec<CredinformJob>)
    ensures
        r@.map_values(|j: CredinformJob| j@) == credinform_plan(
            tax_number_views(tax_numbers@),
            address_views(addresses@),
            trademarks,
        ),
{
    let ghost ts = tax_number_views(tax_numbers@);
    let ghost addrs = address_views(addresses@);
    let mut jobs: Vec<CredinformJob> = Vec::new();
    let mut i: usize = 0;
    assert(ts.take(0) =~= Seq::<Seq<char>>::empty());
    while i < tax_numbers.len()
        invariant
            i <= tax_numbers.len(),
            ts == tax_number_views(tax_numbers@),
            addrs == address_views(addresses@),
            jobs@.map_values(|j: CredinformJob| j@) == credinform_plan(
                ts.take(i as int),
                addrs,
                trademarks,
            ),
        decreases tax_numbers.len() - i,
    {
        let ghost before = jobs@.map_values(|j: CredinformJob| j@);
        let t = &tax_numbers[i];
        let ghost tv = t@;
        assert(tv == ts[i as int]);
        if trademarks {
            jobs.push(CredinformJob::Trademarks(TaxNumber::new(t.as_str())));
        }
        let ghost head = jobs@.map_values(|j: CredinformJob| j@);
        assert(head =~= before + (if trademarks {
            seq![CredinformJobView::Trademarks(tv)]
        } else {
            Seq::empty()
        }));
        let mut k: usize = 0;
        while k < addresses.len()
            invariant
                k <= addresses.len(),
                addrs == address_views(addresses@),
                jobs@.map_values(|j: CredinformJob| j@) == head + addrs.take(k as int).map_values(
                    |a: Seq<char>| CredinformJobView::Data(tv, a),
                ),
                t@ == tv,
            decreases addresses.len() - k,
        {
            let a = &addresses[k];
            let ghost prev = jobs@;
            assert(a@ == addrs[k as int]);
            jobs.push(CredinformJob::Data(TaxNumber::new(t.as_str()), Address::new(a.as_str())));
            assert(jobs@ =~= prev.push(jobs@.last()));
            assert(jobs@.map_values(|j: CredinformJob| j@) =~= prev.map_values(
                |j: CredinformJob| j@,
            ).push(CredinformJobView::Data(tv, a@)));
            assert(addrs.take(k + 1) =~= addrs.take(k as int).push(a@));
            assert(jobs@.map_values(|j: CredinformJob| j@) =~= head + addrs.take(k + 1).map_values(
                |a: Seq<char>| CredinformJobView::Data(tv, a),
            ));
            k = k + 1;
        }
        assert(addrs.take(addresses.len() as int) =~= addrs);
        assert(ts.take(i + 1).drop_last() =~= ts.take(i as int));
        assert(ts.take(i + 1).last() == tv);
        assert(jobs@.map_values(|j: CredinformJob| j@) =~= credinform_plan(
            ts.take(i + 1),
            addrs,
            trademarks,
        ));
        i = i + 1;
    }
    assert(ts.take(tax_numbers.len() as int) =~= ts);
    jobs
}

/// The FNS downloads of a run, in the order they are started.
pub fn fns_jobs(tax_numbers: &Vec<TaxNumber>, endpoints: &Vec<String>) -> (r: Vec<FnsJob>)
    ensures
        r@.map_values(|j: FnsJob| (j.tax_number@, j.endpoint@)) == fns_plan(
            tax_number_views(tax_numbers@),
            string_views(endpoints@),
        ),
{
    let ghost ts = tax_number_views(tax_numbers@);
    let ghost eps = string_views(endpoints@);
    let mut jobs: Vec<FnsJob> = Vec::new();
    let mut i: usize = 0;
    assert(ts.take(0) =~= Seq::<Seq<char>>::empty());
    while i < tax_numbers.len()
        invariant
            i <= tax_numbers.len(),
            ts == tax_number_views(tax_numbers@),
            eps == string_views(endpoints@),
            jobs@.map_values(|j: FnsJob| (j.tax_number@, j.endpoint@)) == fns_plan(
                ts.take(i as int),
                eps,
            ),
        decreases tax_numbers.len() - i,
    {
        let ghost head = jobs@.map_values(|j: FnsJob| (j.tax_number@, j.endpoint@));
        let t = &tax_numbers[i];
        let ghost tv = t@;
        assert(tv == ts[i as int]);
        let mut k: usize = 0;
        while k < endpoints.len()
            invariant
                k <= endpoints.len(),
                eps == string_views(endpoints@),
                jobs@.map_values(|j: FnsJob| (j.tax_number@, j.endpoint@)) == head + eps.take(
                    k as int,
                ).map_values(|e: Seq<char>| (tv, e)),
                t@ == tv,
            decreases endpoints.len() - k,
        {
            let e = &endpoints[k];
            let ghost prev = jobs@;
            assert(e@ == eps[k as int]);
            jobs.push(FnsJob { tax_number: TaxNumber::new(t.as_str()), endpoint: e.as_str().to_owned() });
            assert(jobs@ =~= prev.push(jobs@.last()));
            assert(jobs@.map_values(|j: FnsJob| (j.tax_number@, j.endpoint@)) =~= prev.map_values(
                |j: FnsJob| (j.tax_number@, j.endpoint@),
            ).push((tv, e@)));
            assert(eps.take(k + 1) =~= eps.take(k as int).push(e@));
            assert(jobs@.map_values(|j: FnsJob| (j.tax_number@, j.endpoint@)) =~= head + eps.take(
                k + 1,
            ).map_values(|e: Seq<char>| (tv, e)));
            k = k + 1;
        }
        assert(eps.take(endpoints.len() as int) =~= eps);
        assert(ts.take(i + 1).drop_last() =~= ts.take(i as int));
        assert(ts.take(i + 1).last() == tv);
        i = i + 1;
    }
    assert(ts.take(tax_numbers.len() as int) =~= ts);
    jobs
}

/// The number of downloads of a full run, which the progress bar counts:
/// every endpoint for every company, the trademarks of every company when
/// asked for, and every FNS endpoint for every company.
pub open spec fn full_run_total(companies: int, fields: int, fns_fields: int, trademarks: bool) -> int {
    companies * fields + (if trademarks {
        companies
    } else {
        0
    }) + companies * fns_fields
}

/// The number of downloads of a full run.
pub fn work_total(companies: usize, fields: usize, fns_fields: usize, trademarks: bool) -> (r: usize)
    requires
        full_run_total(companies as int, fields as int, fns_fields as int, trademarks) <= usize::MAX,
    ensures
        r == full_run_total(companies as int, fields as int, fns_fields as int, trademarks),
{
    proof {
        assert(0 <= companies * fields) by (nonlinear_arith);
        assert(0 <= companies * fns_fields) by (nonlinear_arith);
    }
    let cred: usize = companies * fields;
    let tm: usize = if trademarks {
        companies
    } else {
        0
    };
    let fns: usize = companies * fns_fields;
    cred + tm + fns
}

/// Each company contributes the same number of Credinform downloads.
proof fn lemma_credinform_plan_len(tax_numbers: Seq<Seq<char>>, addresses: Seq<Seq<char>>, trademarks: bool)
    ensures
        credinform_plan(tax_numbers, addresses, trademarks).len() == tax_numbers.len() * (
        addresses.len() + if trademarks {
            1int
        } else {
            0int
        }),
    decreases tax_numbers.len(),
{
    if tax_numbers.len() > 0 {
        lemma_credinform_plan_len(tax_numbers.drop_last(), addresses, trademarks);
        let k: int = addresses.len() + if trademarks {
            1int
        } else {
            0int
        };
        let n: int = tax_numbers.len() as int;
        assert((n - 1) * k + k == n * k) by (nonlinear_arith);
    }
}

/// Each company contributes one FNS download per endpoint.
proof fn lemma_fns_plan_len(tax_numbers: Seq<Seq<char>>, endpoints: Seq<Seq<char>>)
    ensures
        fns_plan(tax_numbers, endpoints).len() == tax_numbers.len() * endpoints.len(),
    decreases tax_numbers.len(),
{
    if tax_numbers.len() > 0 {
        lemma_fns_plan_len(tax_numbers.drop_last(), endpoints);
        let k: int = endpoints.len() as int;
        let n: int = tax_numbers.len() as int;
        assert((n - 1) * k + k == n * k) by (nonlinear_arith);
    }
}

/// The number of Credinform downloads per company.
pub open spec fn credinform_block_len(addresses: Seq<Seq<char>>, trademarks: bool) -> int {
    addresses.len() + if trademarks {
        1int
    } else {
        0int
    }
}

/// The Credinform download of a plan for company number `i` and endpoint
/// number `j` (after the company's trademarks, when they are asked for).
pub open spec fn credinform_data_job_at(
    tax_numbers: Seq<Seq<char>>,
    addresses: Seq<Seq<char>>,
    trademarks: bool,
    i: int,
    j: int,
) -> CredinformJobView {
    credinform_plan(tax_numbers, addresses, trademarks)[i * credinform_block_len(addresses, trademarks)
        + (if trademarks {
        1int
    } else {
        0int
    }) + j]
}

/// The first Credinform download of company number `i` in a plan.
pub open spec fn credinform_first_job_of(
    tax_numbers: Seq<Seq<char>>,
    addresses: Seq<Seq<char>>,
    trademarks: bool,
    i: int,
) -> CredinformJobView {
    credinform_plan(tax_numbers, addresses, trademarks)[i * credinform_block_len(
        addresses,
        trademarks,
    )]
}

/// Law: a run's Credinform downloads hold, for each company in order, its
/// trademarks first when they are asked for, then each configured endpoint
/// once and in order, and nothing else.
pub proof fn law_credinform_plan_blocks(
    tax_numbers: Seq<Seq<char>>,
    addresses: Seq<Seq<char>>,
    trademarks: bool,
)
    ensures
        credinform_plan(tax_numbers, addresses, trademarks).len() == tax_numbers.len()
            * credinform_block_len(addresses, trademarks),
        forall|i: int, j: int|
            0 <= i < tax_numbers.len() && 0 <= j < addresses.len() ==> #[trigger] credinform_data_job_at(
                tax_numbers,
                addresses,
                trademarks,
                i,
                j,
            ) == CredinformJobView::Data(tax_numbers[i], addresses[j]),
        trademarks ==> forall|i: int|
            0 <= i < tax_numbers.len() ==> #[trigger] credinform_first_job_of(
                tax_numbers,
                addresses,
                trademarks,
                i,
            ) == CredinformJobView::Trademarks(tax_numbers[i]),
    decreases tax_numbers.len(),
{
    lemma_credinform_plan_len(tax_numbers, addresses, trademarks);
    if tax_numbers.len() > 0 {
        let p = tax_numbers.drop_last();
        law_credinform_plan_blocks(p, addresses, trademarks);
        let m: int = credinform_block_len(addresses, trademarks);
        let off: int = if trademarks {
            1int
        } else {
            0int
        };
        let n: int = tax_numbers.len() as int;
        let prefix = credinform_plan(p, addresses, trademarks);
        let block = credinform_block(tax_numbers.last(), addresses, trademarks);
        assert(prefix.len() == (n - 1) * m);
        assert(credinform_plan(tax_numbers, addresses, trademarks) == prefix + block);
        assert forall|i: int, j: int|
            0 <= i < n && 0 <= j < addresses.len() implies #[trigger] credinform_data_job_at(
            tax_numbers,
            addresses,
            trademarks,
            i,
            j,
        ) == CredinformJobView::Data(tax_numbers[i], addresses[j]) by {
            if i < n - 1 {
                assert(0 <= i * m + off + j < (n - 1) * m) by (nonlinear_arith)
                    requires
                        0 <= i < n - 1,
                        0 <= j,
                        0 <= off,
                        off + j < m,
                ;
                assert(credinform_data_job_at(p, addresses, trademarks, i, j)
                    == CredinformJobView::Data(p[i], addresses[j]));
            } else {
                assert(i * m == (n - 1) * m);
                assert(block[off + j] == CredinformJobView::Data(tax_numbers.last(), addresses[j]));
            }
        }
        if trademarks {
            assert forall|i: int| 0 <= i < n implies #[trigger] credinform_first_job_of(
                tax_numbers,
                addresses,
                trademarks,
                i,
            ) == CredinformJobView::Trademarks(tax_numbers[i]) by {
                if i < n - 1 {
                    assert(0 <= i * m < (n - 1) * m) by (nonlinear_arith)
                        requires
                            0 <= i < n - 1,
                            1 <= m,
                    ;
                    assert(credinform_first_job_of(p, addresses, trademarks, i)
                        == CredinformJobView::Trademarks(p[i]));
                } else {
                    assert(i * m == (n - 1) * m);
                    assert(block[0] == CredinformJobView::Trademarks(tax_numbers.last()));
                }
            }
        }
    }
}

/// The FNS download of a plan for company number `i` and endpoint number `k`.
pub open spec fn fns_job_at(tax_numbers: Seq<Seq<char>>, endpoints: Seq<Seq<char>>, i: int, k: int) -> (
    Seq<char>,
    Seq<char>,
) {
    fns_plan(tax_numbers, endpoints)[i * endpoints.len() + k]
}

/// Law: a run's FNS downloads hold, for each company in order, each
/// configured endpoint once and in order: the download at position
/// `i * endpoints + k` is endpoint `k` about company `i`, and there are no others.
pub proof fn law_fns_plan_blocks(tax_numbers: Seq<Seq<char>>, endpoints: Seq<Seq<char>>)
    ensures
        fns_plan(tax_numbers, endpoints).len() == tax_numbers.len() * endpoints.len(),
        forall|i: int, k: int|
            0 <= i < tax_numbers.len() && 0 <= k < endpoints.len() ==> #[trigger] fns_job_at(
                tax_numbers,
                endpoints,
                i,
                k,
            ) == (tax_numbers[i], endpoints[k]),
    decreases tax_numbers.len(),
{
    lemma_fns_plan_len(tax_numbers, endpoints);
    if tax_numbers.len() > 0 {
        let p = tax_numbers.drop_last();
        law_fns_plan_blocks(p, endpoints);
        let m: int = endpoints.len() as int;
        let n: int = tax_numbers.len() as int;
        let prefix = fns_plan(p, endpoints);
        assert(prefix.len() == (n - 1) * m);
        assert forall|i: int, k: int|
            0 <= i < n && 0 <= k < m implies #[trigger] fns_job_at(tax_numbers, endpoints, i, k) == (
            tax_numbers[i],
            endpoints[k],
        ) by {
            if i < n - 1 {
                assert(0 <= i * m + k < (n - 1) * m) by (nonlinear_arith)
                    requires
                        0 <= i < n - 1,
                        0 <= k < m,
                ;
                assert(fns_job_at(p, endpoints, i, k) == (p[i], endpoints[k]));
                assert(fns_plan(tax_numbers, endpoints)[i * m + k] == prefix[i * m + k]);
            } else {
                assert(i * m == (n - 1) * m);
                assert(fns_plan(tax_numbers, endpoints)[i * m + k] == endpoints.map_values(
                    |e: Seq<char>| (tax_numbers.last(), e),
                )[k]);
            }
        }
    }
}

/// Law: the progress total of a full run is the number of downloads it starts.
pub proof fn law_total_counts_every_download(
    tax_numbers: Seq<Seq<char>>,
    addresses: Seq<Seq<char>>,
    endpoints: Seq<Seq<char>>,
    trademarks: bool,
)
    ensures
        credinform_plan(tax_numbers, addresses, trademarks).len() + fns_plan(
            tax_numbers,
            endpoints,
        ).len() == full_run_total(
            tax_numbers.len() as int,
            addresses.len() as int,
            endpoints.len() as int,
            trademarks,
        ),
{
    lemma_credinform_plan_len(tax_numbers, addresses, trademarks);
    lemma_fns_plan_len(tax_numbers, endpoints);
    let n: int = tax_numbers.len() as int;
    let a: int = addresses.len() as int;
    assert(n * (a + 1) == n * a + n) by (nonlinear_arith);
    assert(n * (a + 0) == n * a) by (nonlinear_arith);
}

} // verus!
