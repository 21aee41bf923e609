//! What the command handler decides: which flags go with which provider,
//! how an inputs file splits by provider, and which requests a command
//! makes, in which order.
use vstd::prelude::*;
use vstd::string::*;
use vstd::std_specs::convert::FromSpec;
use crate::actors::driving::cli::commands::{
    CliProvider, DownloadArgs, TriggerArgs,
};
use crate::app::ports::types::{
    ExperienceLevel, IndeedDatePosted, IndeedDiscoverInput, JobType, LinkedinDiscoverInput, Remote,
    TimeRange,
};
use crate::text::{is_blank, trim_str};

verus! {

/// Why a command was refused before any request.
#[derive(PartialEq, Eq, Debug, Structural)]
pub enum CliError {
    /// Indeed-only flags given while the provider is LinkedIn.
    IndeedFlagsWithLinkedin,
    /// LinkedIn-only flags given while the provider is Indeed.
    LinkedinFlagsWithIndeed,
    /// Indeed flat mode without a domain.
    IndeedNeedsDomain,
    /// Indeed flat mode without a keyword.
    IndeedNeedsKeyword,
    /// Indeed flat mode without a country.
    IndeedNeedsCountry,
    /// An inputs file whose `input` list is empty.
    EmptyInputsFile,
    /// No input left once the provider filter applied; the provider given.
    NoInputsAfterFilter(Option<CliProvider>),
    /// Flat mode asked for every provider.
    FlatModeProviderAll,
}

/// How a provider filter is written in a report.
pub open spec fn provider_debug(p: Option<CliProvider>) -> Seq<char> {
    match p {
        None => "None"@,
        Some(CliProvider::All) => "Some(All)"@,
        Some(CliProvider::Linkedin) => "Some(Linkedin)"@,
        Some(CliProvider::Indeed) => "Some(Indeed)"@,
    }
}

impl CliError {
    /// The text that reports the error.
    pub open spec fn message_text(&self) -> Seq<char> {
        match self {
            CliError::IndeedFlagsWithLinkedin =>
                "Indeed-specific flags provided but provider is linkedin. Use --provider indeed or remove Indeed flags."@,
            CliError::LinkedinFlagsWithIndeed =>
                "LinkedIn-specific flags provided but provider is indeed. Remove LinkedIn flags (e.g., --keyword/--time-range/--remote/...)."@,
            CliError::IndeedNeedsDomain =>
                "Indeed flat mode requires --domain (e.g., fr.indeed.com)"@,
            CliError::IndeedNeedsKeyword => "Indeed flat mode requires --keyword"@,
            CliError::IndeedNeedsCountry => "Indeed flat mode requires --country (e.g., FR)"@,
            CliError::EmptyInputsFile => "inputs file contains an empty 'input' array"@,
            CliError::NoInputsAfterFilter(p) =>
                "no inputs left after applying provider filter (provider="@ + provider_debug(*p) + ")"@,
            CliError::FlatModeProviderAll =>
                "flat-flag mode does not support provider=all; choose --provider linkedin|indeed or use --inputs-file"@,
        }
    }

    /// The text that reports the error.
    pub fn message(&self) -> (r: String)
        ensures
            r@ == self.message_text(),
    {
        match self {
            CliError::IndeedFlagsWithLinkedin => String::from_str(
                "Indeed-specific flags provided but provider is linkedin. Use --provider indeed or remove Indeed flags.",
            ),
            CliError::LinkedinFlagsWithIndeed => String::from_str(
                "LinkedIn-specific flags provided but provider is indeed. Remove LinkedIn flags (e.g., --keyword/--time-range/--remote/...).",
            ),
            CliError::IndeedNeedsDomain => String::from_str(
                "Indeed flat mode requires --domain (e.g., fr.indeed.com)",
            ),
            CliError::IndeedNeedsKeyword => String::from_str("Indeed flat mode requires --keyword"),
            CliError::IndeedNeedsCountry => String::from_str(
                "Indeed flat mode requires --country (e.g., FR)",
            ),
            CliError::EmptyInputsFile => String::from_str(
                "inputs file contains an empty 'input' array",
            ),
            CliError::NoInputsAfterFilter(p) => {
                let mut out = String::from_str(
                    "no inputs left after applying provider filter (provider=",
                );
                out.append(
                    match p {
                        None => "None",
                        Some(CliProvider::All) => "Some(All)",
                        Some(CliProvider::Linkedin) => "Some(Linkedin)",
                        Some(CliProvider::Indeed) => "Some(Indeed)",
                    },
                );
                out.append(")");
                out
            },
            CliError::FlatModeProviderAll => String::from_str(
                "flat-flag mode does not support provider=all; choose --provider linkedin|indeed or use --inputs-file",
            ),
        }
    }
}

/// Holds of a flag given with a non-blank value.
pub open spec fn nonempty_flag(opt: Option<String>) -> bool {
    match opt {
        Some(s) => !is_blank(s@),
        None => false,
    }
}

/// Whether a flag is given with a non-blank value.
pub fn has_nonempty(opt: &Option<String>) -> (r: bool)
    ensures
        r == nonempty_flag(*opt),
{
    match opt {
        Some(s) => !trim_str(s.as_str()).is_empty(),
        None => false,
    }
}

/// The provider filter of an inputs file: all providers unless one is given.
pub open spec fn inputs_file_provider(args: TriggerArgs) -> CliProvider {
    match args.provider {
        Some(p) => p,
        None => CliProvider::All,
    }
}

/// The provider filter of an inputs file: all providers unless one is given.
pub fn provider_for_inputs_file(args: &TriggerArgs) -> (r: CliProvider)
    ensures
        r == inputs_file_provider(*args),
{
    match args.provider {
        Some(p) => p,
        None => CliProvider::All,
    }
}

/// The provider of flat mode: LinkedIn unless one is given.
pub open spec fn flat_args_provider(args: TriggerArgs) -> CliProvider {
    match args.provider {
        Some(p) => p,
        None => CliProvider::Linkedin,
    }
}

/// The provider of flat mode: LinkedIn unless one is given.
pub fn provider_for_flat_args(args: &TriggerArgs) -> (r: CliProvider)
    ensures
        r == flat_args_provider(*args),
{
    match args.provider {
        Some(p) => p,
        None => CliProvider::Linkedin,
    }
}

/// Holds where an Indeed-only flag is given: a domain, a date posted, a
/// poster or a pay.
pub open spec fn indeed_flags_given(args: TriggerArgs) -> bool {
    nonempty_flag(args.domain) || args.date_posted is Some || nonempty_flag(args.posted_by)
        || args.pay is Some
}

/// Flat mode for LinkedIn takes no Indeed-only flag.
pub fn validate_flat_args_for_linkedin(args: &TriggerArgs) -> (r: Result<(), CliError>)
    ensures
        match r {
            Ok(()) => !indeed_flags_given(*args),
            Err(e) => indeed_flags_given(*args) && e == CliError::IndeedFlagsWithLinkedin,
        },
{
    if has_nonempty(&args.domain) || args.date_posted.is_some() || has_nonempty(&args.posted_by)
        || args.pay.is_some() {
        return Err(CliError::IndeedFlagsWithLinkedin);
    }
    Ok(())
}

/// Holds where a LinkedIn-only flag is given.
pub open spec fn linkedin_flags_given(args: TriggerArgs) -> bool {
    args.time_range is Some || args.job_type is Some || args.experience_level is Some
        || args.remote is Some || nonempty_flag(args.selective_search) || nonempty_flag(
        args.company,
    )
}

/// What flat mode for Indeed refuses, in the order it checks: LinkedIn-only
/// flags, then a missing domain, keyword or country.
pub open spec fn indeed_flat_error(args: TriggerArgs) -> Option<CliError> {
    if linkedin_flags_given(args) {
        Some(CliError::LinkedinFlagsWithIndeed)
    } else if !nonempty_flag(args.domain) {
        Some(CliError::IndeedNeedsDomain)
    } else if !nonempty_flag(args.keyword) {
        Some(CliError::IndeedNeedsKeyword)
    } else if !nonempty_flag(args.country) {
        Some(CliError::IndeedNeedsCountry)
    } else {
        None
    }
}

/// Flat mode for Indeed takes no LinkedIn-only flag and needs a domain, a
/// keyword and a country.
pub fn validate_flat_args_for_indeed(args: &TriggerArgs) -> (r: Result<(), CliError>)
    ensures
        match indeed_flat_error(*args) {
            Some(e) => r == Err::<(), CliError>(e),
            None => r is Ok,
        },
{
    if args.time_range.is_some() || args.job_type.is_some() || args.experience_level.is_some()
        || args.remote.is_some() || has_nonempty(&args.selective_search) || has_nonempty(
        &args.company,
    ) {
        return Err(CliError::LinkedinFlagsWithIndeed);
    }
    if !has_nonempty(&args.domain) {
        return Err(CliError::IndeedNeedsDomain);
    }
    if !has_nonempty(&args.keyword) {
        return Err(CliError::IndeedNeedsKeyword);
    }
    if !has_nonempty(&args.country) {
        return Err(CliError::IndeedNeedsCountry);
    }
    Ok(())
}

/// Keeps only the inputs of the filtered provider.
pub fn apply_provider_filter(
    provider: CliProvider,
    linkedin_inputs: &mut Vec<LinkedinDiscoverInput>,
    indeed_inputs: &mut Vec<IndeedDiscoverInput>,
)
    ensures
        final(linkedin_inputs)@ == (if provider == CliProvider::Indeed {
            Seq::empty()
        } else {
            old(linkedin_inputs)@
        }),
        final(indeed_inputs)@ == (if provider == CliProvider::Linkedin {
            Seq::empty()
        } else {
            old(indeed_inputs)@
        }),
{
    match provider {
        CliProvider::All => {},
        CliProvider::Linkedin => {
            indeed_inputs.clear();
        },
        CliProvider::Indeed => {
            linkedin_inputs.clear();
        },
    }
}

/// An entry of an inputs file that names its provider.
pub enum TaggedInput {
    Linkedin(LinkedinDiscoverInput),
    Indeed(IndeedDiscoverInput),
}

/// An entry of an inputs file: one that names its provider, or one without
/// a provider, which is a LinkedIn input.
pub enum InputsEntry {
    Tagged(TaggedInput),
    LinkedinLegacy(LinkedinDiscoverInput),
}

/// The LinkedIn inputs among the entries, in order.
pub open spec fn linkedin_entries(entries: Seq<InputsEntry>) -> Seq<LinkedinDiscoverInput>
    decreases entries.len(),
{
    if entries.len() == 0 {
        Seq::empty()
    } else {
        let before = linkedin_entries(entries.drop_last());
        match entries.last() {
            InputsEntry::Tagged(TaggedInput::Linkedin(i)) => before.push(i),
            InputsEntry::LinkedinLegacy(i) => before.push(i),
            InputsEntry::Tagged(TaggedInput::Indeed(_)) => before,
        }
    }
}

/// The Indeed inputs among the entries, in order.
pub open spec fn indeed_entries(entries: Seq<InputsEntry>) -> Seq<IndeedDiscoverInput>
    decreases entries.len(),
{
    if entries.len() == 0 {
        Seq::empty()
    } else {
        let before = indeed_entries(entries.drop_last());
        match entries.last() {
            InputsEntry::Tagged(TaggedInput::Indeed(i)) => before.push(i),
            _ => before,
        }
    }
}

/// Splits the entries of an inputs file by provider, keeping their order.
pub fn split_inputs(entries: Vec<InputsEntry>) -> (r: (
    Vec<LinkedinDiscoverInput>,
    Vec<IndeedDiscoverInput>,
))
    ensures
        r.0@ == linkedin_entries(entries@),
        r.1@ == indeed_entries(entries@),
{
    let ghost es = entries@;
    let mut linkedin: Vec<LinkedinDiscoverInput> = Vec::new();
    let mut indeed: Vec<IndeedDiscoverInput> = Vec::new();
    for entry in it: entries.into_iter()
        invariant
            it.seq() == es,
            linkedin@ == linkedin_entries(es.take(it.index() as int)),
            indeed@ == indeed_entries(es.take(it.index() as int)),
    {
        let ghost i = it.index();
        assert(es.take(i + 1).drop_last() =~= es.take(i as int));
        assert(es.take(i + 1).last() == entry);
        match entry {
            InputsEntry::Tagged(tagged) => match tagged {
                TaggedInput::Linkedin(input) => linkedin.push(input),
                TaggedInput::Indeed(input) => indeed.push(input),
            },
            InputsEntry::LinkedinLegacy(input) => linkedin.push(input),
        }
    }
    assert(es.take(es.len() as int) =~= es);
    (linkedin, indeed)
}


/// The inputs of a parsed inputs file, split by provider; an error where
/// its `input` list is empty.
pub fn inputs_from_entries(entries: Vec<InputsEntry>) -> (r: Result<
    (Vec<LinkedinDiscoverInput>, Vec<IndeedDiscoverInput>),
    CliError,
>)
    ensures
        match r {
            Ok((l, i)) => entries@.len() > 0 && l@ == linkedin_entries(entries@) && i@
                == indeed_entries(entries@),
            Err(e) => entries@.len() == 0 && e == CliError::EmptyInputsFile,
        },
{
    if entries.len() == 0 {
        return Err(CliError::EmptyInputsFile);
    }
    Ok(split_inputs(entries))
}

/// A flag's text, or `default` where the flag is not given.
pub open spec fn flag_or(opt: Option<String>, default: Seq<char>) -> Seq<char> {
    match opt {
        Some(s) => s@,
        None => default,
    }
}

fn string_or(opt: &Option<String>, default: &str) -> (r: String)
    ensures
        r@ == flag_or(*opt, default@),
{
    match opt {
        Some(s) => s.clone(),
        None => String::from_str(default),
    }
}

fn string_or_empty(opt: &Option<String>) -> (r: String)
    ensures
        r@ == flag_or(*opt, Seq::empty()),
{
    match opt {
        Some(s) => s.clone(),
        None => String::new(),
    }
}

/// Holds of the LinkedIn input that flat flags describe: location `New York`
/// and keyword `Engineer` unless given, the other texts empty unless given,
/// the choices as given.
pub open spec fn is_flat_linkedin_input(input: LinkedinDiscoverInput, args: TriggerArgs) -> bool {
    &&& input.location@ == flag_or(args.location, "New York"@)
    &&& input.keyword@ == flag_or(args.keyword, "Engineer"@)
    &&& input.country@ == flag_or(args.country, Seq::empty())
    &&& input.time_range == match args.time_range {
        Some(v) => Some(<TimeRange as FromSpec<_>>::from_spec(v)),
        None => None,
    }
    &&& input.job_type == match args.job_type {
        Some(v) => Some(<JobType as FromSpec<_>>::from_spec(v)),
        None => None,
    }
    &&& input.experience_level == match args.experience_level {
        Some(v) => Some(<ExperienceLevel as FromSpec<_>>::from_spec(v)),
        None => None,
    }
    &&& input.remote == match args.remote {
        Some(v) => Some(<Remote as FromSpec<_>>::from_spec(v)),
        None => None,
    }
    &&& input.selective_search@ == flag_or(args.selective_search, Seq::empty())
    &&& input.company@ == flag_or(args.company, Seq::empty())
    &&& input.location_radius@ == flag_or(args.location_radius, Seq::empty())
}

/// The LinkedIn input that flat flags describe.
pub fn build_single_linkedin_input(args: &TriggerArgs) -> (r: LinkedinDiscoverInput)
    ensures
        is_flat_linkedin_input(r, *args),
{
    LinkedinDiscoverInput {
        location: string_or(&args.location, "New York"),
        keyword: string_or(&args.keyword, "Engineer"),
        country: string_or_empty(&args.country),
        time_range: match args.time_range {
            Some(v) => Some(TimeRange::from(v)),
            None => None,
        },
        job_type: match args.job_type {
            Some(v) => Some(JobType::from(v)),
            None => None,
        },
        experience_level: match args.experience_level {
            Some(v) => Some(ExperienceLevel::from(v)),
            None => None,
        },
        remote: match args.remote {
            Some(v) => Some(Remote::from(v)),
            None => None,
        },
        selective_search: string_or_empty(&args.selective_search),
        company: string_or_empty(&args.company),
        location_radius: string_or_empty(&args.location_radius),
    }
}

/// Holds of the Indeed input that flat flags describe: the texts empty
/// unless given, the date posted and pay as given.
pub open spec fn is_flat_indeed_input(input: IndeedDiscoverInput, args: TriggerArgs) -> bool {
    &&& input.country@ == flag_or(args.country, Seq::empty())
    &&& input.domain@ == flag_or(args.domain, Seq::empty())
    &&& input.keyword@ == flag_or(args.keyword, Seq::empty())
    &&& input.location@ == flag_or(args.location, Seq::empty())
    &&& input.date_posted == match args.date_posted {
        Some(v) => Some(<IndeedDatePosted as FromSpec<_>>::from_spec(v)),
        None => None,
    }
    &&& input.posted_by@ == flag_or(args.posted_by, Seq::empty())
    &&& input.location_radius@ == flag_or(args.location_radius, Seq::empty())
    &&& input.pay == args.pay
}

/// The Indeed input that flat flags describe.
pub fn build_single_indeed_input(args: &TriggerArgs) -> (r: IndeedDiscoverInput)
    ensures
        is_flat_indeed_input(r, *args),
{
    IndeedDiscoverInput {
        country: string_or_empty(&args.country),
        domain: string_or_empty(&args.domain),
        keyword: string_or_empty(&args.keyword),
        location: string_or_empty(&args.location),
        date_posted: match args.date_posted {
            Some(v) => Some(IndeedDatePosted::from(v)),
            None => None,
        },
        posted_by: string_or_empty(&args.posted_by),
        location_radius: string_or_empty(&args.location_radius),
        pay: args.pay,
    }
}


/// A collection request of a command: the inputs for one provider.
pub enum Request {
    Linkedin(Vec<LinkedinDiscoverInput>),
    Indeed(Vec<IndeedDiscoverInput>),
}

/// The inputs of a request.
pub enum RequestView {
    Linkedin(Seq<LinkedinDiscoverInput>),
    Indeed(Seq<IndeedDiscoverInput>),
}

impl View for Request {
    type V = RequestView;

    open spec fn view(&self) -> RequestView {
        match self {
            Request::Linkedin(v) => RequestView::Linkedin(v@),
            Request::Indeed(v) => RequestView::Indeed(v@),
        }
    }
}

/// The views of a list of requests.
pub open spec fn requests_view(reqs: Seq<Request>) -> Seq<RequestView> {
    reqs.map_values(|r: Request| r@)
}

/// The requests of an inputs file once its provider filter applies: the
/// LinkedIn inputs first, then the Indeed ones, each only where some are
/// left; an error where none is left.
pub open spec fn planned_from_file(
    args: TriggerArgs,
    linkedin: Seq<LinkedinDiscoverInput>,
    indeed: Seq<IndeedDiscoverInput>,
) -> Result<Seq<RequestView>, CliError> {
    let p = inputs_file_provider(args);
    let kept_linkedin = if p == CliProvider::Indeed {
        Seq::empty()
    } else {
        linkedin
    };
    let kept_indeed = if p == CliProvider::Linkedin {
        Seq::empty()
    } else {
        indeed
    };
    if kept_linkedin.len() == 0 && kept_indeed.len() == 0 {
        Err(CliError::NoInputsAfterFilter(args.provider))
    } else {
        Ok(
            (if kept_linkedin.len() > 0 {
                seq![RequestView::Linkedin(kept_linkedin)]
            } else {
                Seq::empty()
            }) + (if kept_indeed.len() > 0 {
                seq![RequestView::Indeed(kept_indeed)]
            } else {
                Seq::empty()
            }),
        )
    }
}

/// Holds of what flat mode plans: an error for every provider, the flag
/// errors of the chosen provider, or else one request with the one input
/// that the flags describe.
pub open spec fn flat_plan(args: TriggerArgs, r: Result<Vec<Request>, CliError>) -> bool {
    match flat_args_provider(args) {
        CliProvider::All => r == Err::<Vec<Request>, CliError>(CliError::FlatModeProviderAll),
        CliProvider::Linkedin => if indeed_flags_given(args) {
            r == Err::<Vec<Request>, CliError>(CliError::IndeedFlagsWithLinkedin)
        } else {
            match r {
                Ok(reqs) => reqs@.len() == 1 && match reqs@[0] {
                    Request::Linkedin(v) => v@.len() == 1 && is_flat_linkedin_input(v@[0], args),
                    _ => false,
                },
                Err(_) => false,
            }
        },
        CliProvider::Indeed => match indeed_flat_error(args) {
            Some(e) => r == Err::<Vec<Request>, CliError>(e),
            None => match r {
                Ok(reqs) => reqs@.len() == 1 && match reqs@[0] {
                    Request::Indeed(v) => v@.len() == 1 && is_flat_indeed_input(v@[0], args),
                    _ => false,
                },
                Err(_) => false,
            },
        },
    }
}

/// The requests that a trigger or get command makes, in order: those of the
/// inputs file where one was read (its inputs split by provider), else the
/// one that the flat flags describe.
pub fn plan_requests(
    args: &TriggerArgs,
    file_inputs: Option<(Vec<LinkedinDiscoverInput>, Vec<IndeedDiscoverInput>)>,
) -> (r: Result<Vec<Request>, CliError>)
    requires
        file_inputs is Some <==> args.inputs_file is Some,
    ensures
        match file_inputs {
            Some(inputs) => match planned_from_file(*args, inputs.0@, inputs.1@) {
                Ok(reqs) => r is Ok && requests_view(r->Ok_0@) == reqs,
                Err(e) => r == Err::<Vec<Request>, CliError>(e),
            },
            None => flat_plan(*args, r),
        },
{
    match file_inputs {
        Some((linkedin_inputs, indeed_inputs)) => {
            let mut linkedin_inputs = linkedin_inputs;
            let mut indeed_inputs = indeed_inputs;
            apply_provider_filter(
                provider_for_inputs_file(args),
                &mut linkedin_inputs,
                &mut indeed_inputs,
            );
            if linkedin_inputs.len() == 0 && indeed_inputs.len() == 0 {
                return Err(CliError::NoInputsAfterFilter(args.provider));
            }
            let mut reqs: Vec<Request> = Vec::new();
            let ghost kl = linkedin_inputs@;
            let ghost ki = indeed_inputs@;
            let has_linkedin = linkedin_inputs.len() > 0;
            let has_indeed = indeed_inputs.len() > 0;
            if has_linkedin {
                reqs.push(Request::Linkedin(linkedin_inputs));
            }
            if has_indeed {
                reqs.push(Request::Indeed(indeed_inputs));
            }
            proof {
                let expected = (if kl.len() > 0 {
                    seq![RequestView::Linkedin(kl)]
                } else {
                    Seq::empty()
                }) + (if ki.len() > 0 {
                    seq![RequestView::Indeed(ki)]
                } else {
                    Seq::empty()
                });
                assert(requests_view(reqs@) =~= expected);
            }
            Ok(reqs)
        },
        None => match provider_for_flat_args(args) {
            CliProvider::All => Err(CliError::FlatModeProviderAll),
            CliProvider::Linkedin => {
                validate_flat_args_for_linkedin(args)?;
                let mut inputs: Vec<LinkedinDiscoverInput> = Vec::new();
                inputs.push(build_single_linkedin_input(args));
                let mut reqs: Vec<Request> = Vec::new();
                reqs.push(Request::Linkedin(inputs));
                Ok(reqs)
            },
            CliProvider::Indeed => {
                validate_flat_args_for_indeed(args)?;
                let mut inputs: Vec<IndeedDiscoverInput> = Vec::new();
                inputs.push(build_single_indeed_input(args));
                let mut reqs: Vec<Request> = Vec::new();
                reqs.push(Request::Indeed(inputs));
                Ok(reqs)
            },
        },
    }
}

/// The report line of a triggered request: its provider and the snapshot it
/// started.
pub open spec fn trigger_line_text(req: RequestView, snapshot_id: Seq<char>) -> Seq<char> {
    match req {
        RequestView::Linkedin(_) => "LinkedIn: "@ + snapshot_id,
        RequestView::Indeed(_) => "Indeed: "@ + snapshot_id,
    }
}

/// The report line of a triggered request.
pub fn trigger_line(req: &Request, snapshot_id: &str) -> (r: String)
    ensures
        r@ == trigger_line_text(req@, snapshot_id@),
{
    let mut out = match req {
        Request::Linkedin(_) => String::from_str("LinkedIn: "),
        Request::Indeed(_) => String::from_str("Indeed: "),
    };
    out.append(snapshot_id);
    out
}

/// Lines joined by line breaks.
pub open spec fn joined_lines(lines: Seq<Seq<char>>) -> Seq<char>
    decreases lines.len(),
{
    if lines.len() == 0 {
        Seq::empty()
    } else if lines.len() == 1 {
        lines[0]
    } else {
        joined_lines(lines.drop_last()) + "\n"@ + lines.last()
    }
}

/// The report of a trigger command: after a title, the lines one per line
/// for an inputs file, or the one line of flat mode on the title's line.
pub open spec fn trigger_summary_text(from_file: bool, lines: Seq<Seq<char>>) -> Seq<char> {
    if from_file {
        "Triggered fetching jobs:\n"@ + joined_lines(lines)
    } else {
        "Triggered fetching jobs: "@ + joined_lines(lines)
    }
}

/// The report of a trigger command.
pub fn trigger_summary(from_file: bool, lines: &Vec<String>) -> (r: String)
    ensures
        r@ == trigger_summary_text(from_file, lines@.map_values(|l: String| l@)),
{
    let ghost lv = lines@.map_values(|l: String| l@);
    let mut out = if from_file {
        String::from_str("Triggered fetching jobs:\n")
    } else {
        String::from_str("Triggered fetching jobs: ")
    };
    let ghost head = out@;
    for i in 0..lines.len()
        invariant
            lv == lines@.map_values(|l: String| l@),
            out@ == head + joined_lines(lv.take(i as int)),
    {
        assert(lv.take(i + 1).drop_last() =~= lv.take(i as int));
        assert(lv.take(i + 1).last() == lines@[i as int]@);
        if i > 0 {
            out.append("\n");
        }
        out.append(lines[i].as_str());
        proof {
            if i == 0 {
                assert(lv.take(1).len() == 1);
                assert(joined_lines(lv.take(0)) =~= Seq::<char>::empty());
            }
        }
        assert(out@ =~= head + joined_lines(lv.take(i + 1)));
    }
    assert(lv.take(lines.len() as int) =~= lv);
    out
}

/// Where a download is saved: the output given, else `snapshot.json`.
pub fn download_path(args: &DownloadArgs) -> (r: String)
    ensures
        r@ == flag_or(args.output, "snapshot.json"@),
{
    string_or(&args.output, "snapshot.json")
}

/// The command handler: the four services it dispatches to.
pub struct CLIHandler<LJ, LS, IJ, IS> {
    linkedin_job_fetcher: LJ,
    linkedin_snapshot_manager: LS,
    indeed_job_fetcher: IJ,
    indeed_snapshot_manager: IS,
}

impl<LJ, LS, IJ, IS> CLIHandler<LJ, LS, IJ, IS> {
    /// The LinkedIn job service.
    pub closed spec fn linkedin_jobs(&self) -> LJ {
        self.linkedin_job_fetcher
    }

    /// The LinkedIn snapshot service.
    pub closed spec fn linkedin_snapshots(&self) -> LS {
        self.linkedin_snapshot_manager
    }

    /// The Indeed job service.
    pub closed spec fn indeed_jobs(&self) -> IJ {
        self.indeed_job_fetcher
    }

    /// The Indeed snapshot service.
    pub closed spec fn indeed_snapshots(&self) -> IS {
        self.indeed_snapshot_manager
    }

    /// A handler over the four services.
    pub fn new(
        linkedin_job_fetcher: LJ,
        linkedin_snapshot_manager: LS,
        indeed_job_fetcher: IJ,
        indeed_snapshot_manager: IS,
    ) -> (r: Self)
        ensures
            r.linkedin_jobs() == linkedin_job_fetcher,
            r.linkedin_snapshots() == linkedin_snapshot_manager,
            r.indeed_jobs() == indeed_job_fetcher,
            r.indeed_snapshots() == indeed_snapshot_manager,
    {
        CLIHandler {
            linkedin_job_fetcher,
            linkedin_snapshot_manager,
            indeed_job_fetcher,
            indeed_snapshot_manager,
        }
    }

    /// The LinkedIn job service.
    pub fn linkedin_job_fetcher(&self) -> (r: &LJ)
        ensures
            *r == self.linkedin_jobs(),
    {
        &self.linkedin_job_fetcher
    }

    /// The LinkedIn snapshot service.
    pub fn linkedin_snapshot_manager(&self) -> (r: &LS)
        ensures
            *r == self.linkedin_snapshots(),
    {
        &self.linkedin_snapshot_manager
    }

    /// The Indeed job service.
    pub fn indeed_job_fetcher(&self) -> (r: &IJ)
        ensures
            *r == self.indeed_jobs(),
    {
        &self.indeed_job_fetcher
    }

    /// The Indeed snapshot service.
    pub fn indeed_snapshot_manager(&self) -> (r: &IS)
        ensures
            *r == self.indeed_snapshots(),
    {
        &self.indeed_snapshot_manager
    }
}


/// Every entry of an inputs file goes to exactly one provider's list.
pub proof fn split_inputs_keeps_every_entry(entries: Seq<InputsEntry>)
    ensures
        linkedin_entries(entries).len() + indeed_entries(entries).len() == entries.len(),
    decreases entries.len(),
{
    if entries.len() > 0 {
        split_inputs_keeps_every_entry(entries.drop_last());
    }
}

/// An inputs file whose entries name no provider is read as LinkedIn inputs
/// only, in order.
pub proof fn entries_without_provider_are_linkedin(entries: Seq<InputsEntry>)
    requires
        forall|k: int| 0 <= k < entries.len() ==> #[trigger] entries[k] is LinkedinLegacy,
    ensures
        indeed_entries(entries).len() == 0,
        linkedin_entries(entries) == entries.map_values(|e: InputsEntry| e->LinkedinLegacy_0),
    decreases entries.len(),
{
    if entries.len() > 0 {
        let rest = entries.drop_last();
        assert forall|k: int| 0 <= k < rest.len() implies #[trigger] rest[k] is LinkedinLegacy by {
            assert(rest[k] == entries[k]);
        }
        entries_without_provider_are_linkedin(rest);
        assert(entries[entries.len() - 1] is LinkedinLegacy);
        assert(entries.map_values(|e: InputsEntry| e->LinkedinLegacy_0) =~= rest.map_values(
            |e: InputsEntry| e->LinkedinLegacy_0,
        ).push(entries.last()->LinkedinLegacy_0));
    }
}

} // verus!
