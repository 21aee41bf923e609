use autoseeker::actors::driving::cli::commands::{
    CliExperienceLevel, CliIndeedDatePosted, CliJobType, CliProvider, CliRemote, CliTimeRange,
    DownloadArgs, TriggerArgs,
};
use autoseeker::actors::driving::cli::handler::{
    apply_provider_filter, build_single_indeed_input, build_single_linkedin_input, download_path,
    has_nonempty, inputs_from_entries, plan_requests, provider_for_flat_args,
    provider_for_inputs_file, split_inputs, trigger_line, trigger_summary,
    validate_flat_args_for_indeed, validate_flat_args_for_linkedin, CLIHandler, CliError,
    InputsEntry, Request, TaggedInput,
};
use autoseeker::app::ports::types::{
    ExperienceLevel, IndeedDatePosted, IndeedDiscoverInput, JobType, LinkedinDiscoverInput, Remote,
    TimeRange,
};

fn args() -> TriggerArgs {
    TriggerArgs {
        location: None,
        keyword: None,
        inputs_file: None,
        provider: None,
        country: None,
        time_range: None,
        job_type: None,
        experience_level: None,
        remote: None,
        selective_search: None,
        company: None,
        location_radius: None,
        domain: None,
        date_posted: None,
        posted_by: None,
        pay: None,
        limit_per_input: None,
    }
}

fn s(v: &str) -> Option<String> {
    Some(v.to_string())
}

fn linkedin(location: &str) -> LinkedinDiscoverInput {
    let mut i = LinkedinDiscoverInput::default();
    i.location = location.to_string();
    i
}

fn indeed(domain: &str) -> IndeedDiscoverInput {
    let mut i = IndeedDiscoverInput::default();
    i.domain = domain.to_string();
    i
}

#[test]
fn cli_choices_convert() {
    assert_eq!(TimeRange::from(CliTimeRange::Past24Hours), TimeRange::Past24Hours);
    assert_eq!(JobType::from(CliJobType::Volunteer), JobType::Volunteer);
    assert_eq!(ExperienceLevel::from(CliExperienceLevel::Director), ExperienceLevel::Director);
    assert_eq!(Remote::from(CliRemote::OnSite), Remote::OnSite);
    assert_eq!(IndeedDatePosted::from(CliIndeedDatePosted::Last14Days), IndeedDatePosted::Last14Days);
}

#[test]
fn nonempty_flags() {
    assert!(!has_nonempty(&None));
    assert!(!has_nonempty(&s("  ")));
    assert!(has_nonempty(&s(" x ")));
}

#[test]
fn default_providers() {
    let a = args();
    assert_eq!(provider_for_inputs_file(&a), CliProvider::All);
    assert_eq!(provider_for_flat_args(&a), CliProvider::Linkedin);
    let mut b = args();
    b.provider = Some(CliProvider::Indeed);
    assert_eq!(provider_for_inputs_file(&b), CliProvider::Indeed);
    assert_eq!(provider_for_flat_args(&b), CliProvider::Indeed);
}

#[test]
fn linkedin_flat_mode_refuses_indeed_flags() {
    let mut a = args();
    assert!(validate_flat_args_for_linkedin(&a).is_ok());
    a.domain = s("   ");
    assert!(validate_flat_args_for_linkedin(&a).is_ok());
    a.pay = Some(1);
    let e = validate_flat_args_for_linkedin(&a).err().unwrap();
    assert_eq!(e, CliError::IndeedFlagsWithLinkedin);
    assert_eq!(
        e.message(),
        "Indeed-specific flags provided but provider is linkedin. Use --provider indeed or remove Indeed flags."
    );
}

#[test]
fn indeed_flat_mode_checks_in_order() {
    let mut a = args();
    a.remote = Some(CliRemote::Hybrid);
    a.domain = s("fr.indeed.com");
    assert_eq!(validate_flat_args_for_indeed(&a).err(), Some(CliError::LinkedinFlagsWithIndeed));
    let mut a = args();
    assert_eq!(validate_flat_args_for_indeed(&a).err(), Some(CliError::IndeedNeedsDomain));
    a.domain = s("fr.indeed.com");
    assert_eq!(validate_flat_args_for_indeed(&a).err(), Some(CliError::IndeedNeedsKeyword));
    a.keyword = s("rust");
    assert_eq!(validate_flat_args_for_indeed(&a).err(), Some(CliError::IndeedNeedsCountry));
    a.country = s("FR");
    assert!(validate_flat_args_for_indeed(&a).is_ok());
    assert_eq!(
        CliError::IndeedNeedsDomain.message(),
        "Indeed flat mode requires --domain (e.g., fr.indeed.com)"
    );
    assert_eq!(CliError::IndeedNeedsKeyword.message(), "Indeed flat mode requires --keyword");
    assert_eq!(CliError::IndeedNeedsCountry.message(), "Indeed flat mode requires --country (e.g., FR)");
}

#[test]
fn provider_filter() {
    let mut l = vec![linkedin("a")];
    let mut i = vec![indeed("b")];
    apply_provider_filter(CliProvider::All, &mut l, &mut i);
    assert_eq!((l.len(), i.len()), (1, 1));
    apply_provider_filter(CliProvider::Linkedin, &mut l, &mut i);
    assert_eq!((l.len(), i.len()), (1, 0));
    let mut i = vec![indeed("b")];
    apply_provider_filter(CliProvider::Indeed, &mut l, &mut i);
    assert_eq!((l.len(), i.len()), (0, 1));
}

#[test]
fn split_keeps_order_and_legacy_entries() {
    let entries = vec![
        InputsEntry::Tagged(TaggedInput::Indeed(indeed("i1"))),
        InputsEntry::LinkedinLegacy(linkedin("l1")),
        InputsEntry::Tagged(TaggedInput::Linkedin(linkedin("l2"))),
        InputsEntry::Tagged(TaggedInput::Indeed(indeed("i2"))),
    ];
    let (l, i) = split_inputs(entries);
    assert_eq!(l.iter().map(|x| x.location.as_str()).collect::<Vec<_>>(), vec!["l1", "l2"]);
    assert_eq!(i.iter().map(|x| x.domain.as_str()).collect::<Vec<_>>(), vec!["i1", "i2"]);
}

#[test]
fn empty_inputs_file_is_an_error() {
    let e = inputs_from_entries(Vec::new()).err().unwrap();
    assert_eq!(e, CliError::EmptyInputsFile);
    assert_eq!(e.message(), "inputs file contains an empty 'input' array");
    assert!(inputs_from_entries(vec![InputsEntry::LinkedinLegacy(linkedin("x"))]).is_ok());
}

#[test]
fn flat_linkedin_input_defaults() {
    let input = build_single_linkedin_input(&args());
    assert_eq!(input.location, "New York");
    assert_eq!(input.keyword, "Engineer");
    assert_eq!(input.country, "");
    assert!(input.time_range.is_none());
    let mut a = args();
    a.location = s("Montpellier");
    a.keyword = s("Rust");
    a.job_type = Some(CliJobType::FullTime);
    a.company = s("acme");
    let input = build_single_linkedin_input(&a);
    assert_eq!(input.location, "Montpellier");
    assert_eq!(input.keyword, "Rust");
    assert_eq!(input.job_type, Some(JobType::FullTime));
    assert_eq!(input.company, "acme");
}

#[test]
fn flat_indeed_input() {
    let mut a = args();
    a.domain = s("fr.indeed.com");
    a.date_posted = Some(CliIndeedDatePosted::Last3Days);
    a.pay = Some(60000);
    let input = build_single_indeed_input(&a);
    assert_eq!(input.domain, "fr.indeed.com");
    assert_eq!(input.keyword, "");
    assert_eq!(input.date_posted, Some(IndeedDatePosted::Last3Days));
    assert_eq!(input.pay, Some(60000));
}

#[test]
fn plan_from_file_both_providers() {
    let mut a = args();
    a.inputs_file = s("inputs.json");
    let reqs = plan_requests(&a, Some((vec![linkedin("l")], vec![indeed("i")]))).ok().unwrap();
    assert_eq!(reqs.len(), 2);
    assert!(matches!(&reqs[0], Request::Linkedin(v) if v.len() == 1));
    assert!(matches!(&reqs[1], Request::Indeed(v) if v.len() == 1));
}

#[test]
fn plan_from_file_with_filter() {
    let mut a = args();
    a.inputs_file = s("inputs.json");
    a.provider = Some(CliProvider::Indeed);
    let reqs = plan_requests(&a, Some((vec![linkedin("l")], vec![indeed("i")]))).ok().unwrap();
    assert_eq!(reqs.len(), 1);
    assert!(matches!(&reqs[0], Request::Indeed(_)));
    let e = plan_requests(&a, Some((vec![linkedin("l")], Vec::new()))).err().unwrap();
    assert_eq!(e, CliError::NoInputsAfterFilter(Some(CliProvider::Indeed)));
    assert_eq!(
        e.message(),
        "no inputs left after applying provider filter (provider=Some(Indeed))"
    );
    assert_eq!(
        CliError::NoInputsAfterFilter(None).message(),
        "no inputs left after applying provider filter (provider=None)"
    );
}

#[test]
fn plan_flat_mode() {
    let reqs = plan_requests(&args(), None).ok().unwrap();
    assert_eq!(reqs.len(), 1);
    match &reqs[0] {
        Request::Linkedin(v) => assert_eq!(v[0].location, "New York"),
        _ => panic!("expected a LinkedIn request"),
    }
    let mut a = args();
    a.provider = Some(CliProvider::All);
    let e = plan_requests(&a, None).err().unwrap();
    assert_eq!(e, CliError::FlatModeProviderAll);
    assert_eq!(
        e.message(),
        "flat-flag mode does not support provider=all; choose --provider linkedin|indeed or use --inputs-file"
    );
    let mut b = args();
    b.provider = Some(CliProvider::Indeed);
    assert_eq!(plan_requests(&b, None).err(), Some(CliError::IndeedNeedsDomain));
    b.domain = s("d");
    b.keyword = s("k");
    b.country = s("c");
    let reqs = plan_requests(&b, None).ok().unwrap();
    assert!(matches!(&reqs[0], Request::Indeed(v) if v[0].country == "c"));
}

#[test]
fn trigger_reports() {
    let l = Request::Linkedin(Vec::new());
    let i = Request::Indeed(Vec::new());
    assert_eq!(trigger_line(&l, "s_1"), "LinkedIn: s_1");
    assert_eq!(trigger_line(&i, "s_2"), "Indeed: s_2");
    let lines = vec!["LinkedIn: s_1".to_string(), "Indeed: s_2".to_string()];
    assert_eq!(
        trigger_summary(true, &lines),
        "Triggered fetching jobs:\nLinkedIn: s_1\nIndeed: s_2"
    );
    assert_eq!(
        trigger_summary(false, &vec!["LinkedIn: s_1".to_string()]),
        "Triggered fetching jobs: LinkedIn: s_1"
    );
}

#[test]
fn download_paths() {
    let a = DownloadArgs { snapshot_id: "s".to_string(), output: None };
    assert_eq!(download_path(&a), "snapshot.json");
    let b = DownloadArgs { snapshot_id: "s".to_string(), output: s("my.json") };
    assert_eq!(download_path(&b), "my.json");
}

#[test]
fn handler_holds_its_services() {
    let h = CLIHandler::new(1u8, 2u16, 3u32, 4u64);
    assert_eq!(*h.linkedin_job_fetcher(), 1);
    assert_eq!(*h.linkedin_snapshot_manager(), 2);
    assert_eq!(*h.indeed_job_fetcher(), 3);
    assert_eq!(*h.indeed_snapshot_manager(), 4);
}
