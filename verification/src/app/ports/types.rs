//! The data the tool works with: jobs, snapshots, the discovery inputs and
//! the choices they take.
use vstd::prelude::*;
use vstd::string::*;
use crate::json::{
    json_get, json_insert, json_is_null, json_is_number, json_as_str, json_as_u64, json_model,
    json_object_keys, single_key,
    json_null, json_object, json_remove, json_string, json_u32, JsonModel,
};
use crate::text::{
    decimal, decimal_parse_round_trip, is_blank, parse_u64, parse_u64_str, push_decimal, str_eq, trim,
    trim_str,
};

verus! {

/// A job as the tool saves it.
#[derive(Clone)]
pub struct Job {
    pub url: String,
    pub job_title: String,
    pub company_name: String,
    pub job_location: String,
    pub job_description: String,
    pub job_posted_date: String,
}

/// The texts of a job's fields.
pub struct JobView {
    pub url: Seq<char>,
    pub job_title: Seq<char>,
    pub company_name: Seq<char>,
    pub job_location: Seq<char>,
    pub job_description: Seq<char>,
    pub job_posted_date: Seq<char>,
}

impl View for Job {
    type V = JobView;

    open spec fn view(&self) -> JobView {
        JobView {
            url: self.url@,
            job_title: self.job_title@,
            company_name: self.company_name@,
            job_location: self.job_location@,
            job_description: self.job_description@,
            job_posted_date: self.job_posted_date@,
        }
    }
}

/// The views of a list of jobs.
pub open spec fn jobs_view(jobs: Seq<Job>) -> Seq<JobView> {
    jobs.map_values(|j: Job| j@)
}

impl Job {
    /// The text that describes a job, one labelled field per line.
    pub open spec fn description(&self) -> Seq<char> {
        "Job Title: "@ + self.job_title@ + "\nCompany: "@ + self.company_name@ + "\nLocation: "@
            + self.job_location@ + "\nPosted Date: "@ + self.job_posted_date@ + "\nURL: "@
            + self.url@ + "\nDescription: "@ + self.job_description@
    }

    /// Describes the job, one labelled field per line.
    pub fn describe(&self) -> (r: String)
        ensures
            r@ == self.description(),
    {
        let mut out = String::from_str("Job Title: ");
        out.append(self.job_title.as_str());
        out.append("\nCompany: ");
        out.append(self.company_name.as_str());
        out.append("\nLocation: ");
        out.append(self.job_location.as_str());
        out.append("\nPosted Date: ");
        out.append(self.job_posted_date.as_str());
        out.append("\nURL: ");
        out.append(self.url.as_str());
        out.append("\nDescription: ");
        out.append(self.job_description.as_str());
        out
    }
}

/// A snapshot of a dataset on the provider's side.
pub struct Snapshot {
    pub id: String,
    pub created: String,
    pub status: String,
    pub dataset_id: String,
    pub dataset_size: u64,
}

impl Snapshot {
    /// The text that describes a snapshot, one labelled field per line.
    pub open spec fn description(&self) -> Seq<char> {
        "Snapshot ID: "@ + self.id@ + "\nCreated: "@ + self.created@ + "\nStatus: "@
            + self.status@ + "\nDataset ID: "@ + self.dataset_id@ + "\nDataset Size: "@
            + decimal(self.dataset_size as nat)
    }

    /// Describes the snapshot, one labelled field per line.
    pub fn describe(&self) -> (r: String)
        ensures
            r@ == self.description(),
    {
        let mut out = String::from_str("Snapshot ID: ");
        out.append(self.id.as_str());
        out.append("\nCreated: ");
        out.append(self.created.as_str());
        out.append("\nStatus: ");
        out.append(self.status.as_str());
        out.append("\nDataset ID: ");
        out.append(self.dataset_id.as_str());
        out.append("\nDataset Size: ");
        push_decimal(&mut out, self.dataset_size);
        out
    }
}


/// A closed set of choices, each written as one fixed name in the provider's
/// requests and in the inputs files.
pub trait NamedChoice: Sized + Copy {
    /// The name of a choice.
    spec fn choice_name(self) -> Seq<char>;

    /// The choice that a text names exactly, if any.
    spec fn named(s: Seq<char>) -> Option<Self>;

    /// The choice that `s` names exactly, if any.
    fn from_name(s: &str) -> (r: Option<Self>)
        ensures
            r == Self::named(s@);

    /// The name of a choice.
    fn name_str(self) -> (r: &'static str)
        ensures
            r@ == self.choice_name();
}

/// The name of an optional choice, empty where none is set.
pub open spec fn choice_text<T: NamedChoice>(c: Option<T>) -> Seq<char> {
    match c {
        Some(v) => v.choice_name(),
        None => Seq::<char>::empty(),
    }
}

/// The name of an optional choice, empty where none is set.
pub fn choice_or_empty<T: NamedChoice>(c: Option<T>) -> (r: String)
    ensures
        r@ == choice_text(c),
{
    match c {
        Some(v) => String::from_str(v.name_str()),
        None => String::new(),
    }
}

/// How recent the LinkedIn postings are.
#[derive(Clone, Copy, PartialEq, Eq, Debug, Structural)]
pub enum TimeRange {
    Past24Hours,
    PastWeek,
    PastMonth,
    AnyTime,
}

impl TimeRange {
    /// The name under which the provider knows the choice.
    pub open spec fn brightdata_name(self) -> Seq<char> {
        match self {
            TimeRange::Past24Hours => "Past 24 hours"@,
            TimeRange::PastWeek => "Past week"@,
            TimeRange::PastMonth => "Past month"@,
            TimeRange::AnyTime => "Any time"@,
        }
    }

    /// The name under which the provider knows the choice.
    pub fn as_brightdata_str(self) -> (r: &'static str)
        ensures
            r@ == self.brightdata_name(),
    {
        match self {
            TimeRange::Past24Hours => "Past 24 hours",
            TimeRange::PastWeek => "Past week",
            TimeRange::PastMonth => "Past month",
            TimeRange::AnyTime => "Any time",
        }
    }
}

impl NamedChoice for TimeRange {
    open spec fn choice_name(self) -> Seq<char> {
        self.brightdata_name()
    }

    open spec fn named(s: Seq<char>) -> Option<TimeRange> {
        if s == "Past 24 hours"@ {
            Some(TimeRange::Past24Hours)
        } else if s == "Past week"@ {
            Some(TimeRange::PastWeek)
        } else if s == "Past month"@ {
            Some(TimeRange::PastMonth)
        } else if s == "Any time"@ {
            Some(TimeRange::AnyTime)
        } else {
            None
        }
    }

    fn from_name(s: &str) -> (r: Option<TimeRange>) {
        if str_eq(s, "Past 24 hours") {
            Some(TimeRange::Past24Hours)
        } else if str_eq(s, "Past week") {
            Some(TimeRange::PastWeek)
        } else if str_eq(s, "Past month") {
            Some(TimeRange::PastMonth)
        } else if str_eq(s, "Any time") {
            Some(TimeRange::AnyTime)
        } else {
            None
        }
    }

    fn name_str(self) -> (r: &'static str) {
        self.as_brightdata_str()
    }
}

/// Each time range is read back from its own name, and from no other.
pub proof fn time_range_names_round_trip(v: TimeRange)
    ensures
        TimeRange::named(v.brightdata_name()) == Some(v),
{
    reveal_strlit("Past 24 hours");
    reveal_strlit("Past week");
    reveal_strlit("Past month");
    reveal_strlit("Any time");
    assert("Past 24 hours"@.len() == 13);
    assert("Past week"@.len() == 9);
    assert("Past month"@.len() == 10);
    assert("Any time"@.len() == 8);
}

/// The kind of contract of a LinkedIn posting.
#[derive(Clone, Copy, PartialEq, Eq, Debug, Structural)]
pub enum JobType {
    FullTime,
    PartTime,
    Contract,
    Temporary,
    Volunteer,
}

impl JobType {
    /// The name under which the provider knows the choice.
    pub open spec fn brightdata_name(self) -> Seq<char> {
        match self {
            JobType::FullTime => "Full-time"@,
            JobType::PartTime => "Part-time"@,
            JobType::Contract => "Contract"@,
            JobType::Temporary => "Temporary"@,
            JobType::Volunteer => "Volunteer"@,
        }
    }

    /// The name under which the provider knows the choice.
    pub fn as_brightdata_str(self) -> (r: &'static str)
        ensures
            r@ == self.brightdata_name(),
    {
        match self {
            JobType::FullTime => "Full-time",
            JobType::PartTime => "Part-time",
            JobType::Contract => "Contract",
            JobType::Temporary => "Temporary",
            JobType::Volunteer => "Volunteer",
        }
    }
}

impl NamedChoice for JobType {
    open spec fn choice_name(self) -> Seq<char> {
        self.brightdata_name()
    }

    open spec fn named(s: Seq<char>) -> Option<JobType> {
        if s == "Full-time"@ {
            Some(JobType::FullTime)
        } else if s == "Part-time"@ {
            Some(JobType::PartTime)
        } else if s == "Contract"@ {
            Some(JobType::Contract)
        } else if s == "Temporary"@ {
            Some(JobType::Temporary)
        } else if s == "Volunteer"@ {
            Some(JobType::Volunteer)
        } else {
            None
        }
    }

    fn from_name(s: &str) -> (r: Option<JobType>) {
        if str_eq(s, "Full-time") {
            Some(JobType::FullTime)
        } else if str_eq(s, "Part-time") {
            Some(JobType::PartTime)
        } else if str_eq(s, "Contract") {
            Some(JobType::Contract)
        } else if str_eq(s, "Temporary") {
            Some(JobType::Temporary)
        } else if str_eq(s, "Volunteer") {
            Some(JobType::Volunteer)
        } else {
            None
        }
    }

    fn name_str(self) -> (r: &'static str) {
        self.as_brightdata_str()
    }
}

/// Each job type is read back from its own name.
pub proof fn job_type_names_round_trip(v: JobType)
    ensures
        JobType::named(v.brightdata_name()) == Some(v),
{
    reveal_strlit("Full-time");
    reveal_strlit("Part-time");
    reveal_strlit("Contract");
    reveal_strlit("Temporary");
    reveal_strlit("Volunteer");
    assert("Full-time"@ =~= seq!['F', 'u', 'l', 'l', '-', 't', 'i', 'm', 'e']);
    assert("Part-time"@ =~= seq!['P', 'a', 'r', 't', '-', 't', 'i', 'm', 'e']);
    assert("Contract"@ =~= seq!['C', 'o', 'n', 't', 'r', 'a', 'c', 't']);
    assert("Temporary"@ =~= seq!['T', 'e', 'm', 'p', 'o', 'r', 'a', 'r', 'y']);
    assert("Volunteer"@ =~= seq!['V', 'o', 'l', 'u', 'n', 't', 'e', 'e', 'r']);
}

/// The seniority a LinkedIn posting asks for.
#[derive(Clone, Copy, PartialEq, Eq, Debug, Structural)]
pub enum ExperienceLevel {
    Internship,
    EntryLevel,
    Associate,
    MidSeniorLevel,
    Director,
    Executive,
}

impl ExperienceLevel {
    /// The name under which the provider knows the choice.
    pub open spec fn brightdata_name(self) -> Seq<char> {
        match self {
            ExperienceLevel::Internship => "Internship"@,
            ExperienceLevel::EntryLevel => "Entry level"@,
            ExperienceLevel::Associate => "Associate"@,
            ExperienceLevel::MidSeniorLevel => "Mid-Senior level"@,
            ExperienceLevel::Director => "Director"@,
            ExperienceLevel::Executive => "Executive"@,
        }
    }

    /// The name under which the provider knows the choice.
    pub fn as_brightdata_str(self) -> (r: &'static str)
        ensures
            r@ == self.brightdata_name(),
    {
        match self {
            ExperienceLevel::Internship => "Internship",
            ExperienceLevel::EntryLevel => "Entry level",
            ExperienceLevel::Associate => "Associate",
            ExperienceLevel::MidSeniorLevel => "Mid-Senior level",
            ExperienceLevel::Director => "Director",
            ExperienceLevel::Executive => "Executive",
        }
    }
}

impl NamedChoice for ExperienceLevel {
    open spec fn choice_name(self) -> Seq<char> {
        self.brightdata_name()
    }

    open spec fn named(s: Seq<char>) -> Option<ExperienceLevel> {
        if s == "Internship"@ {
            Some(ExperienceLevel::Internship)
        } else if s == "Entry level"@ {
            Some(ExperienceLevel::EntryLevel)
        } else if s == "Associate"@ {
            Some(ExperienceLevel::Associate)
        } else if s == "Mid-Senior level"@ {
            Some(ExperienceLevel::MidSeniorLevel)
        } else if s == "Director"@ {
            Some(ExperienceLevel::Director)
        } else if s == "Executive"@ {
            Some(ExperienceLevel::Executive)
        } else {
            None
        }
    }

    fn from_name(s: &str) -> (r: Option<ExperienceLevel>) {
        if str_eq(s, "Internship") {
            Some(ExperienceLevel::Internship)
        } else if str_eq(s, "Entry level") {
            Some(ExperienceLevel::EntryLevel)
        } else if str_eq(s, "Associate") {
            Some(ExperienceLevel::Associate)
        } else if str_eq(s, "Mid-Senior level") {
            Some(ExperienceLevel::MidSeniorLevel)
        } else if str_eq(s, "Director") {
            Some(ExperienceLevel::Director)
        } else if str_eq(s, "Executive") {
            Some(ExperienceLevel::Executive)
        } else {
            None
        }
    }

    fn name_str(self) -> (r: &'static str) {
        self.as_brightdata_str()
    }
}

/// Each experience level is read back from its own name.
pub proof fn experience_level_names_round_trip(v: ExperienceLevel)
    ensures
        ExperienceLevel::named(v.brightdata_name()) == Some(v),
{
    reveal_strlit("Internship");
    reveal_strlit("Entry level");
    reveal_strlit("Associate");
    reveal_strlit("Mid-Senior level");
    reveal_strlit("Director");
    reveal_strlit("Executive");
    assert("Internship"@ =~= seq!['I', 'n', 't', 'e', 'r', 'n', 's', 'h', 'i', 'p']);
    assert("Entry level"@ =~= seq!['E', 'n', 't', 'r', 'y', ' ', 'l', 'e', 'v', 'e', 'l']);
    assert("Associate"@ =~= seq!['A', 's', 's', 'o', 'c', 'i', 'a', 't', 'e']);
    assert("Mid-Senior level"@ =~= seq!['M', 'i', 'd', '-', 'S', 'e', 'n', 'i', 'o', 'r', ' ', 'l', 'e', 'v', 'e', 'l']);
    assert("Director"@ =~= seq!['D', 'i', 'r', 'e', 'c', 't', 'o', 'r']);
    assert("Executive"@ =~= seq!['E', 'x', 'e', 'c', 'u', 't', 'i', 'v', 'e']);
}

/// Where the work of a LinkedIn posting takes place.
#[derive(Clone, Copy, PartialEq, Eq, Debug, Structural)]
pub enum Remote {
    OnSite,
    Remote,
    Hybrid,
}

impl Remote {
    /// The name under which the provider knows the choice.
    pub open spec fn brightdata_name(self) -> Seq<char> {
        match self {
            Remote::OnSite => "On-site"@,
            Remote::Remote => "Remote"@,
            Remote::Hybrid => "Hybrid"@,
        }
    }

    /// The name under which the provider knows the choice.
    pub fn as_brightdata_str(self) -> (r: &'static str)
        ensures
            r@ == self.brightdata_name(),
    {
        match self {
            Remote::OnSite => "On-site",
            Remote::Remote => "Remote",
            Remote::Hybrid => "Hybrid",
        }
    }
}

impl NamedChoice for Remote {
    open spec fn choice_name(self) -> Seq<char> {
        self.brightdata_name()
    }

    open spec fn named(s: Seq<char>) -> Option<Remote> {
        if s == "On-site"@ {
            Some(Remote::OnSite)
        } else if s == "Remote"@ {
            Some(Remote::Remote)
        } else if s == "Hybrid"@ {
            Some(Remote::Hybrid)
        } else {
            None
        }
    }

    fn from_name(s: &str) -> (r: Option<Remote>) {
        if str_eq(s, "On-site") {
            Some(Remote::OnSite)
        } else if str_eq(s, "Remote") {
            Some(Remote::Remote)
        } else if str_eq(s, "Hybrid") {
            Some(Remote::Hybrid)
        } else {
            None
        }
    }

    fn name_str(self) -> (r: &'static str) {
        self.as_brightdata_str()
    }
}

/// Each remote mode is read back from its own name.
pub proof fn remote_names_round_trip(v: Remote)
    ensures
        Remote::named(v.brightdata_name()) == Some(v),
{
    reveal_strlit("On-site");
    reveal_strlit("Remote");
    reveal_strlit("Hybrid");
    assert("On-site"@ =~= seq!['O', 'n', '-', 's', 'i', 't', 'e']);
    assert("Remote"@ =~= seq!['R', 'e', 'm', 'o', 't', 'e']);
    assert("Hybrid"@ =~= seq!['H', 'y', 'b', 'r', 'i', 'd']);
}

/// How recent the Indeed postings are.
#[derive(Clone, Copy, PartialEq, Eq, Debug, Structural)]
pub enum IndeedDatePosted {
    Last24Hours,
    Last3Days,
    Last7Days,
    Last14Days,
}

impl IndeedDatePosted {
    /// The name under which the provider knows the choice.
    pub open spec fn brightdata_name(self) -> Seq<char> {
        match self {
            IndeedDatePosted::Last24Hours => "Last 24 hours"@,
            IndeedDatePosted::Last3Days => "Last 3 days"@,
            IndeedDatePosted::Last7Days => "Last 7 days"@,
            IndeedDatePosted::Last14Days => "Last 14 days"@,
        }
    }

    /// The name under which the provider knows the choice.
    pub fn as_brightdata_str(self) -> (r: &'static str)
        ensures
            r@ == self.brightdata_name(),
    {
        match self {
            IndeedDatePosted::Last24Hours => "Last 24 hours",
            IndeedDatePosted::Last3Days => "Last 3 days",
            IndeedDatePosted::Last7Days => "Last 7 days",
            IndeedDatePosted::Last14Days => "Last 14 days",
        }
    }
}

impl NamedChoice for IndeedDatePosted {
    open spec fn choice_name(self) -> Seq<char> {
        self.brightdata_name()
    }

    open spec fn named(s: Seq<char>) -> Option<IndeedDatePosted> {
        if s == "Last 24 hours"@ {
            Some(IndeedDatePosted::Last24Hours)
        } else if s == "Last 3 days"@ {
            Some(IndeedDatePosted::Last3Days)
        } else if s == "Last 7 days"@ {
            Some(IndeedDatePosted::Last7Days)
        } else if s == "Last 14 days"@ {
            Some(IndeedDatePosted::Last14Days)
        } else {
            None
        }
    }

    fn from_name(s: &str) -> (r: Option<IndeedDatePosted>) {
        if str_eq(s, "Last 24 hours") {
            Some(IndeedDatePosted::Last24Hours)
        } else if str_eq(s, "Last 3 days") {
            Some(IndeedDatePosted::Last3Days)
        } else if str_eq(s, "Last 7 days") {
            Some(IndeedDatePosted::Last7Days)
        } else if str_eq(s, "Last 14 days") {
            Some(IndeedDatePosted::Last14Days)
        } else {
            None
        }
    }

    fn name_str(self) -> (r: &'static str) {
        self.as_brightdata_str()
    }
}

/// Each date-posted choice is read back from its own name.
pub proof fn indeed_date_posted_names_round_trip(v: IndeedDatePosted)
    ensures
        IndeedDatePosted::named(v.brightdata_name()) == Some(v),
{
    reveal_strlit("Last 24 hours");
    reveal_strlit("Last 3 days");
    reveal_strlit("Last 7 days");
    reveal_strlit("Last 14 days");
    assert("Last 24 hours"@ =~= seq!['L', 'a', 's', 't', ' ', '2', '4', ' ', 'h', 'o', 'u', 'r', 's']);
    assert("Last 3 days"@ =~= seq!['L', 'a', 's', 't', ' ', '3', ' ', 'd', 'a', 'y', 's']);
    assert("Last 7 days"@ =~= seq!['L', 'a', 's', 't', ' ', '7', ' ', 'd', 'a', 'y', 's']);
    assert("Last 14 days"@ =~= seq!['L', 'a', 's', 't', ' ', '1', '4', ' ', 'd', 'a', 'y', 's']);
}


/// Why a field of an inputs entry could not be read.
pub enum FieldError {
    /// A text that names none of the field's choices.
    UnknownVariant(String),
    /// A value that is neither `null` nor a text, nor an object naming a
    /// choice; or a choice named as an object's key with a value other than
    /// `null`.
    InvalidType,
    /// An object whose members are not exactly one.
    NotSingleKeyObject,
    /// A `date_posted` number other than 1, 3, 7 or 14.
    InvalidDatePostedNumber,
    /// A `date_posted` value that is neither `null`, a text nor a number.
    InvalidDatePostedValue,
}

/// Reads an optional choice field: `null` and blank texts leave it unset, a
/// text sets the choice it names exactly, as does an object with one member
/// whose key names a choice and whose value is `null`; anything else is an
/// error.
pub fn optional_choice_from_json<T: NamedChoice>(v: &serde_json::Value) -> (r: Result<
    Option<T>,
    FieldError,
>)
    ensures
        match json_model(*v) {
            JsonModel::Null => r matches Ok(None),
            JsonModel::Str(s) => if is_blank(s) {
                r matches Ok(None)
            } else {
                match T::named(s) {
                    Some(c) => r matches Ok(Some(x)) && x == c,
                    None => r matches Err(FieldError::UnknownVariant(t)) && t@ == s,
                }
            },
            JsonModel::Object(m) => match single_key(m) {
                Some(k) => match T::named(k) {
                    Some(c) => if m[k] is Null {
                        r matches Ok(Some(x)) && x == c
                    } else {
                        r matches Err(FieldError::InvalidType)
                    },
                    None => r matches Err(FieldError::UnknownVariant(t)) && t@ == k,
                },
                None => r matches Err(FieldError::NotSingleKeyObject),
            },
            _ => r matches Err(FieldError::InvalidType),
        },
{
    if json_is_null(v) {
        return Ok(None);
    }
    if let Some(keys) = json_object_keys(v) {
        let ghost m = json_model(*v)->Object_0;
        let ghost ks = keys@.map_values(|k: String| k@);
        if keys.len() != 1 {
            proof {
                if exists|k: Seq<char>| m.dom() == Set::<Seq<char>>::empty().insert(k) {
                    let k = choose|k: Seq<char>| m.dom() == Set::<Seq<char>>::empty().insert(k);
                    if keys.len() == 0 {
                        assert(ks.to_set().contains(k));
                        let i = choose|i: int| 0 <= i < ks.len() && ks[i] == k;
                        assert(false);
                    } else {
                        assert(ks.to_set().contains(ks[0]));
                        assert(ks.to_set().contains(ks[1]));
                        assert(ks[0] != ks[1]);
                        assert(false);
                    }
                }
            }
            return Err(FieldError::NotSingleKeyObject);
        }
        let key = &keys[0];
        proof {
            let k = ks[0];
            assert(k == key@);
            assert forall|x: Seq<char>| m.dom().contains(x) <==> Set::<Seq<char>>::empty().insert(
                k,
            ).contains(x) by {
                if m.dom().contains(x) {
                    assert(ks.to_set().contains(x));
                    let i = choose|i: int| 0 <= i < ks.len() && ks[i] == x;
                }
                if x == k {
                    assert(ks.to_set().contains(ks[0]));
                }
            }
            assert(m.dom() =~= Set::<Seq<char>>::empty().insert(k));
            let c = choose|c: Seq<char>| m.dom() == Set::<Seq<char>>::empty().insert(c);
            assert(m.dom().contains(c));
            assert(single_key(m) == Some(k));
        }
        return match T::from_name(key.as_str()) {
            Some(c) => match json_get(v, key.as_str()) {
                Some(member) => if json_is_null(member) {
                    Ok(Some(c))
                } else {
                    Err(FieldError::InvalidType)
                },
                None => Err(FieldError::InvalidType),
            },
            None => Err(FieldError::UnknownVariant(key.clone())),
        };
    }
    match json_as_str(v) {
        Some(s) => {
            if trim_str(s).is_empty() {
                Ok(None)
            } else {
                match T::from_name(s) {
                    Some(c) => Ok(Some(c)),
                    None => Err(FieldError::UnknownVariant(s.to_owned())),
                }
            }
        },
        None => Err(FieldError::InvalidType),
    }
}

/// The date-posted choice that an older inputs file wrote as a number of days.
pub open spec fn legacy_date_posted(n: u64) -> Option<IndeedDatePosted> {
    if n == 1 {
        Some(IndeedDatePosted::Last24Hours)
    } else if n == 3 {
        Some(IndeedDatePosted::Last3Days)
    } else if n == 7 {
        Some(IndeedDatePosted::Last7Days)
    } else if n == 14 {
        Some(IndeedDatePosted::Last14Days)
    } else {
        None
    }
}

/// The date-posted choice for a number of days, where it is one.
pub fn date_posted_from_days(n: u64) -> (r: Option<IndeedDatePosted>)
    ensures
        r == legacy_date_posted(n),
{
    if n == 1 {
        Some(IndeedDatePosted::Last24Hours)
    } else if n == 3 {
        Some(IndeedDatePosted::Last3Days)
    } else if n == 7 {
        Some(IndeedDatePosted::Last7Days)
    } else if n == 14 {
        Some(IndeedDatePosted::Last14Days)
    } else {
        None
    }
}

/// The legacy reading of a `date_posted` text: its trimmed form parsed as a
/// number of days.
pub open spec fn legacy_date_posted_text(s: Seq<char>) -> Option<IndeedDatePosted> {
    match parse_u64(trim(s)) {
        Some(n) => legacy_date_posted(n),
        None => None,
    }
}

/// Reads the Indeed `date_posted` field: `null` and blank texts leave it
/// unset; a text that is a number of days 1, 3, 7 or 14 (around white space)
/// sets the matching choice, any other text must name a choice exactly; a
/// number must be 1, 3, 7 or 14; anything else is an error.
pub fn date_posted_from_json(v: &serde_json::Value) -> (r: Result<
    Option<IndeedDatePosted>,
    FieldError,
>)
    ensures
        match json_model(*v) {
            JsonModel::Null => r matches Ok(None),
            JsonModel::Str(s) => if is_blank(s) {
                r matches Ok(None)
            } else {
                match legacy_date_posted_text(s) {
                    Some(c) => r == Ok::<Option<IndeedDatePosted>, FieldError>(Some(c)),
                    None => match IndeedDatePosted::named(s) {
                        Some(c) => r == Ok::<Option<IndeedDatePosted>, FieldError>(Some(c)),
                        None => r matches Err(FieldError::UnknownVariant(t)) && t@ == s,
                    },
                }
            },
            JsonModel::Number(n) => match n {
                Some(k) if legacy_date_posted(k) is Some => r == Ok::<
                    Option<IndeedDatePosted>,
                    FieldError,
                >(legacy_date_posted(k)),
                _ => r matches Err(FieldError::InvalidDatePostedNumber),
            },
            _ => r matches Err(FieldError::InvalidDatePostedValue),
        },
{
    if json_is_null(v) {
        return Ok(None);
    }
    if let Some(s) = json_as_str(v) {
        let t = trim_str(s);
        if t.is_empty() {
            return Ok(None);
        }
        if let Some(n) = parse_u64_str(t) {
            if let Some(c) = date_posted_from_days(n) {
                return Ok(Some(c));
            }
        }
        return match IndeedDatePosted::from_name(s) {
            Some(c) => Ok(Some(c)),
            None => Err(FieldError::UnknownVariant(s.to_owned())),
        };
    }
    if json_is_number(v) {
        return match json_as_u64(v) {
            Some(n) => match date_posted_from_days(n) {
                Some(c) => Ok(Some(c)),
                None => Err(FieldError::InvalidDatePostedNumber),
            },
            None => Err(FieldError::InvalidDatePostedNumber),
        };
    }
    Err(FieldError::InvalidDatePostedValue)
}


/// One LinkedIn discovery input: the criteria of one search.
pub struct LinkedinDiscoverInput {
    pub location: String,
    pub keyword: String,
    pub country: String,
    pub time_range: Option<TimeRange>,
    pub job_type: Option<JobType>,
    pub experience_level: Option<ExperienceLevel>,
    pub remote: Option<Remote>,
    pub selective_search: String,
    pub company: String,
    pub location_radius: String,
}

impl Default for LinkedinDiscoverInput {
    fn default() -> (r: LinkedinDiscoverInput)
        ensures
            r.location@.len() == 0,
            r.keyword@.len() == 0,
            r.country@.len() == 0,
            r.time_range is None,
            r.job_type is None,
            r.experience_level is None,
            r.remote is None,
            r.selective_search@.len() == 0,
            r.company@.len() == 0,
            r.location_radius@.len() == 0,
    {
        LinkedinDiscoverInput {
            location: String::new(),
            keyword: String::new(),
            country: String::new(),
            time_range: None,
            job_type: None,
            experience_level: None,
            remote: None,
            selective_search: String::new(),
            company: String::new(),
            location_radius: String::new(),
        }
    }
}

impl LinkedinDiscoverInput {
    /// The request object for this input: every criterion under its own key,
    /// the choices by name and an unset choice as the empty text.
    pub open spec fn payload_model(&self) -> JsonModel {
        JsonModel::Object(
            map![
                "location"@ => JsonModel::Str(self.location@),
                "keyword"@ => JsonModel::Str(self.keyword@),
                "country"@ => JsonModel::Str(self.country@),
                "time_range"@ => JsonModel::Str(choice_text(self.time_range)),
                "job_type"@ => JsonModel::Str(choice_text(self.job_type)),
                "experience_level"@ => JsonModel::Str(choice_text(self.experience_level)),
                "remote"@ => JsonModel::Str(choice_text(self.remote)),
                "selective_search"@ => JsonModel::Str(self.selective_search@),
                "company"@ => JsonModel::Str(self.company@),
                "location_radius"@ => JsonModel::Str(self.location_radius@),
            ],
        )
    }

    /// The request object the provider takes for this input.
    pub fn into_brightdata_payload(self) -> (r: serde_json::Value)
        ensures
            json_model(r) == self.payload_model(),
    {
        let ghost input = self;
        let mut obj = json_object();
        json_insert(&mut obj, String::from_str("location"), json_string(self.location));
        json_insert(&mut obj, String::from_str("keyword"), json_string(self.keyword));
        json_insert(&mut obj, String::from_str("country"), json_string(self.country));
        json_insert(
            &mut obj,
            String::from_str("time_range"),
            json_string(choice_or_empty(self.time_range)),
        );
        json_insert(
            &mut obj,
            String::from_str("job_type"),
            json_string(choice_or_empty(self.job_type)),
        );
        json_insert(
            &mut obj,
            String::from_str("experience_level"),
            json_string(choice_or_empty(self.experience_level)),
        );
        json_insert(&mut obj, String::from_str("remote"), json_string(choice_or_empty(self.remote)));
        json_insert(
            &mut obj,
            String::from_str("selective_search"),
            json_string(self.selective_search),
        );
        json_insert(&mut obj, String::from_str("company"), json_string(self.company));
        json_insert(
            &mut obj,
            String::from_str("location_radius"),
            json_string(self.location_radius),
        );
        assert(json_model(obj) =~~= input.payload_model());
        obj
    }
}

/// One Indeed discovery input: the criteria of one search.
pub struct IndeedDiscoverInput {
    pub country: String,
    pub domain: String,
    pub keyword: String,
    pub location: String,
    pub date_posted: Option<IndeedDatePosted>,
    pub posted_by: String,
    pub location_radius: String,
    pub pay: Option<u32>,
}

impl Default for IndeedDiscoverInput {
    fn default() -> (r: IndeedDiscoverInput)
        ensures
            r.country@.len() == 0,
            r.domain@.len() == 0,
            r.keyword@.len() == 0,
            r.location@.len() == 0,
            r.date_posted is None,
            r.posted_by@.len() == 0,
            r.location_radius@.len() == 0,
            r.pay is None,
    {
        IndeedDiscoverInput {
            country: String::new(),
            domain: String::new(),
            keyword: String::new(),
            location: String::new(),
            date_posted: None,
            posted_by: String::new(),
            location_radius: String::new(),
            pay: None,
        }
    }
}

impl IndeedDiscoverInput {
    /// The members that every Indeed request object has; the keyword goes
    /// under `keyword_search`.
    pub open spec fn base_payload(&self) -> Map<Seq<char>, JsonModel> {
        map![
            "country"@ => JsonModel::Str(self.country@),
            "domain"@ => JsonModel::Str(self.domain@),
            "keyword_search"@ => JsonModel::Str(self.keyword@),
            "location"@ => JsonModel::Str(self.location@),
            "date_posted"@ => JsonModel::Str(choice_text(self.date_posted)),
            "posted_by"@ => JsonModel::Str(self.posted_by@),
            "location_radius"@ => JsonModel::Str(self.location_radius@),
        ]
    }

    /// The request object for this input: the base members, and `pay` only
    /// where a pay is set.
    pub open spec fn payload_model(&self) -> JsonModel {
        match self.pay {
            Some(p) => JsonModel::Object(
                self.base_payload().insert("pay"@, JsonModel::Number(Some(p as u64))),
            ),
            None => JsonModel::Object(self.base_payload()),
        }
    }

    /// The request object the provider takes for this input.
    pub fn into_brightdata_payload(self) -> (r: serde_json::Value)
        ensures
            json_model(r) == self.payload_model(),
    {
        let ghost input = self;
        let mut payload = json_object();
        json_insert(&mut payload, String::from_str("country"), json_string(self.country));
        json_insert(&mut payload, String::from_str("domain"), json_string(self.domain));
        json_insert(&mut payload, String::from_str("keyword_search"), json_string(self.keyword));
        json_insert(&mut payload, String::from_str("location"), json_string(self.location));
        json_insert(
            &mut payload,
            String::from_str("date_posted"),
            json_string(choice_or_empty(self.date_posted)),
        );
        json_insert(&mut payload, String::from_str("posted_by"), json_string(self.posted_by));
        json_insert(
            &mut payload,
            String::from_str("location_radius"),
            json_string(self.location_radius),
        );
        assert(json_model(payload) =~~= JsonModel::Object(input.base_payload()));
        let pay = match self.pay {
            Some(p) => json_u32(p),
            None => json_null(),
        };
        json_insert(&mut payload, String::from_str("pay"), pay);
        let pay_is_null = match json_get(&payload, "pay") {
            Some(v) => json_is_null(v),
            None => false,
        };
        if pay_is_null {
            json_remove(&mut payload, "pay");
            proof {
                reveal_strlit("pay");
                reveal_strlit("country");
                reveal_strlit("domain");
                reveal_strlit("keyword_search");
                reveal_strlit("location");
                reveal_strlit("date_posted");
                reveal_strlit("posted_by");
                reveal_strlit("location_radius");
                assert("pay"@.len() == 3);
                assert("country"@.len() == 7);
                assert("domain"@.len() == 6);
                assert("keyword_search"@.len() == 14);
                assert("location"@.len() == 8);
                assert("date_posted"@.len() == 11);
                assert("posted_by"@.len() == 9);
                assert("location_radius"@.len() == 15);
                assert(!input.base_payload().contains_key("pay"@));
                assert(input.base_payload().insert("pay"@, JsonModel::Null).remove("pay"@)
                    =~= input.base_payload());
            }
        }
        payload
    }
}


/// A `date_posted` text that is a number of days in decimal reads as the
/// choice for that number of days: "1", "3", "7" and "14" set the four
/// choices, and other numbers none.
pub proof fn date_posted_days_text(n: u64)
    ensures
        legacy_date_posted_text(decimal(n as nat)) == legacy_date_posted(n),
{
    decimal_parse_round_trip(n);
}

/// An Indeed request object carries `pay` exactly where a pay is set, and
/// then as that number.
pub proof fn indeed_payload_pay_member(input: IndeedDiscoverInput)
    ensures
        input.payload_model() is Object,
        input.payload_model()->Object_0.contains_key("pay"@) <==> input.pay is Some,
        input.pay is Some ==> input.payload_model()->Object_0["pay"@] == JsonModel::Number(
            Some(input.pay->0 as u64),
        ),
{
    reveal_strlit("pay");
    reveal_strlit("country");
    reveal_strlit("domain");
    reveal_strlit("keyword_search");
    reveal_strlit("location");
    reveal_strlit("date_posted");
    reveal_strlit("posted_by");
    reveal_strlit("location_radius");
    assert("pay"@.len() == 3);
    assert("country"@.len() == 7);
    assert("domain"@.len() == 6);
    assert("keyword_search"@.len() == 14);
    assert("location"@.len() == 8);
    assert("date_posted"@.len() == 11);
    assert("posted_by"@.len() == 9);
    assert("location_radius"@.len() == 15);
    assert(!input.base_payload().contains_key("pay"@));
}

/// Every criterion of a LinkedIn input is in its request object under its own
/// key: each text unchanged, each choice by its provider name and an unset
/// choice as the empty text; the object has no other member.
pub proof fn linkedin_payload_members(input: LinkedinDiscoverInput)
    ensures
        input.payload_model() is Object,
        ({
            let m = input.payload_model()->Object_0;
            &&& m.dom() == set!["location"@, "keyword"@, "country"@, "time_range"@, "job_type"@, "experience_level"@, "remote"@, "selective_search"@, "company"@, "location_radius"@]
            &&& m["location"@] == JsonModel::Str(input.location@)
            &&& m["keyword"@] == JsonModel::Str(input.keyword@)
            &&& m["country"@] == JsonModel::Str(input.country@)
            &&& m["selective_search"@] == JsonModel::Str(input.selective_search@)
            &&& m["company"@] == JsonModel::Str(input.company@)
            &&& m["location_radius"@] == JsonModel::Str(input.location_radius@)
            &&& m["time_range"@] == JsonModel::Str(
                match input.time_range {
                    Some(c) => c.brightdata_name(),
                    None => Seq::<char>::empty(),
                },
            )
            &&& m["job_type"@] == JsonModel::Str(
                match input.job_type {
                    Some(c) => c.brightdata_name(),
                    None => Seq::<char>::empty(),
                },
            )
            &&& m["experience_level"@] == JsonModel::Str(
                match input.experience_level {
                    Some(c) => c.brightdata_name(),
                    None => Seq::<char>::empty(),
                },
            )
            &&& m["remote"@] == JsonModel::Str(
                match input.remote {
                    Some(c) => c.brightdata_name(),
                    None => Seq::<char>::empty(),
                },
            )
        }),
{
    reveal_strlit("location");
    reveal_strlit("keyword");
    reveal_strlit("country");
    reveal_strlit("time_range");
    reveal_strlit("job_type");
    reveal_strlit("experience_level");
    reveal_strlit("remote");
    reveal_strlit("selective_search");
    reveal_strlit("company");
    reveal_strlit("location_radius");
    assert("location"@.len() == 8);
    assert("keyword"@.len() == 7);
    assert("country"@.len() == 7);
    assert("time_range"@.len() == 10);
    assert("job_type"@.len() == 8);
    assert("experience_level"@.len() == 16);
    assert("remote"@.len() == 6);
    assert("selective_search"@.len() == 16);
    assert("company"@.len() == 7);
    assert("location_radius"@.len() == 15);
    assert("company"@[2] != "country"@[2]);
    assert("keyword"@[0] != "country"@[0]);
    assert("keyword"@[0] != "company"@[0]);
    assert("location"@[0] != "job_type"@[0]);
    assert("experience_level"@[0] != "selective_search"@[0]);
    let m = input.payload_model()->Object_0;
    assert(m.dom() =~= set!["location"@, "keyword"@, "country"@, "time_range"@, "job_type"@, "experience_level"@, "remote"@, "selective_search"@, "company"@, "location_radius"@]);
}

/// Every criterion of an Indeed input is in its request object under its
/// key: each text unchanged (the keyword under `keyword_search`), the
/// date-posted choice by its provider name or the empty text, and `pay`
/// only where a pay is set, as that number; the object has no other member.
pub proof fn indeed_payload_members(input: IndeedDiscoverInput)
    ensures
        input.payload_model() is Object,
        ({
            let m = input.payload_model()->Object_0;
            &&& m.dom() == (match input.pay {
                Some(_) => set!["country"@, "domain"@, "keyword_search"@, "location"@, "date_posted"@, "posted_by"@, "location_radius"@, "pay"@],
                None => set!["country"@, "domain"@, "keyword_search"@, "location"@, "date_posted"@, "posted_by"@, "location_radius"@],
            })
            &&& m["country"@] == JsonModel::Str(input.country@)
            &&& m["domain"@] == JsonModel::Str(input.domain@)
            &&& m["keyword_search"@] == JsonModel::Str(input.keyword@)
            &&& m["location"@] == JsonModel::Str(input.location@)
            &&& m["posted_by"@] == JsonModel::Str(input.posted_by@)
            &&& m["location_radius"@] == JsonModel::Str(input.location_radius@)
            &&& m["date_posted"@] == JsonModel::Str(
                match input.date_posted {
                    Some(c) => c.brightdata_name(),
                    None => Seq::<char>::empty(),
                },
            )
            &&& (input.pay matches Some(p) ==> m["pay"@] == JsonModel::Number(Some(p as u64)))
        }),
{
    reveal_strlit("country");
    reveal_strlit("domain");
    reveal_strlit("keyword_search");
    reveal_strlit("location");
    reveal_strlit("date_posted");
    reveal_strlit("posted_by");
    reveal_strlit("location_radius");
    reveal_strlit("pay");
    assert("country"@.len() == 7);
    assert("domain"@.len() == 6);
    assert("keyword_search"@.len() == 14);
    assert("location"@.len() == 8);
    assert("date_posted"@.len() == 11);
    assert("posted_by"@.len() == 9);
    assert("location_radius"@.len() == 15);
    assert("pay"@.len() == 3);
    let m = input.payload_model()->Object_0;
    match input.pay {
        Some(_) => {
            assert(m.dom() =~= set!["country"@, "domain"@, "keyword_search"@, "location"@, "date_posted"@, "posted_by"@, "location_radius"@, "pay"@]);
        },
        None => {
            assert(m.dom() =~= set!["country"@, "domain"@, "keyword_search"@, "location"@, "date_posted"@, "posted_by"@, "location_radius"@]);
        },
    }
}

} // verus!
