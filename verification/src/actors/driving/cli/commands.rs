//! The command line: its commands, their arguments and the choices they take.
use vstd::prelude::*;
use vstd::std_specs::convert::{FromSpec, FromSpecImpl};
use crate::app::ports::types::{ExperienceLevel, IndeedDatePosted, JobType, Remote, TimeRange};

verus! {

/// A time range as given on the command line.
#[derive(Clone, Copy, PartialEq, Eq, Debug, Structural)]
pub enum CliTimeRange {
    Past24Hours,
    PastWeek,
    PastMonth,
    AnyTime,
}

impl From<CliTimeRange> for TimeRange {
    fn from(value: CliTimeRange) -> (r: TimeRange) {
        match value {
            CliTimeRange::Past24Hours => TimeRange::Past24Hours,
            CliTimeRange::PastWeek => TimeRange::PastWeek,
            CliTimeRange::PastMonth => TimeRange::PastMonth,
            CliTimeRange::AnyTime => TimeRange::AnyTime,
        }
    }
}

impl FromSpecImpl<CliTimeRange> for TimeRange {
    open spec fn obeys_from_spec() -> bool {
        true
    }

    open spec fn from_spec(v: CliTimeRange) -> TimeRange {
        match v {
            CliTimeRange::Past24Hours => TimeRange::Past24Hours,
            CliTimeRange::PastWeek => TimeRange::PastWeek,
            CliTimeRange::PastMonth => TimeRange::PastMonth,
            CliTimeRange::AnyTime => TimeRange::AnyTime,
        }
    }
}

/// A job type as given on the command line.
#[derive(Clone, Copy, PartialEq, Eq, Debug, Structural)]
pub enum CliJobType {
    FullTime,
    PartTime,
    Contract,
    Temporary,
    Volunteer,
}

impl From<CliJobType> for JobType {
    fn from(value: CliJobType) -> (r: JobType) {
        match value {
            CliJobType::FullTime => JobType::FullTime,
            CliJobType::PartTime => JobType::PartTime,
            CliJobType::Contract => JobType::Contract,
            CliJobType::Temporary => JobType::Temporary,
            CliJobType::Volunteer => JobType::Volunteer,
        }
    }
}

impl FromSpecImpl<CliJobType> for JobType {
    open spec fn obeys_from_spec() -> bool {
        true
    }

    open spec fn from_spec(v: CliJobType) -> JobType {
        match v {
            CliJobType::FullTime => JobType::FullTime,
            CliJobType::PartTime => JobType::PartTime,
            CliJobType::Contract => JobType::Contract,
            CliJobType::Temporary => JobType::Temporary,
            CliJobType::Volunteer => JobType::Volunteer,
        }
    }
}

/// An experience level as given on the command line.
#[derive(Clone, Copy, PartialEq, Eq, Debug, Structural)]
pub enum CliExperienceLevel {
    Internship,
    EntryLevel,
    Associate,
    MidSeniorLevel,
    Director,
    Executive,
}

impl From<CliExperienceLevel> for ExperienceLevel {
    fn from(value: CliExperienceLevel) -> (r: ExperienceLevel) {
        match value {
            CliExperienceLevel::Internship => ExperienceLevel::Internship,
            CliExperienceLevel::EntryLevel => ExperienceLevel::EntryLevel,
            CliExperienceLevel::Associate => ExperienceLevel::Associate,
            CliExperienceLevel::MidSeniorLevel => ExperienceLevel::MidSeniorLevel,
            CliExperienceLevel::Director => ExperienceLevel::Director,
            CliExperienceLevel::Executive => ExperienceLevel::Executive,
        }
    }
}

impl FromSpecImpl<CliExperienceLevel> for ExperienceLevel {
    open spec fn obeys_from_spec() -> bool {
        true
    }

    open spec fn from_spec(v: CliExperienceLevel) -> ExperienceLevel {
        match v {
            CliExperienceLevel::Internship => ExperienceLevel::Internship,
            CliExperienceLevel::EntryLevel => ExperienceLevel::EntryLevel,
            CliExperienceLevel::Associate => ExperienceLevel::Associate,
            CliExperienceLevel::MidSeniorLevel => ExperienceLevel::MidSeniorLevel,
            CliExperienceLevel::Director => ExperienceLevel::Director,
            CliExperienceLevel::Executive => ExperienceLevel::Executive,
        }
    }
}

/// A remote mode as given on the command line.
#[derive(Clone, Copy, PartialEq, Eq, Debug, Structural)]
pub enum CliRemote {
    OnSite,
    Remote,
    Hybrid,
}

impl From<CliRemote> for Remote {
    fn from(value: CliRemote) -> (r: Remote) {
        match value {
            CliRemote::OnSite => Remote::OnSite,
            CliRemote::Remote => Remote::Remote,
            CliRemote::Hybrid => Remote::Hybrid,
        }
    }
}

impl FromSpecImpl<CliRemote> for Remote {
    open spec fn obeys_from_spec() -> bool {
        true
    }

    open spec fn from_spec(v: CliRemote) -> Remote {
        match v {
            CliRemote::OnSite => Remote::OnSite,
            CliRemote::Remote => Remote::Remote,
            CliRemote::Hybrid => Remote::Hybrid,
        }
    }
}

/// A date-posted choice as given on the command line.
#[derive(Clone, Copy, PartialEq, Eq, Debug, Structural)]
pub enum CliIndeedDatePosted {
    Last24Hours,
    Last3Days,
    Last7Days,
    Last14Days,
}

impl From<CliIndeedDatePosted> for IndeedDatePosted {
    fn from(value: CliIndeedDatePosted) -> (r: IndeedDatePosted) {
        match value {
            CliIndeedDatePosted::Last24Hours => IndeedDatePosted::Last24Hours,
            CliIndeedDatePosted::Last3Days => IndeedDatePosted::Last3Days,
            CliIndeedDatePosted::Last7Days => IndeedDatePosted::Last7Days,
            CliIndeedDatePosted::Last14Days => IndeedDatePosted::Last14Days,
        }
    }
}

impl FromSpecImpl<CliIndeedDatePosted> for IndeedDatePosted {
    open spec fn obeys_from_spec() -> bool {
        true
    }

    open spec fn from_spec(v: CliIndeedDatePosted) -> IndeedDatePosted {
        match v {
            CliIndeedDatePosted::Last24Hours => IndeedDatePosted::Last24Hours,
            CliIndeedDatePosted::Last3Days => IndeedDatePosted::Last3Days,
            CliIndeedDatePosted::Last7Days => IndeedDatePosted::Last7Days,
            CliIndeedDatePosted::Last14Days => IndeedDatePosted::Last14Days,
        }
    }
}

impl CliTimeRange {
    /// The name under which the time range is given on the command line.
    pub open spec fn flag_name(self) -> Seq<char> {
        match self {
            CliTimeRange::Past24Hours => "Past 24 hours"@,
            CliTimeRange::PastWeek => "Past week"@,
            CliTimeRange::PastMonth => "Past month"@,
            CliTimeRange::AnyTime => "Any time"@,
        }
    }
}

/// A time range given on the command line is sent to the provider under the
/// very name it was given by, and two different flags never become the same
/// choice.
pub proof fn cli_time_range_keeps_its_name(v: CliTimeRange, w: CliTimeRange)
    ensures
        <TimeRange as FromSpec<CliTimeRange>>::from_spec(v).brightdata_name() == v.flag_name(),
        <TimeRange as FromSpec<CliTimeRange>>::from_spec(v) == <TimeRange as FromSpec<CliTimeRange>>::from_spec(w) ==> v == w,
{
}

impl CliJobType {
    /// The name under which the job type is given on the command line.
    pub open spec fn flag_name(self) -> Seq<char> {
        match self {
            CliJobType::FullTime => "Full-time"@,
            CliJobType::PartTime => "Part-time"@,
            CliJobType::Contract => "Contract"@,
            CliJobType::Temporary => "Temporary"@,
            CliJobType::Volunteer => "Volunteer"@,
        }
    }
}

/// A job type given on the command line is sent to the provider under the
/// very name it was given by, and two different flags never become the same
/// choice.
pub proof fn cli_job_type_keeps_its_name(v: CliJobType, w: CliJobType)
    ensures
        <JobType as FromSpec<CliJobType>>::from_spec(v).brightdata_name() == v.flag_name(),
        <JobType as FromSpec<CliJobType>>::from_spec(v) == <JobType as FromSpec<CliJobType>>::from_spec(w) ==> v == w,
{
}

impl CliExperienceLevel {
    /// The name under which the experience level is given on the command line.
    pub open spec fn flag_name(self) -> Seq<char> {
        match self {
            CliExperienceLevel::Internship => "Internship"@,
            CliExperienceLevel::EntryLevel => "Entry level"@,
            CliExperienceLevel::Associate => "Associate"@,
            CliExperienceLevel::MidSeniorLevel => "Mid-Senior level"@,
            CliExperienceLevel::Director => "Director"@,
            CliExperienceLevel::Executive => "Executive"@,
        }
    }
}

/// A experience level given on the command line is sent to the provider under the
/// very name it was given by, and two different flags never become the same
/// choice.
pub proof fn cli_experience_level_keeps_its_name(v: CliExperienceLevel, w: CliExperienceLevel)
    ensures
        <ExperienceLevel as FromSpec<CliExperienceLevel>>::from_spec(v).brightdata_name() == v.flag_name(),
        <ExperienceLevel as FromSpec<CliExperienceLevel>>::from_spec(v) == <ExperienceLevel as FromSpec<CliExperienceLevel>>::from_spec(w) ==> v == w,
{
}

impl CliRemote {
    /// The name under which the remote mode is given on the command line.
    pub open spec fn flag_name(self) -> Seq<char> {
        match self {
            CliRemote::OnSite => "On-site"@,
            CliRemote::Remote => "Remote"@,
            CliRemote::Hybrid => "Hybrid"@,
        }
    }
}

/// A remote mode given on the command line is sent to the provider under the
/// very name it was given by, and two different flags never become the same
/// choice.
pub proof fn cli_remote_keeps_its_name(v: CliRemote, w: CliRemote)
    ensures
        <Remote as FromSpec<CliRemote>>::from_spec(v).brightdata_name() == v.flag_name(),
        <Remote as FromSpec<CliRemote>>::from_spec(v) == <Remote as FromSpec<CliRemote>>::from_spec(w) ==> v == w,
{
}

impl CliIndeedDatePosted {
    /// The name under which the date-posted choice is given on the command line.
    pub open spec fn flag_name(self) -> Seq<char> {
        match self {
            CliIndeedDatePosted::Last24Hours => "Last 24 hours"@,
            CliIndeedDatePosted::Last3Days => "Last 3 days"@,
            CliIndeedDatePosted::Last7Days => "Last 7 days"@,
            CliIndeedDatePosted::Last14Days => "Last 14 days"@,
        }
    }
}

/// A date-posted choice given on the command line is sent to the provider under the
/// very name it was given by, and two different flags never become the same
/// choice.
pub proof fn cli_indeed_date_posted_keeps_its_name(v: CliIndeedDatePosted, w: CliIndeedDatePosted)
    ensures
        <IndeedDatePosted as FromSpec<CliIndeedDatePosted>>::from_spec(v).brightdata_name() == v.flag_name(),
        <IndeedDatePosted as FromSpec<CliIndeedDatePosted>>::from_spec(v) == <IndeedDatePosted as FromSpec<CliIndeedDatePosted>>::from_spec(w) ==> v == w,
{
}

/// Which provider a command runs for.
#[derive(Clone, Copy, PartialEq, Eq, Debug, Structural)]
pub enum CliProvider {
    All,
    Linkedin,
    Indeed,
}

/// The command line.
pub struct Cli {
    pub command: Commands,
}

/// The command groups.
pub enum Commands {
    /// Job-related commands.
    Jobs(JobsCommands),
    /// Snapshot-related commands.
    Snapshot(SnapshotCommands),
}

/// The snapshot commands.
pub enum SnapshotCommands {
    /// Starts a collection.
    Trigger(TriggerArgs),
    /// Lists the snapshots.
    List,
    /// Downloads one snapshot.
    Download(DownloadArgs),
}

/// The job commands.
pub enum JobsCommands {
    /// Collects jobs and saves them.
    Get(TriggerArgs),
}

/// The criteria of a collection: either an inputs file, or flat flags for
/// one input.
pub struct TriggerArgs {
    pub location: Option<String>,
    pub keyword: Option<String>,
    pub inputs_file: Option<String>,
    pub provider: Option<CliProvider>,
    pub country: Option<String>,
    pub time_range: Option<CliTimeRange>,
    pub job_type: Option<CliJobType>,
    pub experience_level: Option<CliExperienceLevel>,
    pub remote: Option<CliRemote>,
    pub selective_search: Option<String>,
    pub company: Option<String>,
    pub location_radius: Option<String>,
    pub domain: Option<String>,
    pub date_posted: Option<CliIndeedDatePosted>,
    pub posted_by: Option<String>,
    pub pay: Option<u32>,
    pub limit_per_input: Option<u32>,
}

/// The arguments of a download.
pub struct DownloadArgs {
    pub snapshot_id: String,
    pub output: Option<String>,
}

} // verus!
