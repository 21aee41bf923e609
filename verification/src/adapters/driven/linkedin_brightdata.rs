//! The LinkedIn side of the provider: the discovery request, and the jobs
//! read from the posting records of a downloaded snapshot.
use vstd::prelude::*;
use vstd::string::*;
use crate::actors::driven::brightdata::jobs::{default_dataset_id, params_text, JobFetcherParams, JobPosting};
use crate::adapters::driven::snapshot_flow::trigger_body;
use crate::app::ports::types::{jobs_view, Job, JobView, LinkedinDiscoverInput};
use crate::json::{json_model, json_models, JsonModel};
use crate::text::{trim, trim_str};

verus! {

/// The number of postings asked for per input where none is given.
pub const LIMIT_PER_INPUT: u32 = 100;

/// The limit asked for: the one given, else the default.
pub open spec fn limit_or_default(limit: Option<u32>) -> u32 {
    match limit {
        Some(n) => n,
        None => LIMIT_PER_INPUT,
    }
}

/// The query of a LinkedIn discovery request, with the given limit or the
/// default one.
pub fn trigger_params(limit_per_input: Option<u32>) -> (r: String)
    ensures
        r@ == "?"@ + params_text(default_dataset_id(), limit_or_default(limit_per_input)),
{
    let limit = match limit_per_input {
        Some(n) => n,
        None => LIMIT_PER_INPUT,
    };
    let mut params = JobFetcherParams::new(String::new(), String::new());
    params.set_limit_per_input(limit);
    let mut out = String::from_str("?");
    out.append(params.get_params().as_str());
    out
}

/// The body of a LinkedIn discovery request: an `input` list with each
/// input's request object, in order.
pub fn trigger_payload(inputs: Vec<LinkedinDiscoverInput>) -> (r: serde_json::Value)
    ensures
        json_model(r) == JsonModel::Object(
            map![
                "input"@ => JsonModel::Array(
                    inputs@.map_values(|i: LinkedinDiscoverInput| i.payload_model()),
                ),
            ],
        ),
{
    let ghost given = inputs@;
    let mut items: Vec<serde_json::Value> = Vec::new();
    let mut rest = inputs;
    let mut i: usize = 0;
    let n = rest.len();
    // Inputs are moved out from the back, then turned into request objects
    // in their own order.
    let mut reversed: Vec<LinkedinDiscoverInput> = Vec::new();
    while rest.len() > 0
        invariant
            rest.len() + reversed.len() == n,
            n == given.len(),
            rest@ == given.take(rest.len() as int),
            forall|k: int|
                0 <= k < reversed.len() ==> #[trigger] reversed@[k] == given[n - 1 - k],
        decreases rest.len(),
    {
        let x = rest.pop().unwrap();
        reversed.push(x);
        assert(rest@ =~= given.take(rest.len() as int));
    }
    while reversed.len() > 0
        invariant
            i + reversed.len() == n,
            n == given.len(),
            forall|k: int|
                0 <= k < reversed.len() ==> #[trigger] reversed@[k] == given[n - 1 - k],
            json_models(items@) =~= given.take(i as int).map_values(
                |x: LinkedinDiscoverInput| x.payload_model(),
            ),
        decreases reversed.len(),
    {
        let x = reversed.pop().unwrap();
        assert(x == given[i as int]);
        let v = x.into_brightdata_payload();
        let ghost before = items@;
        items.push(v);
        assert(json_models(items@) =~= json_models(before).push(json_model(v)));
        i = i + 1;
        assert(given.take(i as int) =~= given.take(i - 1).push(given[i - 1]));
    }
    assert(given.take(n as int) =~= given);
    trigger_body(items)
}

/// The text of an optional member, empty where it is missing.
pub open spec fn text_or_empty(o: Option<String>) -> Seq<char> {
    match o {
        Some(s) => s@,
        None => Seq::empty(),
    }
}

/// The job a posting record describes: its description is the formatted
/// one, else the summary; a record with neither URL nor title gives none.
pub open spec fn posting_job(p: JobPosting) -> Option<JobView> {
    let job = JobView {
        url: text_or_empty(p.url),
        job_title: text_or_empty(p.job_title),
        company_name: text_or_empty(p.company_name),
        job_location: text_or_empty(p.job_location),
        job_description: match p.job_description_formatted {
            Some(d) => d@,
            None => text_or_empty(p.job_summary),
        },
        job_posted_date: text_or_empty(p.job_posted_date),
    };
    if job.url.len() == 0 && job.job_title.len() == 0 {
        None
    } else {
        Some(job)
    }
}

/// The jobs that a list of posting records describes, in order.
pub open spec fn postings_jobs(postings: Seq<JobPosting>) -> Seq<JobView>
    decreases postings.len(),
{
    if postings.len() == 0 {
        Seq::empty()
    } else {
        let before = postings_jobs(postings.drop_last());
        match posting_job(postings.last()) {
            Some(j) => before.push(j),
            None => before,
        }
    }
}

/// A posting gives a job exactly where it has a non-empty URL or title, and
/// the job carries each of the posting's own texts, the empty text where the
/// posting has none; the description is the formatted one where there is
/// one, else the summary.
pub proof fn posting_job_keeps_posting_texts(p: JobPosting)
    ensures
        posting_job(p) is Some <==> (p.url matches Some(u) && u@.len() > 0) || (
        p.job_title matches Some(t) && t@.len() > 0),
        posting_job(p) matches Some(j) ==> {
            &&& (match p.url {
                Some(u) => j.url == u@,
                None => j.url.len() == 0,
            })
            &&& (match p.job_title {
                Some(t) => j.job_title == t@,
                None => j.job_title.len() == 0,
            })
            &&& (match p.company_name {
                Some(c) => j.company_name == c@,
                None => j.company_name.len() == 0,
            })
            &&& (match p.job_location {
                Some(l) => j.job_location == l@,
                None => j.job_location.len() == 0,
            })
            &&& (match (p.job_description_formatted, p.job_summary) {
                (Some(d), _) => j.job_description == d@,
                (None, Some(d)) => j.job_description == d@,
                (None, None) => j.job_description.len() == 0,
            })
            &&& (match p.job_posted_date {
                Some(d) => j.job_posted_date == d@,
                None => j.job_posted_date.len() == 0,
            })
        },
{
}

/// Postings that all have a URL give one job each, in their order, each with
/// its posting's URL and title.
pub proof fn postings_with_urls_give_one_job_each(postings: Seq<JobPosting>)
    requires
        forall|i: int|
            0 <= i < postings.len() ==> ((#[trigger] postings[i]).url matches Some(u) && u@.len()
                > 0),
    ensures
        postings_jobs(postings).len() == postings.len(),
        forall|i: int|
            0 <= i < postings.len() ==> {
                &&& #[trigger] postings_jobs(postings)[i].url == postings[i].url->0@
                &&& postings_jobs(postings)[i].job_title == text_or_empty(postings[i].job_title)
            },
    decreases postings.len(),
{
    if postings.len() > 0 {
        let front = postings.drop_last();
        assert forall|i: int| 0 <= i < front.len() implies ((#[trigger] front[i]).url matches Some(u)
            && u@.len() > 0) by {
            assert(front[i] == postings[i]);
        }
        postings_with_urls_give_one_job_each(front);
        assert(postings[postings.len() - 1] == postings.last());
        let all = postings_jobs(postings);
        assert forall|i: int| 0 <= i < postings.len() implies {
            &&& #[trigger] all[i].url == postings[i].url->0@
            &&& all[i].job_title == text_or_empty(postings[i].job_title)
        } by {
            if i < front.len() {
                assert(front[i] == postings[i]);
            }
        }
    }
}

fn text_of(o: &Option<String>) -> (r: String)
    ensures
        r@ == text_or_empty(*o),
{
    match o {
        Some(s) => s.clone(),
        None => String::new(),
    }
}

fn job_from_posting(p: &JobPosting) -> (r: Option<Job>)
    ensures
        match posting_job(*p) {
            Some(j) => r is Some && r->0@ == j,
            None => r is None,
        },
{
    let job_description = match &p.job_description_formatted {
        Some(d) => d.clone(),
        None => text_of(&p.job_summary),
    };
    let job = Job {
        url: text_of(&p.url),
        job_title: text_of(&p.job_title),
        company_name: text_of(&p.company_name),
        job_location: text_of(&p.job_location),
        job_description,
        job_posted_date: text_of(&p.job_posted_date),
    };
    if job.url.as_str().is_empty() && job.job_title.as_str().is_empty() {
        None
    } else {
        Some(job)
    }
}

/// The jobs that a list of posting records describes, in order; records
/// with neither URL nor title are left out.
pub fn jobs_from_postings(postings: &Vec<JobPosting>) -> (r: Vec<Job>)
    ensures
        jobs_view(r@) == postings_jobs(postings@),
{
    let mut jobs: Vec<Job> = Vec::new();
    for i in 0..postings.len()
        invariant
            jobs_view(jobs@) == postings_jobs(postings@.take(i as int)),
    {
        assert(postings@.take(i + 1).drop_last() =~= postings@.take(i as int));
        assert(postings@.take(i + 1).last() == postings@[i as int]);
        let ghost before = jobs@;
        if let Some(job) = job_from_posting(&postings[i]) {
            jobs.push(job);
            assert(jobs_view(jobs@) =~= jobs_view(before).push(job@));
        }
    }
    assert(postings@.take(postings.len() as int) =~= postings@);
    jobs
}

/// The trimmed text of a snapshot body; `None` where it is blank, which
/// holds no posting.
pub fn trimmed_snapshot_body(body: &str) -> (r: Option<String>)
    ensures
        match r {
            Some(t) => trim(body@).len() > 0 && t@ == trim(body@),
            None => trim(body@).len() == 0,
        },
{
    let t = trim_str(body);
    if t.is_empty() {
        None
    } else {
        Some(t.to_owned())
    }
}


/// Every job read from LinkedIn posting records has a URL or a title.
pub proof fn linkedin_jobs_have_url_or_title(postings: Seq<JobPosting>)
    ensures
        forall|k: int|
            #![trigger postings_jobs(postings)[k]]
            0 <= k < postings_jobs(postings).len() ==> postings_jobs(postings)[k].url.len() > 0
                || postings_jobs(postings)[k].job_title.len() > 0,
    decreases postings.len(),
{
    if postings.len() > 0 {
        let before = postings_jobs(postings.drop_last());
        let all = postings_jobs(postings);
        linkedin_jobs_have_url_or_title(postings.drop_last());
        assert forall|k: int| 0 <= k < all.len() implies all[k].url.len() > 0
            || all[k].job_title.len() > 0 by {
            if k < before.len() {
                assert(all[k] == before[k]);
            }
        }
    }
}

} // verus!
