//! The LinkedIn dataset's posting records and the parameters of a keyword
//! discovery request.
use vstd::prelude::*;
use vstd::string::*;
use crate::json::{
    json_array, json_insert, json_model, json_models, json_object, json_string, JsonModel,
};
use crate::text::{decimal, push_decimal};

verus! {

/// The default number of postings asked for per input.
pub const LIMIT_PER_INPUT: u32 = 10;

/// A posting record of the LinkedIn dataset, with the members the tool
/// reads; a missing or `null` member is `None`.
pub struct JobPosting {
    pub url: Option<String>,
    pub job_posting_id: Option<String>,
    pub job_title: Option<String>,
    pub company_name: Option<String>,
    pub job_location: Option<String>,
    pub job_summary: Option<String>,
    pub job_description_formatted: Option<String>,
    pub job_seniority_level: Option<String>,
    pub job_employment_type: Option<String>,
    pub job_function: Option<String>,
    pub job_industries: Option<String>,
    pub job_posted_date: Option<String>,
    pub application_availability: Option<bool>,
}

/// The parameters of a keyword discovery on a dataset.
pub struct JobFetcherParams {
    pub location: String,
    pub keyword: String,
    pub limit_per_input: u32,
    pub dataset_id: String,
}

/// The identifier of the LinkedIn jobs dataset.
pub open spec fn default_dataset_id() -> Seq<char> {
    "gd_lpfll7v5hcqtkxl6l"@
}

/// The query text of a discovery request on `dataset_id`.
pub open spec fn params_text(dataset_id: Seq<char>, limit: u32) -> Seq<char> {
    "dataset_id="@ + dataset_id
        + "&notify=false&include_errors=true&type=discover_new&discover_by=keyword&limit_per_input="@
        + decimal(limit as nat)
}

impl JobFetcherParams {
    /// Parameters for a search on the LinkedIn dataset with the default limit.
    pub fn new(location: String, keyword: String) -> (r: JobFetcherParams)
        ensures
            r.location == location,
            r.keyword == keyword,
            r.limit_per_input == LIMIT_PER_INPUT,
            r.dataset_id@ == default_dataset_id(),
    {
        JobFetcherParams {
            location,
            keyword,
            limit_per_input: LIMIT_PER_INPUT,
            dataset_id: String::from_str("gd_lpfll7v5hcqtkxl6l"),
        }
    }

    /// Sets the number of postings asked for per input.
    pub fn set_limit_per_input(&mut self, limit: u32)
        ensures
            final(self).limit_per_input == limit,
            final(self).location == old(self).location,
            final(self).keyword == old(self).keyword,
            final(self).dataset_id == old(self).dataset_id,
    {
        self.limit_per_input = limit;
    }

    /// Sets the dataset searched.
    pub fn set_dataset_id(&mut self, dataset_id: String)
        ensures
            final(self).dataset_id == dataset_id,
            final(self).location == old(self).location,
            final(self).keyword == old(self).keyword,
            final(self).limit_per_input == old(self).limit_per_input,
    {
        self.dataset_id = dataset_id;
    }

    /// The query text of the discovery request.
    pub fn get_params(&self) -> (r: String)
        ensures
            r@ == params_text(self.dataset_id@, self.limit_per_input),
    {
        let mut out = String::from_str("dataset_id=");
        out.append(self.dataset_id.as_str());
        out.append(
            "&notify=false&include_errors=true&type=discover_new&discover_by=keyword&limit_per_input=",
        );
        push_decimal(&mut out, self.limit_per_input as u64);
        out
    }

    /// The one input of the request: location and keyword, the other
    /// criteria empty.
    pub open spec fn input_model(&self) -> JsonModel {
        JsonModel::Object(
            map![
                "location"@ => JsonModel::Str(self.location@),
                "keyword"@ => JsonModel::Str(self.keyword@),
                "country"@ => JsonModel::Str(Seq::empty()),
                "time_range"@ => JsonModel::Str(Seq::empty()),
                "job_type"@ => JsonModel::Str(Seq::empty()),
                "experience_level"@ => JsonModel::Str(Seq::empty()),
                "remote"@ => JsonModel::Str(Seq::empty()),
                "company"@ => JsonModel::Str(Seq::empty()),
                "location_radius"@ => JsonModel::Str(Seq::empty()),
            ],
        )
    }

    /// The body of the discovery request: an `input` list with one input.
    pub fn get_payload(&self) -> (r: serde_json::Value)
        ensures
            json_model(r) == JsonModel::Object(
                map!["input"@ => JsonModel::Array(seq![self.input_model()])],
            ),
    {
        let mut input = json_object();
        json_insert(&mut input, String::from_str("location"), json_string(self.location.clone()));
        json_insert(&mut input, String::from_str("keyword"), json_string(self.keyword.clone()));
        json_insert(&mut input, String::from_str("country"), json_string(String::new()));
        json_insert(&mut input, String::from_str("time_range"), json_string(String::new()));
        json_insert(&mut input, String::from_str("job_type"), json_string(String::new()));
        json_insert(&mut input, String::from_str("experience_level"), json_string(String::new()));
        json_insert(&mut input, String::from_str("remote"), json_string(String::new()));
        json_insert(&mut input, String::from_str("company"), json_string(String::new()));
        json_insert(&mut input, String::from_str("location_radius"), json_string(String::new()));
        assert(json_model(input) =~~= self.input_model());
        let mut items: Vec<serde_json::Value> = Vec::new();
        items.push(input);
        assert(json_models(items@) =~= seq![self.input_model()]);
        let list = json_array(items);
        let mut body = json_object();
        json_insert(&mut body, String::from_str("input"), list);
        assert(json_model(body) =~~= JsonModel::Object(
            map!["input"@ => JsonModel::Array(seq![self.input_model()])],
        ));
        body
    }
}

} // verus!
