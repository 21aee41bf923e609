//! The Indeed side of the provider: the discovery request, and the jobs read
//! from a downloaded snapshot, whose records name their fields in several
//! ways.
use vstd::prelude::*;
use vstd::string::*;
use crate::adapters::driven::snapshot_flow::trigger_body;
use crate::app::ports::types::{jobs_view, IndeedDiscoverInput, Job, JobView};
use crate::json::{
    array_text, json_as_array, json_as_str, json_get, json_is_object, json_model, json_models,
    json_text_model, nesting_depth, parse_json, text_docs, JsonModel,
};
use crate::text::{
    decimal, is_blank, joined_with, kept_lines, lemma_split_joined,
    lemma_trim_of_unspaced, lemma_trim_parts, lemma_trim_start_concat, lemma_trim_start_suffix,
    nonblank_lines, nonblank_trimmed_lines, push_decimal, trim, trim_idempotent,
    trim_start, trim_str,
};

verus! {

/// The identifier of the Indeed jobs dataset.
pub open spec fn indeed_dataset_id() -> Seq<char> {
    "gd_l4dx9j9sscpvs7no2"@
}

/// The number of postings asked for per input where none is given.
pub const LIMIT_PER_INPUT: u32 = 100;

/// The query of an Indeed discovery request.
pub open spec fn indeed_params_text(limit: u32) -> Seq<char> {
    "?dataset_id="@ + indeed_dataset_id()
        + "&notify=false&include_errors=true&type=discover_new&discover_by=keyword&limit_per_input="@
        + decimal(limit as nat)
}

/// The limit asked for: the one given, else the default.
pub open spec fn limit_or_default(limit: Option<u32>) -> u32 {
    match limit {
        Some(n) => n,
        None => LIMIT_PER_INPUT,
    }
}

/// The query of an Indeed discovery request, with the given limit or the
/// default one.
pub fn trigger_params(limit_per_input: Option<u32>) -> (r: String)
    ensures
        r@ == indeed_params_text(limit_or_default(limit_per_input)),
{
    let limit = match limit_per_input {
        Some(n) => n,
        None => LIMIT_PER_INPUT,
    };
    let mut out = String::from_str("?dataset_id=");
    out.append("gd_l4dx9j9sscpvs7no2");
    out.append(
        "&notify=false&include_errors=true&type=discover_new&discover_by=keyword&limit_per_input=",
    );
    push_decimal(&mut out, limit as u64);
    out
}

/// The body of an Indeed discovery request: an `input` list with each
/// input's request object, in order.
pub fn trigger_payload(inputs: Vec<IndeedDiscoverInput>) -> (r: serde_json::Value)
    ensures
        json_model(r) == JsonModel::Object(
            map![
                "input"@ => JsonModel::Array(
                    inputs@.map_values(|i: IndeedDiscoverInput| i.payload_model()),
                ),
            ],
        ),
{
    let ghost given = inputs@;
    let mut items: Vec<serde_json::Value> = Vec::new();
    let mut rest = inputs;
    let mut i: usize = 0;
    let n = rest.len();
    // Inputs are moved out from the back, then turned into request objects
    // in their own order.
    let mut reversed: Vec<IndeedDiscoverInput> = Vec::new();
    while rest.len() > 0
        invariant
            rest.len() + reversed.len() == n,
            n == given.len(),
            rest@ == given.take(rest.len() as int),
            forall|k: int|
                0 <= k < reversed.len() ==> #[trigger] reversed@[k] == given[n - 1 - k],
        decreases rest.len(),
    {
        let x = rest.pop().unwrap();
        reversed.push(x);
        assert(rest@ =~= given.take(rest.len() as int));
    }
    while reversed.len() > 0
        invariant
            i + reversed.len() == n,
            n == given.len(),
            forall|k: int|
                0 <= k < reversed.len() ==> #[trigger] reversed@[k] == given[n - 1 - k],
            json_models(items@) =~= given.take(i as int).map_values(
                |x: IndeedDiscoverInput| x.payload_model(),
            ),
        decreases reversed.len(),
    {
        let x = reversed.pop().unwrap();
        assert(x == given[i as int]);
        let v = x.into_brightdata_payload();
        let ghost before = items@;
        items.push(v);
        assert(json_models(items@) =~= json_models(before).push(json_model(v)));
        i = i + 1;
        assert(given.take(i as int) =~= given.take(i - 1).push(given[i - 1]));
    }
    assert(given.take(n as int) =~= given);
    trigger_body(items)
}

/// A text value that is not blank.
pub open spec fn nonblank_text(v: JsonModel) -> Option<Seq<char>> {
    match v {
        JsonModel::Str(s) => if is_blank(s) {
            None
        } else {
            Some(s)
        },
        _ => None,
    }
}

/// The first item of a list that is a non-blank text.
pub open spec fn first_nonblank_item(items: Seq<JsonModel>) -> Option<Seq<char>>
    decreases items.len(),
{
    if items.len() == 0 {
        None
    } else if nonblank_text(items[0]) is Some {
        nonblank_text(items[0])
    } else {
        first_nonblank_item(items.drop_first())
    }
}

/// The text a record's member gives a field: a non-blank text, the
/// non-blank `name` of an object, or the first non-blank text of a list.
pub open spec fn member_field_text(v: JsonModel) -> Option<Seq<char>> {
    match v {
        JsonModel::Str(_) => nonblank_text(v),
        JsonModel::Object(m) => if m.contains_key("name"@) {
            nonblank_text(m["name"@])
        } else {
            None
        },
        JsonModel::Array(items) => first_nonblank_item(items),
        _ => None,
    }
}

/// The text of a field: that of the first member, among the keys in order,
/// that gives one; empty where none does.
pub open spec fn first_field_text(m: Map<Seq<char>, JsonModel>, keys: Seq<Seq<char>>) -> Seq<char>
    decreases keys.len(),
{
    if keys.len() == 0 {
        Seq::empty()
    } else if m.contains_key(keys[0]) && member_field_text(m[keys[0]]) is Some {
        member_field_text(m[keys[0]])->0
    } else {
        first_field_text(m, keys.drop_first())
    }
}

/// The text of a field of a record; empty where the record is no object.
pub open spec fn extracted_text(record: JsonModel, keys: Seq<Seq<char>>) -> Seq<char> {
    match record {
        JsonModel::Object(m) => first_field_text(m, keys),
        _ => Seq::empty(),
    }
}

/// The keys, in order, under which a record may carry each field.
pub open spec fn url_keys() -> Seq<Seq<char>> {
    seq!["url"@, "job_url"@, "jobUrl"@, "link"@]
}

pub open spec fn title_keys() -> Seq<Seq<char>> {
    seq!["job_title"@, "title"@, "jobTitle"@, "position"@]
}

pub open spec fn company_keys() -> Seq<Seq<char>> {
    seq!["company_name"@, "company"@, "companyName"@, "employer"@]
}

pub open spec fn location_keys() -> Seq<Seq<char>> {
    seq!["job_location"@, "location"@, "jobLocation"@]
}

pub open spec fn description_keys() -> Seq<Seq<char>> {
    seq![
        "description_text"@,
        "description"@,
        "job_description"@,
        "job_description_formatted"@,
        "job_summary"@,
    ]
}

pub open spec fn posted_date_keys() -> Seq<Seq<char>> {
    seq!["job_posted_date"@, "posted_at"@, "date_posted"@, "date"@]
}

/// The job a record describes: none for a record that is no object, that
/// reports an error, or that has neither URL nor title.
pub open spec fn record_job(record: JsonModel) -> Option<JobView> {
    match record {
        JsonModel::Object(m) => if m.contains_key("error"@) || m.contains_key("errors"@) {
            None
        } else {
            let job = JobView {
                url: first_field_text(m, url_keys()),
                job_title: first_field_text(m, title_keys()),
                company_name: first_field_text(m, company_keys()),
                job_location: first_field_text(m, location_keys()),
                job_description: first_field_text(m, description_keys()),
                job_posted_date: first_field_text(m, posted_date_keys()),
            };
            if job.url.len() == 0 && job.job_title.len() == 0 {
                None
            } else {
                Some(job)
            }
        },
        _ => None,
    }
}

/// The text of a field is that of the first key, in order, whose member gives
/// one; the empty text where no key's member does.
pub proof fn first_field_text_is_first_given(m: Map<Seq<char>, JsonModel>, keys: Seq<Seq<char>>)
    ensures
        (forall|i: int|
            0 <= i < keys.len() ==> !(m.contains_key(#[trigger] keys[i]) && member_field_text(
                m[keys[i]],
            ) is Some)) ==> first_field_text(m, keys).len() == 0,
        forall|i: int|
            0 <= i < keys.len() && m.contains_key(#[trigger] keys[i]) && member_field_text(
                m[keys[i]],
            ) is Some && (forall|k: int|
                0 <= k < i ==> !(m.contains_key(#[trigger] keys[k]) && member_field_text(
                    m[keys[k]],
                ) is Some)) ==> first_field_text(m, keys) == member_field_text(m[keys[i]])->0,
    decreases keys.len(),
{
    if keys.len() > 0 {
        let rest = keys.drop_first();
        first_field_text_is_first_given(m, rest);
        assert forall|i: int| 0 <= i < rest.len() implies #[trigger] rest[i] == keys[i + 1] by {}
        if !(m.contains_key(keys[0]) && member_field_text(m[keys[0]]) is Some) {
            assert forall|i: int|
                0 <= i < keys.len() && m.contains_key(#[trigger] keys[i]) && member_field_text(
                    m[keys[i]],
                ) is Some && (forall|k: int|
                    0 <= k < i ==> !(m.contains_key(#[trigger] keys[k]) && member_field_text(
                        m[keys[k]],
                    ) is Some)) implies first_field_text(m, keys) == member_field_text(
                m[keys[i]],
            )->0 by {
                assert(i > 0);
                assert(rest[i - 1] == keys[i]);
                assert forall|k: int| 0 <= k < i - 1 implies !(m.contains_key(
                    #[trigger] rest[k],
                ) && member_field_text(m[rest[k]]) is Some) by {
                    assert(rest[k] == keys[k + 1]);
                }
            }
            assert((forall|i: int|
                0 <= i < keys.len() ==> !(m.contains_key(#[trigger] keys[i]) && member_field_text(
                    m[keys[i]],
                ) is Some)) ==> (forall|i: int|
                0 <= i < rest.len() ==> !(m.contains_key(#[trigger] rest[i]) && member_field_text(
                    m[rest[i]],
                ) is Some))) by {
                assert forall|i: int| 0 <= i < rest.len() implies rest[i] == keys[i + 1] by {}
            }
        } else {
            assert forall|i: int|
                0 <= i < keys.len() && m.contains_key(#[trigger] keys[i]) && member_field_text(
                    m[keys[i]],
                ) is Some && (forall|k: int|
                    0 <= k < i ==> !(m.contains_key(#[trigger] keys[k]) && member_field_text(
                        m[keys[k]],
                    ) is Some)) implies first_field_text(m, keys) == member_field_text(
                m[keys[i]],
            )->0 by {
                if i > 0 {
                    assert(!(m.contains_key(keys[0]) && member_field_text(m[keys[0]]) is Some));
                }
            }
        }
    }
}

/// What a member gives a field: a non-blank text is that text; a blank text,
/// a number, `true`/`false` and `null` give nothing; an object gives its
/// non-blank `name`; a list gives its first non-blank text, blank texts
/// before it being passed over.
pub proof fn member_field_text_of_values(s: Seq<char>, m: Map<Seq<char>, JsonModel>, n: Option<u64>, b: bool)
    ensures
        member_field_text(JsonModel::Str(s)) == (if is_blank(s) {
            None
        } else {
            Some(s)
        }),
        member_field_text(JsonModel::Number(n)) is None,
        member_field_text(JsonModel::Bool(b)) is None,
        member_field_text(JsonModel::Null) is None,
        m.contains_key("name"@) && m["name"@] == JsonModel::Str(s) && !is_blank(s)
            ==> member_field_text(JsonModel::Object(m)) == Some(s),
        !is_blank(s) ==> member_field_text(JsonModel::Array(seq![JsonModel::Str(s)])) == Some(s),
        forall|items: Seq<JsonModel>|
            is_blank(s) ==> #[trigger] member_field_text(
                JsonModel::Array(seq![JsonModel::Str(s)] + items),
            ) == member_field_text(JsonModel::Array(items)),
{
    assert forall|items: Seq<JsonModel>| is_blank(s) implies #[trigger] member_field_text(
        JsonModel::Array(seq![JsonModel::Str(s)] + items),
    ) == member_field_text(JsonModel::Array(items)) by {
        assert((seq![JsonModel::Str(s)] + items).drop_first() =~= items);
    }
    assert(seq![JsonModel::Str(s)].drop_first() =~= Seq::<JsonModel>::empty());
}

/// An Indeed record gives a job exactly where it is an object reporting no
/// error and has a URL or a title; each field of the job is read under its
/// keys in order (URL: url, job_url, jobUrl, link; title: job_title, title,
/// jobTitle, position; company: company_name, company, companyName,
/// employer; location: job_location, location, jobLocation; description:
/// description_text, description, job_description, job_description_formatted,
/// job_summary; posting date: job_posted_date, posted_at, date_posted, date),
/// so a non-blank text under a field's first key is that field.
pub proof fn indeed_record_fields(record: JsonModel)
    ensures
        !(record is Object) ==> record_job(record) is None,
        record matches JsonModel::Object(m) ==> {
            let url = first_field_text(m, seq!["url"@, "job_url"@, "jobUrl"@, "link"@]);
            let title = first_field_text(
                m,
                seq!["job_title"@, "title"@, "jobTitle"@, "position"@],
            );
            let company = first_field_text(
                m,
                seq!["company_name"@, "company"@, "companyName"@, "employer"@],
            );
            let location = first_field_text(
                m,
                seq!["job_location"@, "location"@, "jobLocation"@],
            );
            let description = first_field_text(
                m,
                seq![
                    "description_text"@,
                    "description"@,
                    "job_description"@,
                    "job_description_formatted"@,
                    "job_summary"@,
                ],
            );
            let posted = first_field_text(
                m,
                seq!["job_posted_date"@, "posted_at"@, "date_posted"@, "date"@],
            );
            &&& (record_job(record) is Some <==> !m.contains_key("error"@) && !m.contains_key(
                "errors"@,
            ) && (url.len() > 0 || title.len() > 0))
            &&& (record_job(record) matches Some(j) ==> j == JobView {
                url,
                job_title: title,
                company_name: company,
                job_location: location,
                job_description: description,
                job_posted_date: posted,
            })
            &&& (m.contains_key("url"@) && m["url"@] is Str && !is_blank(m["url"@]->Str_0)
                ==> url == m["url"@]->Str_0)
            &&& (m.contains_key("job_title"@) && m["job_title"@] is Str && !is_blank(m["job_title"@]->Str_0)
                ==> title == m["job_title"@]->Str_0)
            &&& (m.contains_key("company_name"@) && m["company_name"@] is Str && !is_blank(m["company_name"@]->Str_0)
                ==> company == m["company_name"@]->Str_0)
            &&& (m.contains_key("job_location"@) && m["job_location"@] is Str && !is_blank(m["job_location"@]->Str_0)
                ==> location == m["job_location"@]->Str_0)
            &&& (m.contains_key("description_text"@) && m["description_text"@] is Str && !is_blank(m["description_text"@]->Str_0)
                ==> description == m["description_text"@]->Str_0)
            &&& (m.contains_key("job_posted_date"@) && m["job_posted_date"@] is Str && !is_blank(m["job_posted_date"@]->Str_0)
                ==> posted == m["job_posted_date"@]->Str_0)
        },
{
}

/// The jobs that a list of records describes, in order.
pub open spec fn records_jobs(records: Seq<JsonModel>) -> Seq<JobView>
    decreases records.len(),
{
    if records.len() == 0 {
        Seq::empty()
    } else {
        let before = records_jobs(records.drop_last());
        match record_job(records.last()) {
            Some(j) => before.push(j),
            None => before,
        }
    }
}

/// The documents of the lines that are JSON, in order.
pub open spec fn parsed_lines(lines: Seq<Seq<char>>) -> Seq<JsonModel>
    decreases lines.len(),
{
    if lines.len() == 0 {
        Seq::empty()
    } else {
        let before = parsed_lines(lines.drop_last());
        match json_text_model(lines.last()) {
            Some(doc) => before.push(doc),
            None => before,
        }
    }
}

/// The records of a snapshot body: the items of the body where it is one
/// JSON list, else the documents of its non-blank lines (JSON lines; the
/// body's white space at either end only makes blank lines or is trimmed off
/// a line).
pub open spec fn snapshot_records(body: Seq<char>) -> Seq<JsonModel> {
    let t = trim(body);
    if t.len() == 0 {
        Seq::empty()
    } else {
        match json_text_model(t) {
            Some(JsonModel::Array(items)) => items,
            _ => parsed_lines(nonblank_lines(body)),
        }
    }
}

/// Holds of a list or object bracket.
pub open spec fn is_bracket(c: char) -> bool {
    c == '[' || c == ']' || c == '{' || c == '}'
}

/// A line that holds no bracket, such as a blank line.
pub open spec fn bracket_free(line: Seq<char>) -> bool {
    forall|k: int| 0 <= k < line.len() ==> !is_bracket(#[trigger] line[k])
}

/// A JSON object written on one line, as a serializer writes it: it starts
/// with `{`, has no white space at either end, and denotes an object.
pub open spec fn object_line(line: Seq<char>) -> bool {
    &&& line.len() > 0
    &&& line[0] == '{'
    &&& trim(line) == line
    &&& json_text_model(line) matches Some(JsonModel::Object(_))
}

/// A line of a JSON-lines body: no line break, and either an object written
/// on one line or a line without brackets (blank lines among them).
pub open spec fn json_lines_line(line: Seq<char>) -> bool {
    !line.contains('\n') && (object_line(line) || bracket_free(line))
}

/// The object lines among the lines, in order.
pub open spec fn object_lines(lines: Seq<Seq<char>>) -> Seq<Seq<char>>
    decreases lines.len(),
{
    if lines.len() == 0 {
        Seq::empty()
    } else if object_line(lines.last()) {
        object_lines(lines.drop_last()).push(lines.last())
    } else {
        object_lines(lines.drop_last())
    }
}

/// A body made of JSON-lines lines starts, after white space, with no `[`,
/// and is white space only where it holds no object line.
proof fn lemma_json_lines_start(lines: Seq<Seq<char>>)
    requires
        forall|i: int| 0 <= i < lines.len() ==> json_lines_line(#[trigger] lines[i]),
    ensures
        trim_start(joined_with(lines, '\n')).len() == 0 ==> object_lines(lines).len() == 0,
        trim_start(joined_with(lines, '\n')).len() > 0 ==> trim_start(joined_with(lines, '\n'))[0]
            != '[',
    decreases lines.len(),
{
    if lines.len() > 0 {
        let l = lines.last();
        assert(json_lines_line(lines[lines.len() - 1]));
        let j = lemma_trim_start_suffix(l);
        if object_line(l) {
            assert(trim_start(l) == l);
        } else if trim_start(l).len() > 0 {
            assert(bracket_free(l));
            assert(trim_start(l)[0] == l[j]);
        }
        if lines.len() == 1 {
            assert(object_lines(lines.drop_last()).len() == 0);
        } else {
            let front = lines.drop_last();
            assert forall|i: int| 0 <= i < front.len() implies json_lines_line(
                #[trigger] front[i],
            ) by {
                assert(front[i] == lines[i]);
            }
            lemma_json_lines_start(front);
            let x = joined_with(front, '\n');
            lemma_trim_start_concat(x, seq!['\n']);
            lemma_trim_start_concat(x.push('\n'), l);
            assert(x + seq!['\n'] =~= x.push('\n'));
            assert(trim_start(seq!['\n']) == trim_start(seq!['\n'].drop_first()));
            assert(seq!['\n'].drop_first() =~= Seq::<char>::empty());
            if trim_start(x).len() > 0 {
                assert((trim_start(x) + seq!['\n'] + l)[0] == trim_start(x)[0]);
            }
        }
    }
}

/// Reading the non-blank lines of a JSON-lines body, where no line without
/// `{` is read as an object, gives the jobs of its object lines.
proof fn lemma_json_lines_jobs(lines: Seq<Seq<char>>)
    requires
        forall|i: int| 0 <= i < lines.len() ==> json_lines_line(#[trigger] lines[i]),
        forall|k: int|
            0 <= k < kept_lines(lines).len() ==> (json_text_model(#[trigger] kept_lines(lines)[k])
                matches Some(JsonModel::Object(_)) ==> kept_lines(lines)[k].contains('{')),
    ensures
        records_jobs(parsed_lines(kept_lines(lines))) == records_jobs(
            text_docs(object_lines(lines)),
        ),
    decreases lines.len(),
{
    if lines.len() > 0 {
        let front = lines.drop_last();
        let l = lines.last();
        assert(json_lines_line(lines[lines.len() - 1]));
        let kf = kept_lines(front);
        let ka = kept_lines(lines);
        assert forall|i: int| 0 <= i < front.len() implies json_lines_line(#[trigger] front[i]) by {
            assert(front[i] == lines[i]);
        }
        assert forall|k: int| 0 <= k < kf.len() implies (json_text_model(#[trigger] kf[k])
            matches Some(JsonModel::Object(_)) ==> kf[k].contains('{')) by {
            assert(ka[k] == kf[k]);
        }
        lemma_json_lines_jobs(front);
        let of = object_lines(front);
        let pf = parsed_lines(kf);
        if object_line(l) {
            let d = json_text_model(l)->0;
            assert(ka == kf.push(l));
            assert(ka.drop_last() =~= kf);
            assert(parsed_lines(ka) == pf.push(d));
            assert(pf.push(d).drop_last() =~= pf);
            assert(object_lines(lines) == of.push(l));
            assert(text_docs(of.push(l)) =~= text_docs(of).push(d));
            assert(text_docs(of).push(d).drop_last() =~= text_docs(of));
        } else {
            assert(object_lines(lines) == of);
            if trim(l).len() > 0 {
                assert(ka == kf.push(trim(l)));
                assert(ka.drop_last() =~= kf);
                assert(ka[kf.len() as int] == trim(l));
                lemma_trim_parts(l);
                if json_text_model(trim(l)) matches Some(JsonModel::Object(_)) {
                    let k = choose|k: int| 0 <= k < trim(l).len() && trim(l)[k] == '{';
                    assert(l.contains(trim(l)[k]));
                    let m = choose|m: int| 0 <= m < l.len() && l[m] == trim(l)[k];
                    assert(bracket_free(l));
                    assert(!is_bracket(l[m]));
                }
                match json_text_model(trim(l)) {
                    Some(d) => {
                        assert(parsed_lines(ka) == pf.push(d));
                        assert(pf.push(d).drop_last() =~= pf);
                        assert(record_job(d) is None);
                    },
                    None => {
                        assert(parsed_lines(ka) == pf);
                    },
                }
            } else {
                assert(ka == kf);
            }
        }
    } else {
        assert(text_docs(object_lines(lines)).len() == 0);
    }
}

/// The text of a field of a record, read under the first of `keys` that
/// gives one.
#[verifier::loop_isolation(false)]
pub fn extract_string(record: &serde_json::Value, keys: &Vec<&str>) -> (r: String)
    ensures
        r@ == extracted_text(json_model(*record), keys@.map_values(|k: &str| k@)),
{
    let ghost ks = keys@.map_values(|k: &str| k@);
    if !json_is_object(record) {
        return String::new();
    }
    let ghost m = json_model(*record)->Object_0;
    assert(ks.skip(0) =~= ks);
    let mut i: usize = 0;
    while i < keys.len()
        invariant
            i <= keys.len(),
            ks == keys@.map_values(|k: &str| k@),
            json_model(*record) == JsonModel::Object(m),
            first_field_text(m, ks) == first_field_text(m, ks.skip(i as int)),
        decreases keys.len() - i,
    {
        let key = keys[i];
        assert(ks.skip(i as int).drop_first() =~= ks.skip(i + 1));
        assert(ks.skip(i as int)[0] == key@);
        if let Some(v) = json_get(record, key) {
            assert(json_model(*v) == m[key@]);
            if let Some(s) = json_as_str(v) {
                if !trim_str(s).is_empty() {
                    assert(member_field_text(m[key@]) == Some(s@));
                    return s.to_owned();
                }
            }
            if let Some(name) = json_get(v, "name") {
                if let Some(s) = json_as_str(name) {
                    if !trim_str(s).is_empty() {
                        assert(member_field_text(m[key@]) == Some(s@));
                        return s.to_owned();
                    }
                }
            }
            if let Some(items) = json_as_array(v) {
                let ghost im = json_models(items@);
                assert(im.skip(0) =~= im);
                let mut k: usize = 0;
                while k < items.len()
                    invariant
                        k <= items.len(),
                        im == json_models(items@),
                        first_nonblank_item(im) == first_nonblank_item(im.skip(k as int)),
                    decreases items.len() - k,
                {
                    assert(im.skip(k as int).drop_first() =~= im.skip(k + 1));
                    assert(im.skip(k as int)[0] == json_model(items@[k as int]));
                    if let Some(s) = json_as_str(&items[k]) {
                        if !trim_str(s).is_empty() {
                            assert(first_nonblank_item(im) == Some(s@));
                            assert(member_field_text(m[key@]) == Some(s@));
                            return s.to_owned();
                        }
                    }
                    k = k + 1;
                }
                assert(im.skip(k as int).len() == 0);
            }
        }
        i = i + 1;
    }
    String::new()
}

fn job_from_record(record: &serde_json::Value) -> (r: Option<Job>)
    ensures
        match record_job(json_model(*record)) {
            Some(j) => r is Some && r->0@ == j,
            None => r is None,
        },
{
    if !json_is_object(record) {
        return None;
    }
    if json_get(record, "error").is_some() || json_get(record, "errors").is_some() {
        return None;
    }
    let url_keys_v = vec!["url", "job_url", "jobUrl", "link"];
    let title_keys_v = vec!["job_title", "title", "jobTitle", "position"];
    let company_keys_v = vec!["company_name", "company", "companyName", "employer"];
    let location_keys_v = vec!["job_location", "location", "jobLocation"];
    let description_keys_v = vec![
        "description_text",
        "description",
        "job_description",
        "job_description_formatted",
        "job_summary",
    ];
    let posted_date_keys_v = vec!["job_posted_date", "posted_at", "date_posted", "date"];
    assert(url_keys_v@.map_values(|k: &str| k@) =~= url_keys());
    assert(title_keys_v@.map_values(|k: &str| k@) =~= title_keys());
    assert(company_keys_v@.map_values(|k: &str| k@) =~= company_keys());
    assert(location_keys_v@.map_values(|k: &str| k@) =~= location_keys());
    assert(description_keys_v@.map_values(|k: &str| k@) =~= description_keys());
    assert(posted_date_keys_v@.map_values(|k: &str| k@) =~= posted_date_keys());
    let url = extract_string(record, &url_keys_v);
    let job_title = extract_string(record, &title_keys_v);
    let company_name = extract_string(record, &company_keys_v);
    let job_location = extract_string(record, &location_keys_v);
    let job_description = extract_string(record, &description_keys_v);
    let job_posted_date = extract_string(record, &posted_date_keys_v);
    let job = Job { url, job_title, company_name, job_location, job_description, job_posted_date };
    if job.url.as_str().is_empty() && job.job_title.as_str().is_empty() {
        return None;
    }
    Some(job)
}

/// The jobs a list of records describes, in order.
pub fn jobs_from_records(records: &Vec<serde_json::Value>) -> (r: Vec<Job>)
    ensures
        jobs_view(r@) == records_jobs(json_models(records@)),
{
    let ghost rm = json_models(records@);
    let mut jobs: Vec<Job> = Vec::new();
    for i in 0..records.len()
        invariant
            rm == json_models(records@),
            jobs_view(jobs@) == records_jobs(rm.take(i as int)),
    {
        assert(rm.take(i + 1).drop_last() =~= rm.take(i as int));
        assert(rm.take(i + 1).last() == json_model(records@[i as int]));
        let ghost before = jobs@;
        if let Some(job) = job_from_record(&records[i]) {
            jobs.push(job);
            assert(jobs_view(jobs@) =~= jobs_view(before).push(job@));
        }
    }
    assert(rm.take(records.len() as int) =~= rm);
    jobs
}

/// The JSON documents among the lines, in order; a line is read as an object
/// only where it holds a `{`.
fn parse_lines(lines: &Vec<String>) -> (r: Vec<serde_json::Value>)
    ensures
        json_models(r@) == parsed_lines(lines@.map_values(|l: String| l@)),
        forall|k: int|
            0 <= k < lines.len() ==> (json_text_model(#[trigger] lines@[k]@) matches Some(
                JsonModel::Object(_),
            ) ==> lines@[k]@.contains('{')),
{
    let ghost lv = lines@.map_values(|l: String| l@);
    let mut out: Vec<serde_json::Value> = Vec::new();
    for i in 0..lines.len()
        invariant
            lv == lines@.map_values(|l: String| l@),
            json_models(out@) == parsed_lines(lv.take(i as int)),
            forall|k: int|
                0 <= k < i ==> (json_text_model(#[trigger] lines@[k]@) matches Some(
                    JsonModel::Object(_),
                ) ==> lines@[k]@.contains('{')),
    {
        assert(lv.take(i + 1).drop_last() =~= lv.take(i as int));
        assert(lv.take(i + 1).last() == lines@[i as int]@);
        let ghost before = out@;
        let ghost line = lines@[i as int]@;
        if let Some(doc) = parse_json(lines[i].as_str()) {
            proof {
                if json_model(doc) is Object {
                    lemma_trim_parts(line);
                    assert(line.contains(trim(line)[0]));
                }
            }
            out.push(doc);
            assert(json_models(out@) =~= json_models(before).push(json_model(doc)));
        }
    }
    assert(lv.take(lines.len() as int) =~= lv);
    out
}

/// The jobs in a downloaded Indeed snapshot body, whether one JSON list or
/// JSON lines; records that report an error, or have neither URL nor title,
/// are left out. A blank body has no jobs. A JSON-lines body and a JSON list
/// of the same objects give the same jobs: those of the objects, in order
/// (for the list, where no object is nested 127 deep or more).
pub fn parse_jobs_from_snapshot_body(body: &str) -> (r: Vec<Job>)
    ensures
        jobs_view(r@) == records_jobs(snapshot_records(body@)),
        is_blank(body@) ==> r@.len() == 0,
        forall|lines: Seq<Seq<char>>|
            #[trigger] joined_with(lines, '\n') == body@ && (forall|i: int|
                0 <= i < lines.len() ==> json_lines_line(#[trigger] lines[i])) ==> jobs_view(r@)
                == records_jobs(text_docs(object_lines(lines))),
        forall|items: Seq<Seq<char>>|
            #[trigger] array_text(items) == body@ && (forall|i: int|
                0 <= i < items.len() ==> json_text_model(#[trigger] items[i]) is Some
                    && nesting_depth(items[i]) <= 126) ==> jobs_view(r@) == records_jobs(
                text_docs(items),
            ),
{
    let t = trim_str(body);
    proof {
        lemma_trim_parts(body@);
        assert forall|items: Seq<Seq<char>>| #[trigger] array_text(items) == body@ implies trim(
            body@,
        ) == body@ by {
            let a = array_text(items);
            assert(a[0] == '[');
            assert(a.last() == ']');
            lemma_trim_of_unspaced(a);
        }
    }
    if t.is_empty() {
        proof {
            assert forall|lines: Seq<Seq<char>>|
                #[trigger] joined_with(lines, '\n') == body@ && (forall|i: int|
                    0 <= i < lines.len() ==> json_lines_line(#[trigger] lines[i])) implies text_docs(
                object_lines(lines),
            ).len() == 0 by {
                lemma_json_lines_start(lines);
            }
            assert forall|items: Seq<Seq<char>>| #[trigger] array_text(items) == body@ implies false by {
                assert(array_text(items).len() > 0);
            }
        }
        return Vec::new();
    }
    let doc = parse_json(t);
    if let Some(d) = &doc {
        if let Some(items) = json_as_array(d) {
            let jobs = jobs_from_records(items);
            proof {
                trim_idempotent(body@);
                assert forall|lines: Seq<Seq<char>>|
                    #[trigger] joined_with(lines, '\n') == body@ && (forall|i: int|
                        0 <= i < lines.len() ==> json_lines_line(#[trigger] lines[i])) implies false by {
                    lemma_json_lines_start(lines);
                }
            }
            return jobs;
        }
    }
    let lines = nonblank_trimmed_lines(body);
    let records = parse_lines(&lines);
    let jobs = jobs_from_records(&records);
    proof {
        assert forall|items: Seq<Seq<char>>|
            #[trigger] array_text(items) == body@ && (forall|i: int|
                0 <= i < items.len() ==> json_text_model(#[trigger] items[i]) is Some
                    && nesting_depth(items[i]) <= 126) implies false by {
            assert(array_text(items) == t@);
        }
        assert forall|ls: Seq<Seq<char>>|
            #[trigger] joined_with(ls, '\n') == body@ && (forall|i: int|
                0 <= i < ls.len() ==> json_lines_line(#[trigger] ls[i])) implies jobs_view(jobs@)
            == records_jobs(text_docs(object_lines(ls))) by {
            let lv = lines@.map_values(|l: String| l@);
            if ls.len() == 0 {
                assert(body@ =~= Seq::<char>::empty());
            } else {
                assert forall|i: int| 0 <= i < ls.len() implies !(#[trigger] ls[i]).contains('\n') by {
                    assert(json_lines_line(ls[i]));
                }
                lemma_split_joined(ls);
            }
            assert(lv == kept_lines(ls));
            assert forall|k: int|
                0 <= k < kept_lines(ls).len() implies (json_text_model(
                    #[trigger] kept_lines(ls)[k],
                ) matches Some(JsonModel::Object(_)) ==> kept_lines(ls)[k].contains('{')) by {
                assert(kept_lines(ls)[k] == lines@[k]@);
            }
            lemma_json_lines_jobs(ls);
        }
    }
    jobs
}

/// Every job read from Indeed records has a URL or a title.
pub proof fn indeed_jobs_have_url_or_title(records: Seq<JsonModel>)
    ensures
        forall|k: int|
            #![trigger records_jobs(records)[k]]
            0 <= k < records_jobs(records).len() ==> records_jobs(records)[k].url.len() > 0
                || records_jobs(records)[k].job_title.len() > 0,
    decreases records.len(),
{
    if records.len() > 0 {
        let before = records_jobs(records.drop_last());
        let all = records_jobs(records);
        indeed_jobs_have_url_or_title(records.drop_last());
        assert forall|k: int| 0 <= k < all.len() implies all[k].url.len() > 0
            || all[k].job_title.len() > 0 by {
            if k < before.len() {
                assert(all[k] == before[k]);
            }
        }
    }
}

} // verus!
