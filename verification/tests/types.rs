use autoseeker::app::ports::types::{
    date_posted_from_json, optional_choice_from_json, ExperienceLevel, FieldError,
    IndeedDatePosted, IndeedDiscoverInput, Job, JobType, LinkedinDiscoverInput, NamedChoice,
    Remote, Snapshot, TimeRange,
};
use serde_json::Value;

fn json(text: &str) -> Value {
    serde_json::from_str(text).unwrap()
}

#[test]
fn brightdata_names_of_every_choice() {
    assert_eq!(TimeRange::Past24Hours.as_brightdata_str(), "Past 24 hours");
    assert_eq!(TimeRange::PastWeek.as_brightdata_str(), "Past week");
    assert_eq!(TimeRange::PastMonth.as_brightdata_str(), "Past month");
    assert_eq!(TimeRange::AnyTime.as_brightdata_str(), "Any time");
    assert_eq!(JobType::FullTime.as_brightdata_str(), "Full-time");
    assert_eq!(JobType::PartTime.as_brightdata_str(), "Part-time");
    assert_eq!(JobType::Contract.as_brightdata_str(), "Contract");
    assert_eq!(JobType::Temporary.as_brightdata_str(), "Temporary");
    assert_eq!(JobType::Volunteer.as_brightdata_str(), "Volunteer");
    assert_eq!(ExperienceLevel::Internship.as_brightdata_str(), "Internship");
    assert_eq!(ExperienceLevel::EntryLevel.as_brightdata_str(), "Entry level");
    assert_eq!(ExperienceLevel::Associate.as_brightdata_str(), "Associate");
    assert_eq!(ExperienceLevel::MidSeniorLevel.as_brightdata_str(), "Mid-Senior level");
    assert_eq!(ExperienceLevel::Director.as_brightdata_str(), "Director");
    assert_eq!(ExperienceLevel::Executive.as_brightdata_str(), "Executive");
    assert_eq!(Remote::OnSite.as_brightdata_str(), "On-site");
    assert_eq!(Remote::Remote.as_brightdata_str(), "Remote");
    assert_eq!(Remote::Hybrid.as_brightdata_str(), "Hybrid");
    assert_eq!(IndeedDatePosted::Last24Hours.as_brightdata_str(), "Last 24 hours");
    assert_eq!(IndeedDatePosted::Last3Days.as_brightdata_str(), "Last 3 days");
    assert_eq!(IndeedDatePosted::Last7Days.as_brightdata_str(), "Last 7 days");
    assert_eq!(IndeedDatePosted::Last14Days.as_brightdata_str(), "Last 14 days");
}

#[test]
fn names_read_back_exactly() {
    assert_eq!(JobType::from_name("Part-time"), Some(JobType::PartTime));
    assert_eq!(ExperienceLevel::from_name("Mid-Senior level"), Some(ExperienceLevel::MidSeniorLevel));
    assert_eq!(Remote::from_name("Hybrid"), Some(Remote::Hybrid));
    assert_eq!(TimeRange::from_name("past week"), None);
    assert_eq!(TimeRange::from_name(" Past week"), None);
    assert_eq!(IndeedDatePosted::from_name("Last 7 days"), Some(IndeedDatePosted::Last7Days));
}

#[test]
fn choice_field_unset_by_null_or_blank() {
    assert!(matches!(optional_choice_from_json::<TimeRange>(&Value::Null), Ok(None)));
    assert!(matches!(optional_choice_from_json::<TimeRange>(&json("\"\"")), Ok(None)));
    assert!(matches!(optional_choice_from_json::<Remote>(&json("\"  \"")), Ok(None)));
}

#[test]
fn choice_field_set_by_exact_name() {
    assert!(matches!(
        optional_choice_from_json::<TimeRange>(&json("\"Past month\"")),
        Ok(Some(TimeRange::PastMonth))
    ));
    assert!(matches!(
        optional_choice_from_json::<ExperienceLevel>(&json("\"Entry level\"")),
        Ok(Some(ExperienceLevel::EntryLevel))
    ));
}

#[test]
fn choice_field_errors() {
    match optional_choice_from_json::<JobType>(&json("\"full-time\"")) {
        Err(FieldError::UnknownVariant(s)) => assert_eq!(s, "full-time"),
        _ => panic!("expected an unknown variant"),
    }
    assert!(matches!(
        optional_choice_from_json::<JobType>(&json("3")),
        Err(FieldError::InvalidType)
    ));
    assert!(matches!(
        optional_choice_from_json::<JobType>(&json("true")),
        Err(FieldError::InvalidType)
    ));
}

#[test]
fn choice_field_set_by_single_key_object() {
    assert!(matches!(
        optional_choice_from_json::<TimeRange>(&json("{\"Past week\": null}")),
        Ok(Some(TimeRange::PastWeek))
    ));
    assert!(matches!(
        optional_choice_from_json::<Remote>(&json("{\"On-site\": null}")),
        Ok(Some(Remote::OnSite))
    ));
}

#[test]
fn choice_field_object_errors() {
    assert!(matches!(
        optional_choice_from_json::<TimeRange>(&json("{\"Past week\": 5}")),
        Err(FieldError::InvalidType)
    ));
    match optional_choice_from_json::<TimeRange>(&json("{\"nope\": null}")) {
        Err(FieldError::UnknownVariant(s)) => assert_eq!(s, "nope"),
        _ => panic!("expected an unknown variant"),
    }
    assert!(matches!(
        optional_choice_from_json::<TimeRange>(&json("{}")),
        Err(FieldError::NotSingleKeyObject)
    ));
    assert!(matches!(
        optional_choice_from_json::<TimeRange>(&json("{\"Past week\": null, \"Any time\": null}")),
        Err(FieldError::NotSingleKeyObject)
    ));
    assert!(matches!(
        optional_choice_from_json::<TimeRange>(&json("[1]")),
        Err(FieldError::InvalidType)
    ));
}

#[test]
fn date_posted_legacy_texts_and_numbers() {
    assert!(matches!(date_posted_from_json(&json("\"1\"")), Ok(Some(IndeedDatePosted::Last24Hours))));
    assert!(matches!(date_posted_from_json(&json("\"3\"")), Ok(Some(IndeedDatePosted::Last3Days))));
    assert!(matches!(date_posted_from_json(&json("\" 7 \"")), Ok(Some(IndeedDatePosted::Last7Days))));
    assert!(matches!(date_posted_from_json(&json("\"+14\"")), Ok(Some(IndeedDatePosted::Last14Days))));
    assert!(matches!(date_posted_from_json(&json("\"007\"")), Ok(Some(IndeedDatePosted::Last7Days))));
    assert!(matches!(date_posted_from_json(&json("14")), Ok(Some(IndeedDatePosted::Last14Days))));
    assert!(matches!(date_posted_from_json(&json("1")), Ok(Some(IndeedDatePosted::Last24Hours))));
}

#[test]
fn date_posted_names_and_unset() {
    assert!(matches!(
        date_posted_from_json(&json("\"Last 3 days\"")),
        Ok(Some(IndeedDatePosted::Last3Days))
    ));
    assert!(matches!(date_posted_from_json(&Value::Null), Ok(None)));
    assert!(matches!(date_posted_from_json(&json("\" \"")), Ok(None)));
}

#[test]
fn date_posted_errors() {
    match date_posted_from_json(&json("\"2\"")) {
        Err(FieldError::UnknownVariant(s)) => assert_eq!(s, "2"),
        _ => panic!("expected an unknown variant"),
    }
    match date_posted_from_json(&json("\" Last 3 days\"")) {
        Err(FieldError::UnknownVariant(s)) => assert_eq!(s, " Last 3 days"),
        _ => panic!("expected an unknown variant"),
    }
    assert!(matches!(date_posted_from_json(&json("5")), Err(FieldError::InvalidDatePostedNumber)));
    assert!(matches!(date_posted_from_json(&json("-1")), Err(FieldError::InvalidDatePostedNumber)));
    assert!(matches!(date_posted_from_json(&json("7.0")), Err(FieldError::InvalidDatePostedNumber)));
    assert!(matches!(date_posted_from_json(&json("true")), Err(FieldError::InvalidDatePostedValue)));
    assert!(matches!(date_posted_from_json(&json("[1]")), Err(FieldError::InvalidDatePostedValue)));
}

fn linkedin_input() -> LinkedinDiscoverInput {
    LinkedinDiscoverInput {
        location: "paris".to_string(),
        keyword: "product manager".to_string(),
        country: "FR".to_string(),
        time_range: Some(TimeRange::PastMonth),
        job_type: None,
        experience_level: Some(ExperienceLevel::Internship),
        remote: Some(Remote::OnSite),
        selective_search: String::new(),
        company: "acme".to_string(),
        location_radius: String::new(),
    }
}

#[test]
fn linkedin_payload_members() {
    let payload = linkedin_input().into_brightdata_payload();
    let expected = json(
        r#"{"location":"paris","keyword":"product manager","country":"FR","time_range":"Past month","job_type":"","experience_level":"Internship","remote":"On-site","selective_search":"","company":"acme","location_radius":""}"#,
    );
    assert_eq!(payload, expected);
}

#[test]
fn linkedin_default_input_payload_is_all_empty() {
    let payload = LinkedinDiscoverInput::default().into_brightdata_payload();
    let obj = payload.as_object().unwrap();
    assert_eq!(obj.len(), 10);
    for (_, v) in obj {
        assert_eq!(v, &Value::String(String::new()));
    }
}

#[test]
fn indeed_payload_without_pay() {
    let input = IndeedDiscoverInput {
        country: "FR".to_string(),
        domain: "fr.indeed.com".to_string(),
        keyword: "\"product manager\"".to_string(),
        location: "Paris".to_string(),
        date_posted: Some(IndeedDatePosted::Last24Hours),
        posted_by: String::new(),
        location_radius: String::new(),
        pay: None,
    };
    let payload = input.into_brightdata_payload();
    let expected = json(
        r#"{"country":"FR","domain":"fr.indeed.com","keyword_search":"\"product manager\"","location":"Paris","date_posted":"Last 24 hours","posted_by":"","location_radius":""}"#,
    );
    assert_eq!(payload, expected);
    assert!(payload.get("pay").is_none());
}

#[test]
fn indeed_payload_with_pay() {
    let mut input = IndeedDiscoverInput::default();
    input.pay = Some(60000);
    let payload = input.into_brightdata_payload();
    assert_eq!(payload.get("pay"), Some(&json("60000")));
    assert_eq!(payload.get("date_posted"), Some(&json("\"\"")));
    assert_eq!(payload.as_object().unwrap().len(), 8);
}

#[test]
fn job_description_text() {
    let job = Job {
        url: "https://x/1".to_string(),
        job_title: "Engineer".to_string(),
        company_name: "Acme".to_string(),
        job_location: "Paris".to_string(),
        job_description: "Build".to_string(),
        job_posted_date: "2024-01-01".to_string(),
    };
    assert_eq!(
        job.describe(),
        "Job Title: Engineer\nCompany: Acme\nLocation: Paris\nPosted Date: 2024-01-01\nURL: https://x/1\nDescription: Build"
    );
}

#[test]
fn snapshot_description_text() {
    let s = Snapshot {
        id: "s_1".to_string(),
        created: "2024-01-01".to_string(),
        status: "ready".to_string(),
        dataset_id: "gd_x".to_string(),
        dataset_size: 42,
    };
    assert_eq!(
        s.describe(),
        "Snapshot ID: s_1\nCreated: 2024-01-01\nStatus: ready\nDataset ID: gd_x\nDataset Size: 42"
    );
}
