use job_tracker::database::schema::{
    ApplicationStatus, Column, Files, JobApplication, LocationType, PositionCategory,
    RawApplication, RowError, WorkType,
};

fn raw() -> RawApplication {
    RawApplication {
        id: 7,
        company_name: "Acme".to_string(),
        position: "Engineer".to_string(),
        position_category: "Data Science".to_string(),
        work_type: "Part Time".to_string(),
        location: "Berlin".to_string(),
        location_type: "On Site".to_string(),
        application_date: "2024-01-02".to_string(),
        status: "Offered".to_string(),
        is_active: false,
        notes: Some("call back".to_string()),
        contact_info: None,
        url: Some("https://example.com".to_string()),
        files: Some("cv.pdf, cover_letter.pdf ,doc1.pdf,  doc2.pdf".to_string()),
    }
}

#[test]
fn every_word_reads_back_as_its_value() {
    for v in [
        PositionCategory::Engineering,
        PositionCategory::Development,
        PositionCategory::Support,
        PositionCategory::DataScience,
        PositionCategory::Analyst,
        PositionCategory::Design,
    ] {
        assert_eq!(PositionCategory::from_str(&v.to_string()), Ok(v));
    }
    for v in [
        WorkType::FullTime,
        WorkType::PartTime,
        WorkType::Internship,
        WorkType::Contract,
        WorkType::Temporary,
        WorkType::Volunteer,
        WorkType::Other,
    ] {
        assert_eq!(WorkType::from_str(&v.to_string()), Ok(v));
    }
    for v in [LocationType::Remote, LocationType::OnSite, LocationType::Hybrid] {
        assert_eq!(LocationType::from_str(&v.to_string()), Ok(v));
    }
    for v in [
        ApplicationStatus::Applied,
        ApplicationStatus::Interviewing,
        ApplicationStatus::Offered,
        ApplicationStatus::Rejected,
        ApplicationStatus::Withdrawn,
        ApplicationStatus::Accepted,
    ] {
        assert_eq!(ApplicationStatus::from_str(&v.to_string()), Ok(v));
    }
}

#[test]
fn the_words_are_those_of_the_table() {
    assert_eq!(PositionCategory::DataScience.to_string(), "Data Science");
    assert_eq!(PositionCategory::Engineering.to_string(), "Engineering");
    assert_eq!(WorkType::FullTime.to_string(), "Full Time");
    assert_eq!(WorkType::PartTime.to_string(), "Part Time");
    assert_eq!(WorkType::Other.to_string(), "Other");
    assert_eq!(LocationType::OnSite.to_string(), "On Site");
    assert_eq!(LocationType::Hybrid.to_string(), "Hybrid");
    assert_eq!(ApplicationStatus::Interviewing.to_string(), "Interviewing");
    assert_eq!(ApplicationStatus::Accepted.to_string(), "Accepted");
}

#[test]
fn other_texts_are_refused() {
    assert_eq!(PositionCategory::from_str("DataScience"), Err(()));
    assert_eq!(PositionCategory::from_str("engineering"), Err(()));
    assert_eq!(PositionCategory::from_str(""), Err(()));
    assert_eq!(WorkType::from_str("FullTime"), Err(()));
    assert_eq!(WorkType::from_str("Full Time "), Err(()));
    assert_eq!(LocationType::from_str("Onsite"), Err(()));
    assert_eq!(ApplicationStatus::from_str("Applied!"), Err(()));
}

#[test]
fn the_sample_application_carries_its_number() {
    let job = JobApplication::test(3);
    assert_eq!(job.id, 3);
    assert_eq!(job.company_name, "Acme Inc 3");
    assert_eq!(job.position, "Backend Developer 3");
    assert_eq!(job.position_category, PositionCategory::Engineering);
    assert_eq!(job.work_type, WorkType::FullTime);
    assert_eq!(job.location, "San Francisco, CA");
    assert_eq!(job.location_type, LocationType::Remote);
    assert_eq!(job.application_date, "2024-05-20");
    assert_eq!(job.status, ApplicationStatus::Interviewing);
    assert!(job.is_active);
    assert_eq!(job.notes, Some("Interview scheduled for next week.".to_string()));
    assert_eq!(job.contact_info, Some("recruiter@acme.com".to_string()));
    assert_eq!(job.url, Some("https://acme.com/jobs/123".to_string()));
    assert_eq!(job.files.cv, "acme_cv.pdf");
    assert_eq!(job.files.cover_letter, "acme_cover.pdf");
    assert_eq!(job.files.additional_documents, vec!["portfolio.pdf".to_string()]);
}

#[test]
fn the_number_is_written_in_decimal() {
    assert_eq!(JobApplication::test(0).company_name, "Acme Inc 0");
    assert_eq!(JobApplication::test(120).company_name, "Acme Inc 120");
    assert_eq!(JobApplication::test(-45).position, "Backend Developer -45");
    assert_eq!(JobApplication::test(i32::MAX).company_name, "Acme Inc 2147483647");
    assert_eq!(JobApplication::test(i32::MIN).company_name, "Acme Inc -2147483648");
}

#[test]
fn the_default_application_is_empty() {
    let job = JobApplication::default();
    assert_eq!(job.id, 0);
    assert_eq!(job.company_name, "");
    assert_eq!(job.position_category, PositionCategory::Engineering);
    assert_eq!(job.work_type, WorkType::FullTime);
    assert_eq!(job.location_type, LocationType::Remote);
    assert_eq!(job.status, ApplicationStatus::Applied);
    assert!(job.is_active);
    assert_eq!(job.notes, None);
    assert_eq!(job.files.cv, "");
    assert!(job.files.additional_documents.is_empty());
}

#[test]
fn a_copy_equals_what_it_was_made_from() {
    let job = JobApplication::test(9);
    assert_eq!(job.copy(), job);
    assert_eq!(job.files.copy(), job.files);
}

#[test]
fn documents_are_stored_with_commas() {
    let files = Files {
        cv: "a.pdf".to_string(),
        cover_letter: "b.pdf".to_string(),
        additional_documents: vec!["c.pdf".to_string(), "d.pdf".to_string()],
    };
    assert_eq!(files.to_text(), "a.pdf,b.pdf,c.pdf,d.pdf");
    let bare = Files {
        cv: "a.pdf".to_string(),
        cover_letter: String::new(),
        additional_documents: Vec::new(),
    };
    assert_eq!(bare.to_text(), "a.pdf,,");
    let one = Files {
        cv: String::new(),
        cover_letter: "b".to_string(),
        additional_documents: vec!["c".to_string()],
    };
    assert_eq!(one.to_text(), ",b,c");
}

#[test]
fn documents_are_read_back_without_the_space_around_them() {
    let files = Files::parse("cv.pdf, cover_letter.pdf ,doc1.pdf,  doc2.pdf");
    assert_eq!(files.cv, "cv.pdf");
    assert_eq!(files.cover_letter, "cover_letter.pdf");
    assert_eq!(files.additional_documents, vec!["doc1.pdf".to_string(), "doc2.pdf".to_string()]);
    let empty = Files::parse("");
    assert_eq!(empty.cv, "");
    assert_eq!(empty.cover_letter, "");
    assert!(empty.additional_documents.is_empty());
    let only = Files::parse("  cv.pdf\t");
    assert_eq!(only.cv, "cv.pdf");
    assert_eq!(only.cover_letter, "");
    let gaps = Files::parse("a,,b,");
    assert_eq!(gaps.cv, "a");
    assert_eq!(gaps.cover_letter, "");
    assert_eq!(gaps.additional_documents, vec!["b".to_string(), String::new()]);
}

#[test]
fn stored_documents_read_back_as_they_were() {
    let files = Files {
        cv: "a.pdf".to_string(),
        cover_letter: "b.pdf".to_string(),
        additional_documents: vec!["c.pdf".to_string(), "d e.pdf".to_string()],
    };
    assert_eq!(Files::parse(&files.to_text()), files);
}

#[test]
fn a_row_becomes_an_application() {
    let job = JobApplication::from_row(&raw()).unwrap();
    assert_eq!(job.id, 7);
    assert_eq!(job.company_name, "Acme");
    assert_eq!(job.position, "Engineer");
    assert_eq!(job.position_category, PositionCategory::DataScience);
    assert_eq!(job.work_type, WorkType::PartTime);
    assert_eq!(job.location, "Berlin");
    assert_eq!(job.location_type, LocationType::OnSite);
    assert_eq!(job.application_date, "2024-01-02");
    assert_eq!(job.status, ApplicationStatus::Offered);
    assert!(!job.is_active);
    assert_eq!(job.notes, Some("call back".to_string()));
    assert_eq!(job.contact_info, None);
    assert_eq!(job.url, Some("https://example.com".to_string()));
    assert_eq!(job.files.cv, "cv.pdf");
    assert_eq!(job.files.cover_letter, "cover_letter.pdf");
    assert_eq!(job.files.additional_documents.len(), 2);
}

#[test]
fn a_row_without_documents_has_empty_documents() {
    let mut row = raw();
    row.files = None;
    let job = JobApplication::from_row(&row).unwrap();
    assert_eq!(job.files.cv, "");
    assert_eq!(job.files.cover_letter, "");
    assert!(job.files.additional_documents.is_empty());
}

#[test]
fn the_first_column_with_a_wrong_word_is_named() {
    let mut row = raw();
    row.status = "Pending".to_string();
    assert_eq!(
        JobApplication::from_row(&row),
        Err(RowError::InvalidColumn(Column::Status))
    );
    row.location_type = "Moon".to_string();
    assert_eq!(
        JobApplication::from_row(&row),
        Err(RowError::InvalidColumn(Column::LocationType))
    );
    row.work_type = "Never".to_string();
    assert_eq!(
        JobApplication::from_row(&row),
        Err(RowError::InvalidColumn(Column::WorkType))
    );
    row.position_category = "Magic".to_string();
    assert_eq!(
        JobApplication::from_row(&row),
        Err(RowError::InvalidColumn(Column::PositionCategory))
    );
    assert_eq!(Column::PositionCategory.name(), "position_category");
    assert_eq!(Column::WorkType.name(), "work_type");
    assert_eq!(Column::LocationType.name(), "location_type");
    assert_eq!(Column::Status.name(), "status");
}
