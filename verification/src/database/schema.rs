//! The records that the dashboard shows, and the words they are stored under.

use crate::text::{
    copy_optional_text, copy_texts, optional_text_view, same_text, spec_split, spec_trim_all,
    split_fields, texts_view,
};
use vstd::prelude::*;

verus! {

/// The kind of work that a position asks for.
#[derive(Debug, Clone, Copy, PartialEq, Eq, Structural)]
pub enum PositionCategory {
    Engineering,
    Development,
    Support,
    DataScience,
    Analyst,
    Design,
}

impl PositionCategory {
    /// The word under which the value is shown and stored.
    pub open spec fn label(self) -> Seq<char> {
        match self {
            PositionCategory::Engineering => "Engineering"@,
            PositionCategory::Development => "Development"@,
            PositionCategory::Support => "Support"@,
            PositionCategory::DataScience => "Data Science"@,
            PositionCategory::Analyst => "Analyst"@,
            PositionCategory::Design => "Design"@,
        }
    }

    /// The word under which the value is shown and stored.
    pub fn to_string(&self) -> (r: String)
        ensures
            r@ == self.label(),
    {
        match self {
            PositionCategory::Engineering => "Engineering".to_string(),
            PositionCategory::Development => "Development".to_string(),
            PositionCategory::Support => "Support".to_string(),
            PositionCategory::DataScience => "Data Science".to_string(),
            PositionCategory::Analyst => "Analyst".to_string(),
            PositionCategory::Design => "Design".to_string(),
        }
    }

    /// Reads a value back from its word; any other text is refused.
    pub fn from_str(s: &str) -> (r: Result<PositionCategory, ()>)
        ensures
            match r {
                Ok(v) => s@ == v.label(),
                Err(_) => forall|v: PositionCategory| s@ != v.label(),
            },
    {
        if same_text(s, "Engineering") {
            Ok(PositionCategory::Engineering)
        } else if same_text(s, "Development") {
            Ok(PositionCategory::Development)
        } else if same_text(s, "Support") {
            Ok(PositionCategory::Support)
        } else if same_text(s, "Data Science") {
            Ok(PositionCategory::DataScience)
        } else if same_text(s, "Analyst") {
            Ok(PositionCategory::Analyst)
        } else if same_text(s, "Design") {
            Ok(PositionCategory::Design)
        } else {
            Err(())
        }
    }

    /// No two values share a word.
    pub proof fn lemma_label_is_unique(a: PositionCategory, b: PositionCategory)
        requires
            a.label() == b.label(),
        ensures
            a == b,
    {
        reveal_strlit("Engineering");
        reveal_strlit("Development");
        reveal_strlit("Support");
        reveal_strlit("Data Science");
        reveal_strlit("Analyst");
        reveal_strlit("Design");
        match a {
            PositionCategory::Engineering => {
                assert(a.label().len() == 11 && a.label()[0] == 'E');
            },
            PositionCategory::Development => {
                assert(a.label().len() == 11 && a.label()[0] == 'D');
            },
            PositionCategory::Support => {
                assert(a.label().len() == 7 && a.label()[0] == 'S');
            },
            PositionCategory::DataScience => {
                assert(a.label().len() == 12 && a.label()[0] == 'D');
            },
            PositionCategory::Analyst => {
                assert(a.label().len() == 7 && a.label()[0] == 'A');
            },
            PositionCategory::Design => {
                assert(a.label().len() == 6 && a.label()[0] == 'D');
            },
        }
        match b {
            PositionCategory::Engineering => {
                assert(b.label().len() == 11 && b.label()[0] == 'E');
            },
            PositionCategory::Development => {
                assert(b.label().len() == 11 && b.label()[0] == 'D');
            },
            PositionCategory::Support => {
                assert(b.label().len() == 7 && b.label()[0] == 'S');
            },
            PositionCategory::DataScience => {
                assert(b.label().len() == 12 && b.label()[0] == 'D');
            },
            PositionCategory::Analyst => {
                assert(b.label().len() == 7 && b.label()[0] == 'A');
            },
            PositionCategory::Design => {
                assert(b.label().len() == 6 && b.label()[0] == 'D');
            },
        }
    }

    /// Reading back the word of a value gives that value.
    pub proof fn lemma_word_round_trip(v: PositionCategory, s: Seq<char>, back: Result<PositionCategory, ()>)
        requires
            s == v.label(),
            match back {
                Ok(w) => s == w.label(),
                Err(_) => forall|w: PositionCategory| s != w.label(),
            },
        ensures
            back == Ok::<PositionCategory, ()>(v),
    {
        match back {
            Ok(w) => {
                Self::lemma_label_is_unique(w, v);
            },
            Err(_) => {
                assert(s == v.label());
            },
        }
    }
}

/// The terms under which a position is held.
#[derive(Debug, Clone, Copy, PartialEq, Eq, Structural)]
pub enum WorkType {
    FullTime,
    PartTime,
    Internship,
    Contract,
    Temporary,
    Volunteer,
    Other,
}

impl WorkType {
    /// The word under which the value is shown and stored.
    pub open spec fn label(self) -> Seq<char> {
        match self {
            WorkType::FullTime => "Full Time"@,
            WorkType::PartTime => "Part Time"@,
            WorkType::Internship => "Internship"@,
            WorkType::Contract => "Contract"@,
            WorkType::Temporary => "Temporary"@,
            WorkType::Volunteer => "Volunteer"@,
            WorkType::Other => "Other"@,
        }
    }

    /// The word under which the value is shown and stored.
    pub fn to_string(&self) -> (r: String)
        ensures
            r@ == self.label(),
    {
        match self {
            WorkType::FullTime => "Full Time".to_string(),
            WorkType::PartTime => "Part Time".to_string(),
            WorkType::Internship => "Internship".to_string(),
            WorkType::Contract => "Contract".to_string(),
            WorkType::Temporary => "Temporary".to_string(),
            WorkType::Volunteer => "Volunteer".to_string(),
            WorkType::Other => "Other".to_string(),
        }
    }

    /// Reads a value back from its word; any other text is refused.
    pub fn from_str(s: &str) -> (r: Result<WorkType, ()>)
        ensures
            match r {
                Ok(v) => s@ == v.label(),
                Err(_) => forall|v: WorkType| s@ != v.label(),
            },
    {
        if same_text(s, "Full Time") {
            Ok(WorkType::FullTime)
        } else if same_text(s, "Part Time") {
            Ok(WorkType::PartTime)
        } else if same_text(s, "Internship") {
            Ok(WorkType::Internship)
        } else if same_text(s, "Contract") {
            Ok(WorkType::Contract)
        } else if same_text(s, "Temporary") {
            Ok(WorkType::Temporary)
        } else if same_text(s, "Volunteer") {
            Ok(WorkType::Volunteer)
        } else if same_text(s, "Other") {
            Ok(WorkType::Other)
        } else {
            Err(())
        }
    }

    /// No two values share a word.
    pub proof fn lemma_label_is_unique(a: WorkType, b: WorkType)
        requires
            a.label() == b.label(),
        ensures
            a == b,
    {
        reveal_strlit("Full Time");
        reveal_strlit("Part Time");
        reveal_strlit("Internship");
        reveal_strlit("Contract");
        reveal_strlit("Temporary");
        reveal_strlit("Volunteer");
        reveal_strlit("Other");
        match a {
            WorkType::FullTime => {
                assert(a.label().len() == 9 && a.label()[0] == 'F');
            },
            WorkType::PartTime => {
                assert(a.label().len() == 9 && a.label()[0] == 'P');
            },
            WorkType::Internship => {
                assert(a.label().len() == 10 && a.label()[0] == 'I');
            },
            WorkType::Contract => {
                assert(a.label().len() == 8 && a.label()[0] == 'C');
            },
            WorkType::Temporary => {
                assert(a.label().len() == 9 && a.label()[0] == 'T');
            },
            WorkType::Volunteer => {
                assert(a.label().len() == 9 && a.label()[0] == 'V');
            },
            WorkType::Other => {
                assert(a.label().len() == 5 && a.label()[0] == 'O');
            },
        }
        match b {
            WorkType::FullTime => {
                assert(b.label().len() == 9 && b.label()[0] == 'F');
            },
            WorkType::PartTime => {
                assert(b.label().len() == 9 && b.label()[0] == 'P');
            },
            WorkType::Internship => {
                assert(b.label().len() == 10 && b.label()[0] == 'I');
            },
            WorkType::Contract => {
                assert(b.label().len() == 8 && b.label()[0] == 'C');
            },
            WorkType::Temporary => {
                assert(b.label().len() == 9 && b.label()[0] == 'T');
            },
            WorkType::Volunteer => {
                assert(b.label().len() == 9 && b.label()[0] == 'V');
            },
            WorkType::Other => {
                assert(b.label().len() == 5 && b.label()[0] == 'O');
            },
        }
    }

    /// Reading back the word of a value gives that value.
    pub proof fn lemma_word_round_trip(v: WorkType, s: Seq<char>, back: Result<WorkType, ()>)
        requires
            s == v.label(),
            match back {
                Ok(w) => s == w.label(),
                Err(_) => forall|w: WorkType| s != w.label(),
            },
        ensures
            back == Ok::<WorkType, ()>(v),
    {
        match back {
            Ok(w) => {
                Self::lemma_label_is_unique(w, v);
            },
            Err(_) => {
                assert(s == v.label());
            },
        }
    }
}

/// Where the work is done.
#[derive(Debug, Clone, Copy, PartialEq, Eq, Structural)]
pub enum LocationType {
    Remote,
    OnSite,
    Hybrid,
}

impl LocationType {
    /// The word under which the value is shown and stored.
    pub open spec fn label(self) -> Seq<char> {
        match self {
            LocationType::Remote => "Remote"@,
            LocationType::OnSite => "On Site"@,
            LocationType::Hybrid => "Hybrid"@,
        }
    }

    /// The word under which the value is shown and stored.
    pub fn to_string(&self) -> (r: String)
        ensures
            r@ == self.label(),
    {
        match self {
            LocationType::Remote => "Remote".to_string(),
            LocationType::OnSite => "On Site".to_string(),
            LocationType::Hybrid => "Hybrid".to_string(),
        }
    }

    /// Reads a value back from its word; any other text is refused.
    pub fn from_str(s: &str) -> (r: Result<LocationType, ()>)
        ensures
            match r {
                Ok(v) => s@ == v.label(),
                Err(_) => forall|v: LocationType| s@ != v.label(),
            },
    {
        if same_text(s, "Remote") {
            Ok(LocationType::Remote)
        } else if same_text(s, "On Site") {
            Ok(LocationType::OnSite)
        } else if same_text(s, "Hybrid") {
            Ok(LocationType::Hybrid)
        } else {
            Err(())
        }
    }

    /// No two values share a word.
    pub proof fn lemma_label_is_unique(a: LocationType, b: LocationType)
        requires
            a.label() == b.label(),
        ensures
            a == b,
    {
        reveal_strlit("Remote");
        reveal_strlit("On Site");
        reveal_strlit("Hybrid");
        match a {
            LocationType::Remote => {
                assert(a.label().len() == 6 && a.label()[0] == 'R');
            },
            LocationType::OnSite => {
                assert(a.label().len() == 7 && a.label()[0] == 'O');
            },
            LocationType::Hybrid => {
                assert(a.label().len() == 6 && a.label()[0] == 'H');
            },
        }
        match b {
            LocationType::Remote => {
                assert(b.label().len() == 6 && b.label()[0] == 'R');
            },
            LocationType::OnSite => {
                assert(b.label().len() == 7 && b.label()[0] == 'O');
            },
            LocationType::Hybrid => {
                assert(b.label().len() == 6 && b.label()[0] == 'H');
            },
        }
    }

    /// Reading back the word of a value gives that value.
    pub proof fn lemma_word_round_trip(v: LocationType, s: Seq<char>, back: Result<LocationType, ()>)
        requires
            s == v.label(),
            match back {
                Ok(w) => s == w.label(),
                Err(_) => forall|w: LocationType| s != w.label(),
            },
        ensures
            back == Ok::<LocationType, ()>(v),
    {
        match back {
            Ok(w) => {
                Self::lemma_label_is_unique(w, v);
            },
            Err(_) => {
                assert(s == v.label());
            },
        }
    }
}

/// How far an application has come.
#[derive(Debug, Clone, Copy, PartialEq, Eq, Structural)]
pub enum ApplicationStatus {
    Applied,
    Interviewing,
    Offered,
    Rejected,
    Withdrawn,
    Accepted,
}

impl ApplicationStatus {
    /// The word under which the value is shown and stored.
    pub open spec fn label(self) -> Seq<char> {
        match self {
            ApplicationStatus::Applied => "Applied"@,
            ApplicationStatus::Interviewing => "Interviewing"@,
            ApplicationStatus::Offered => "Offered"@,
            ApplicationStatus::Rejected => "Rejected"@,
            ApplicationStatus::Withdrawn => "Withdrawn"@,
            ApplicationStatus::Accepted => "Accepted"@,
        }
    }

    /// The word under which the value is shown and stored.
    pub fn to_string(&self) -> (r: String)
        ensures
            r@ == self.label(),
    {
        match self {
            ApplicationStatus::Applied => "Applied".to_string(),
            ApplicationStatus::Interviewing => "Interviewing".to_string(),
            ApplicationStatus::Offered => "Offered".to_string(),
            ApplicationStatus::Rejected => "Rejected".to_string(),
            ApplicationStatus::Withdrawn => "Withdrawn".to_string(),
            ApplicationStatus::Accepted => "Accepted".to_string(),
        }
    }

    /// Reads a value back from its word; any other text is refused.
    pub fn from_str(s: &str) -> (r: Result<ApplicationStatus, ()>)
        ensures
            match r {
                Ok(v) => s@ == v.label(),
                Err(_) => forall|v: ApplicationStatus| s@ != v.label(),
            },
    {
        if same_text(s, "Applied") {
            Ok(ApplicationStatus::Applied)
        } else if same_text(s, "Interviewing") {
            Ok(ApplicationStatus::Interviewing)
        } else if same_text(s, "Offered") {
            Ok(ApplicationStatus::Offered)
        } else if same_text(s, "Rejected") {
            Ok(ApplicationStatus::Rejected)
        } else if same_text(s, "Withdrawn") {
            Ok(ApplicationStatus::Withdrawn)
        } else if same_text(s, "Accepted") {
            Ok(ApplicationStatus::Accepted)
        } else {
            Err(())
        }
    }

    /// No two values share a word.
    pub proof fn lemma_label_is_unique(a: ApplicationStatus, b: ApplicationStatus)
        requires
            a.label() == b.label(),
        ensures
            a == b,
    {
        reveal_strlit("Applied");
        reveal_strlit("Interviewing");
        reveal_strlit("Offered");
        reveal_strlit("Rejected");
        reveal_strlit("Withdrawn");
        reveal_strlit("Accepted");
        match a {
            ApplicationStatus::Applied => {
                assert(a.label().len() == 7 && a.label()[0] == 'A');
            },
            ApplicationStatus::Interviewing => {
                assert(a.label().len() == 12 && a.label()[0] == 'I');
            },
            ApplicationStatus::Offered => {
                assert(a.label().len() == 7 && a.label()[0] == 'O');
            },
            ApplicationStatus::Rejected => {
                assert(a.label().len() == 8 && a.label()[0] == 'R');
            },
            ApplicationStatus::Withdrawn => {
                assert(a.label().len() == 9 && a.label()[0] == 'W');
            },
            ApplicationStatus::Accepted => {
                assert(a.label().len() == 8 && a.label()[0] == 'A');
            },
        }
        match b {
            ApplicationStatus::Applied => {
                assert(b.label().len() == 7 && b.label()[0] == 'A');
            },
            ApplicationStatus::Interviewing => {
                assert(b.label().len() == 12 && b.label()[0] == 'I');
            },
            ApplicationStatus::Offered => {
                assert(b.label().len() == 7 && b.label()[0] == 'O');
            },
            ApplicationStatus::Rejected => {
                assert(b.label().len() == 8 && b.label()[0] == 'R');
            },
            ApplicationStatus::Withdrawn => {
                assert(b.label().len() == 9 && b.label()[0] == 'W');
            },
            ApplicationStatus::Accepted => {
                assert(b.label().len() == 8 && b.label()[0] == 'A');
            },
        }
    }

    /// Reading back the word of a value gives that value.
    pub proof fn lemma_word_round_trip(v: ApplicationStatus, s: Seq<char>, back: Result<ApplicationStatus, ()>)
        requires
            s == v.label(),
            match back {
                Ok(w) => s == w.label(),
                Err(_) => forall|w: ApplicationStatus| s != w.label(),
            },
        ensures
            back == Ok::<ApplicationStatus, ()>(v),
    {
        match back {
            Ok(w) => {
                Self::lemma_label_is_unique(w, v);
            },
            Err(_) => {
                assert(s == v.label());
            },
        }
    }
}

/// The documents that go with an application.
#[derive(Debug, Clone, PartialEq, Eq)]
pub struct Files {
    pub cv: String,
    pub cover_letter: String,
    pub additional_documents: Vec<String>,
}

/// What a `Files` value holds, as plain text.
pub ghost struct FilesView {
    pub cv: Seq<char>,
    pub cover_letter: Seq<char>,
    pub additional_documents: Seq<Seq<char>>,
}

impl View for Files {
    type V = FilesView;

    open spec fn view(&self) -> FilesView {
        FilesView {
            cv: self.cv@,
            cover_letter: self.cover_letter@,
            additional_documents: texts_view(self.additional_documents@),
        }
    }
}

/// The texts of a list joined into one, each followed by nothing and
/// separated from the next by a comma.
pub open spec fn comma_joined(parts: Seq<Seq<char>>) -> Seq<char>
    decreases parts.len(),
{
    if parts.len() == 0 {
        Seq::<char>::empty()
    } else if parts.len() == 1 {
        parts[0]
    } else {
        comma_joined(parts.drop_last()) + seq![','] + parts.last()
    }
}

impl Files {
    /// The form in which the documents are stored: the two main documents
    /// and then the others, separated by commas.
    pub open spec fn spec_to_text(files: FilesView) -> Seq<char> {
        files.cv + seq![','] + files.cover_letter + seq![','] + comma_joined(
            files.additional_documents,
        )
    }

    /// The stored form of the documents.
    pub fn to_text(&self) -> (r: String)
        ensures
            r@ == Self::spec_to_text(self@),
    {
        let mut out = self.cv.clone();
        out.push(',');
        out.push_str(self.cover_letter.as_str());
        out.push(',');
        let ghost head = out@;
        let mut i: usize = 0;
        while i < self.additional_documents.len()
            invariant
                0 <= i <= self.additional_documents.len(),
                out@ == head + comma_joined(texts_view(self.additional_documents@).take(i as int)),
            decreases self.additional_documents.len() - i,
        {
            let ghost all = texts_view(self.additional_documents@);
            proof {
                assert(all.take(i as int + 1).drop_last() =~= all.take(i as int));
                assert(all.take(i as int + 1).last() == self.additional_documents@[i as int]@);
            }
            if i > 0 {
                out.push(',');
            }
            out.push_str(self.additional_documents[i].as_str());
            proof {
                if i == 0 {
                    assert(comma_joined(all.take(0)) =~= Seq::<char>::empty());
                    assert(out@ =~= head + comma_joined(all.take(1)));
                } else {
                    assert(out@ =~= head + comma_joined(all.take(i as int + 1)));
                }
            }
            i = i + 1;
        }
        proof {
            let all = texts_view(self.additional_documents@);
            assert(all.take(i as int) =~= all);
            assert(head =~= self.cv@ + seq![','] + self.cover_letter@ + seq![',']);
            assert(out@ =~= Self::spec_to_text(self@));
        }
        out
    }

    /// The documents that a stored text names: its pieces between commas,
    /// each without the white space around it. The first piece is the
    /// main document, the second the letter, and the rest are the other
    /// documents. A piece that is missing is empty.
    pub open spec fn spec_parse(text: Seq<char>) -> FilesView {
        let parts = spec_trim_all(spec_split(text, ','));
        FilesView {
            cv: parts[0],
            cover_letter: if parts.len() > 1 {
                parts[1]
            } else {
                Seq::<char>::empty()
            },
            additional_documents: if parts.len() > 2 {
                parts.subrange(2, parts.len() as int)
            } else {
                Seq::<Seq<char>>::empty()
            },
        }
    }

    /// Reads the documents back from their stored form.
    pub fn parse(text: &str) -> (r: Files)
        ensures
            r@ == Self::spec_parse(text@),
    {
        let parts = split_fields(text);
        let ghost all = texts_view(parts@);
        let cv = parts[0].clone();
        assert(cv@ == all[0]);
        let cover_letter = if parts.len() > 1 {
            let second = parts[1].clone();
            assert(second@ == all[1]);
            second
        } else {
            String::new()
        };
        let mut additional_documents: Vec<String> = Vec::new();
        let mut i: usize = 2;
        while i < parts.len()
            invariant
                2 <= i,
                i <= parts.len() || parts.len() < 2,
                all == texts_view(parts@),
                additional_documents@.len() == (if parts.len() > 2 {
                    i - 2
                } else {
                    0
                }),
                forall|k: int|
                    0 <= k < additional_documents@.len() ==> (#[trigger] additional_documents@[k])@
                        == all[k + 2],
            decreases parts.len() - i,
        {
            let piece = parts[i].clone();
            assert(piece@ == all[i as int]);
            additional_documents.push(piece);
            i = i + 1;
        }
        proof {
            if parts.len() > 2 {
                assert(texts_view(additional_documents@) =~= all.subrange(2, all.len() as int));
            } else {
                assert(texts_view(additional_documents@) =~= Seq::<Seq<char>>::empty());
            }
        }
        Files { cv, cover_letter, additional_documents }
    }

    /// An owned copy with the same contents.
    pub fn copy(&self) -> (r: Files)
        ensures
            r@ == self@,
    {
        Files {
            cv: self.cv.clone(),
            cover_letter: self.cover_letter.clone(),
            additional_documents: copy_texts(&self.additional_documents),
        }
    }
}

/// One job application.
#[derive(Debug, Clone, PartialEq, Eq)]
pub struct JobApplication {
    pub id: i32,
    pub company_name: String,
    pub position: String,
    pub position_category: PositionCategory,
    pub work_type: WorkType,
    pub location: String,
    pub location_type: LocationType,
    pub application_date: String,
    pub status: ApplicationStatus,
    /// Whether the status is not final yet.
    pub is_active: bool,
    pub notes: Option<String>,
    pub contact_info: Option<String>,
    pub url: Option<String>,
    pub files: Files,
}

/// What a `JobApplication` holds, as plain values.
pub ghost struct JobApplicationView {
    pub id: int,
    pub company_name: Seq<char>,
    pub position: Seq<char>,
    pub position_category: PositionCategory,
    pub work_type: WorkType,
    pub location: Seq<char>,
    pub location_type: LocationType,
    pub application_date: Seq<char>,
    pub status: ApplicationStatus,
    pub is_active: bool,
    pub notes: Option<Seq<char>>,
    pub contact_info: Option<Seq<char>>,
    pub url: Option<Seq<char>>,
    pub files: FilesView,
}

impl View for JobApplication {
    type V = JobApplicationView;

    open spec fn view(&self) -> JobApplicationView {
        JobApplicationView {
            id: self.id as int,
            company_name: self.company_name@,
            position: self.position@,
            position_category: self.position_category,
            work_type: self.work_type,
            location: self.location@,
            location_type: self.location_type,
            application_date: self.application_date@,
            status: self.status,
            is_active: self.is_active,
            notes: optional_text_view(self.notes),
            contact_info: optional_text_view(self.contact_info),
            url: optional_text_view(self.url),
            files: self.files@,
        }
    }
}

/// What each application of a list holds.
pub open spec fn jobs_view(jobs: Seq<JobApplication>) -> Seq<JobApplicationView> {
    jobs.map_values(|j: JobApplication| j@)
}

/// An owned copy of a list of applications.
pub fn copy_jobs(jobs: &Vec<JobApplication>) -> (r: Vec<JobApplication>)
    ensures
        jobs_view(r@) == jobs_view(jobs@),
{
    let mut out: Vec<JobApplication> = Vec::new();
    let mut i: usize = 0;
    while i < jobs.len()
        invariant
            0 <= i <= jobs.len(),
            out.len() == i,
            forall|k: int| 0 <= k < i ==> out@[k]@ == jobs@[k]@,
        decreases jobs.len() - i,
    {
        out.push(jobs[i].copy());
        i = i + 1;
    }
    assert(jobs_view(out@) =~= jobs_view(jobs@));
    out
}

impl JobApplication {
    /// The empty application: no text, the first value of each kind, active.
    pub open spec fn spec_default() -> JobApplicationView {
        JobApplicationView {
            id: 0,
            company_name: Seq::<char>::empty(),
            position: Seq::<char>::empty(),
            position_category: PositionCategory::Engineering,
            work_type: WorkType::FullTime,
            location: Seq::<char>::empty(),
            location_type: LocationType::Remote,
            application_date: Seq::<char>::empty(),
            status: ApplicationStatus::Applied,
            is_active: true,
            notes: None,
            contact_info: None,
            url: None,
            files: FilesView {
                cv: Seq::<char>::empty(),
                cover_letter: Seq::<char>::empty(),
                additional_documents: Seq::<Seq<char>>::empty(),
            },
        }
    }

    /// The sample application with the given number.
    pub open spec fn spec_test(id: int) -> JobApplicationView {
        JobApplicationView {
            id: id,
            company_name: "Acme Inc "@ + crate::text::decimal(id),
            position: "Backend Developer "@ + crate::text::decimal(id),
            position_category: PositionCategory::Engineering,
            work_type: WorkType::FullTime,
            location: "San Francisco, CA"@,
            location_type: LocationType::Remote,
            application_date: "2024-05-20"@,
            status: ApplicationStatus::Interviewing,
            is_active: true,
            notes: Some("Interview scheduled for next week."@),
            contact_info: Some("recruiter@acme.com"@),
            url: Some("https://acme.com/jobs/123"@),
            files: FilesView {
                cv: "acme_cv.pdf"@,
                cover_letter: "acme_cover.pdf"@,
                additional_documents: seq!["portfolio.pdf"@],
            },
        }
    }

    /// A sample application whose company and position carry the number.
    pub fn test(id: i32) -> (r: JobApplication)
        ensures
            r@ == Self::spec_test(id as int),
    {
        let number = crate::text::decimal_text(id);
        let mut documents: Vec<String> = Vec::new();
        documents.push("portfolio.pdf".to_string());
        assert(texts_view(documents@) =~= seq!["portfolio.pdf"@]);
        JobApplication {
            id,
            company_name: crate::text::join_text("Acme Inc ", number.as_str()),
            position: crate::text::join_text("Backend Developer ", number.as_str()),
            position_category: PositionCategory::Engineering,
            work_type: WorkType::FullTime,
            location: "San Francisco, CA".to_string(),
            location_type: LocationType::Remote,
            application_date: "2024-05-20".to_string(),
            status: ApplicationStatus::Interviewing,
            is_active: true,
            notes: Some("Interview scheduled for next week.".to_string()),
            contact_info: Some("recruiter@acme.com".to_string()),
            url: Some("https://acme.com/jobs/123".to_string()),
            files: Files {
                cv: "acme_cv.pdf".to_string(),
                cover_letter: "acme_cover.pdf".to_string(),
                additional_documents: documents,
            },
        }
    }

    /// An owned copy with the same contents.
    pub fn copy(&self) -> (r: JobApplication)
        ensures
            r@ == self@,
    {
        JobApplication {
            id: self.id,
            company_name: self.company_name.clone(),
            position: self.position.clone(),
            position_category: self.position_category,
            work_type: self.work_type,
            location: self.location.clone(),
            location_type: self.location_type,
            application_date: self.application_date.clone(),
            status: self.status,
            is_active: self.is_active,
            notes: copy_optional_text(&self.notes),
            contact_info: copy_optional_text(&self.contact_info),
            url: copy_optional_text(&self.url),
            files: self.files.copy(),
        }
    }
}

impl Default for JobApplication {
    fn default() -> (r: JobApplication)
        ensures
            r@ == JobApplication::spec_default(),
    {
        let documents: Vec<String> = Vec::new();
        assert(texts_view(documents@) =~= Seq::<Seq<char>>::empty());
        JobApplication {
            id: 0,
            company_name: String::new(),
            position: String::new(),
            position_category: PositionCategory::Engineering,
            work_type: WorkType::FullTime,
            location: String::new(),
            location_type: LocationType::Remote,
            application_date: String::new(),
            status: ApplicationStatus::Applied,
            is_active: true,
            notes: None,
            contact_info: None,
            url: None,
            files: Files {
                cv: String::new(),
                cover_letter: String::new(),
                additional_documents: documents,
            },
        }
    }
}

/// One row of the table of applications, as it is stored: every column as
/// the text or number that the store holds.
pub struct RawApplication {
    pub id: i32,
    pub company_name: String,
    pub position: String,
    pub position_category: String,
    pub work_type: String,
    pub location: String,
    pub location_type: String,
    pub application_date: String,
    pub status: String,
    pub is_active: bool,
    pub notes: Option<String>,
    pub contact_info: Option<String>,
    pub url: Option<String>,
    pub files: Option<String>,
}

/// A column whose text must be one of the words of its kind.
#[derive(Debug, Clone, Copy, PartialEq, Eq, Structural)]
pub enum Column {
    PositionCategory,
    WorkType,
    LocationType,
    Status,
}

impl Column {
    /// The name of the column in the table.
    pub open spec fn spec_name(self) -> Seq<char> {
        match self {
            Column::PositionCategory => "position_category"@,
            Column::WorkType => "work_type"@,
            Column::LocationType => "location_type"@,
            Column::Status => "status"@,
        }
    }

    /// The name of the column in the table.
    pub fn name(self) -> (r: String)
        ensures
            r@ == self.spec_name(),
    {
        match self {
            Column::PositionCategory => "position_category".to_string(),
            Column::WorkType => "work_type".to_string(),
            Column::LocationType => "location_type".to_string(),
            Column::Status => "status".to_string(),
        }
    }
}

/// Why a stored row is not an application.
#[derive(Debug, Clone, Copy, PartialEq, Eq, Structural)]
pub enum RowError {
    /// The column holds a text that is none of the words of its kind.
    InvalidColumn(Column),
}

/// Tells whether the text is the word of some kind of position.
pub open spec fn spec_is_category(s: Seq<char>) -> bool {
    exists|v: PositionCategory| s == v.label()
}

/// Tells whether the text is the word of some kind of work.
pub open spec fn spec_is_work_type(s: Seq<char>) -> bool {
    exists|v: WorkType| s == v.label()
}

/// Tells whether the text is the word of some kind of location.
pub open spec fn spec_is_location_type(s: Seq<char>) -> bool {
    exists|v: LocationType| s == v.label()
}

/// Tells whether the text is the word of some status.
pub open spec fn spec_is_status(s: Seq<char>) -> bool {
    exists|v: ApplicationStatus| s == v.label()
}

impl RawApplication {
    /// The first column, in the order of the table, whose text is none of
    /// the words of its kind.
    pub open spec fn spec_first_invalid(&self) -> Option<Column> {
        if !spec_is_category(self.position_category@) {
            Some(Column::PositionCategory)
        } else if !spec_is_work_type(self.work_type@) {
            Some(Column::WorkType)
        } else if !spec_is_location_type(self.location_type@) {
            Some(Column::LocationType)
        } else if !spec_is_status(self.status@) {
            Some(Column::Status)
        } else {
            None
        }
    }

    /// Tells whether the application holds what the row holds.
    pub open spec fn spec_read_as(&self, job: JobApplicationView) -> bool {
        &&& job.id == self.id
        &&& job.company_name == self.company_name@
        &&& job.position == self.position@
        &&& job.position_category.label() == self.position_category@
        &&& job.work_type.label() == self.work_type@
        &&& job.location == self.location@
        &&& job.location_type.label() == self.location_type@
        &&& job.application_date == self.application_date@
        &&& job.status.label() == self.status@
        &&& job.is_active == self.is_active
        &&& job.notes == optional_text_view(self.notes)
        &&& job.contact_info == optional_text_view(self.contact_info)
        &&& job.url == optional_text_view(self.url)
        &&& job.files == Files::spec_parse(
            match self.files {
                Some(text) => text@,
                None => Seq::<char>::empty(),
            },
        )
    }
}

impl JobApplication {
    /// Reads an application from a stored row. The row is refused where
    /// one of the four columns of words holds another text; the error
    /// names the first such column. Otherwise the application holds what
    /// the row holds, with the documents read from their stored form.
    pub fn from_row(row: &RawApplication) -> (r: Result<JobApplication, RowError>)
        ensures
            match r {
                Ok(job) => row.spec_first_invalid().is_none() && row.spec_read_as(job@),
                Err(RowError::InvalidColumn(column)) => row.spec_first_invalid() == Some(column),
            },
    {
        let position_category = match PositionCategory::from_str(row.position_category.as_str()) {
            Ok(v) => v,
            Err(_) => {
                return Err(RowError::InvalidColumn(Column::PositionCategory));
            },
        };
        let work_type = match WorkType::from_str(row.work_type.as_str()) {
            Ok(v) => v,
            Err(_) => {
                return Err(RowError::InvalidColumn(Column::WorkType));
            },
        };
        let location_type = match LocationType::from_str(row.location_type.as_str()) {
            Ok(v) => v,
            Err(_) => {
                return Err(RowError::InvalidColumn(Column::LocationType));
            },
        };
        let status = match ApplicationStatus::from_str(row.status.as_str()) {
            Ok(v) => v,
            Err(_) => {
                return Err(RowError::InvalidColumn(Column::Status));
            },
        };
        let files = match &row.files {
            Some(text) => Files::parse(text.as_str()),
            None => Files::parse(""),
        };
        proof {
            reveal_strlit("");
            assert(""@ =~= Seq::<char>::empty());
        }
        Ok(
            JobApplication {
                id: row.id,
                company_name: row.company_name.clone(),
                position: row.position.clone(),
                position_category,
                work_type,
                location: row.location.clone(),
                location_type,
                application_date: row.application_date.clone(),
                status,
                is_active: row.is_active,
                notes: copy_optional_text(&row.notes),
                contact_info: copy_optional_text(&row.contact_info),
                url: copy_optional_text(&row.url),
                files,
            },
        )
    }
}

} // verus!
