//! Milestone routes and the due date of a new milestone.
use vstd::prelude::*;
use crate::urls::{section_url, section_url_text};

verus! {

/// The repository a milestone route addresses.
pub struct MRepoParams {
    pub owner: String,
    pub repo: String,
}

/// The fields of a new milestone; the due date as `YYYY-MM-DD`.
pub struct CreateMilestoneForm {
    pub title: String,
    pub description: Option<String>,
    pub due_date: Option<String>,
}

impl MRepoParams {
    /// The milestone list of the repository.
    pub fn milestones_url(&self) -> (u: String)
        ensures
            u@ == section_url_text(self.owner@, self.repo@, "/-/milestones"@),
    {
        section_url(self.owner.as_str(), self.repo.as_str(), "/-/milestones")
    }
}

/// What chrono's `NaiveDate::parse_from_str` gives for a text and a format:
/// the year, month and day of the date, or `None` where it does not parse.
pub uninterp spec fn parsed_date(text: Seq<char>, format: Seq<char>) -> Option<(i32, u32, u32)>;

/// Parses a date with chrono (`NaiveDate::parse_from_str`), handing back its
/// year, month and day. Claims that the result is the named one, and, as for
/// every `NaiveDate`, that the month is from 1 to 12 and the day from 1 to
/// 31.
#[verifier::external_body]
fn parse_date(text: &str, format: &str) -> (r: Option<(i32, u32, u32)>)
    ensures
        r == parsed_date(text@, format@),
        r matches Some((_, m, d)) ==> 1 <= m <= 12 && 1 <= d <= 31,
{
    match chrono::NaiveDate::parse_from_str(text, format) {
        Ok(d) => Some((chrono::Datelike::year(&d), chrono::Datelike::month(&d), chrono::Datelike::day(&d))),
        Err(_) => None,
    }
}

/// The due date of a form: the text read as `YYYY-MM-DD` where it parses,
/// none where it is missing or does not parse.
pub open spec fn due_date_of(due: Option<String>) -> Option<(i32, u32, u32)> {
    match due {
        Some(d) => parsed_date(d@, "%Y-%m-%d"@),
        None => None,
    }
}

impl CreateMilestoneForm {
    /// The due date the form asks for, as year, month and day.
    pub fn due_date_parsed(&self) -> (r: Option<(i32, u32, u32)>)
        ensures
            r == due_date_of(self.due_date),
    {
        match &self.due_date {
            Some(d) => parse_date(d.as_str(), "%Y-%m-%d"),
            None => None,
        }
    }
}

} // verus!
