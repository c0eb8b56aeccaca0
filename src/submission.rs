use crate::reply::{AppError, Status};
use vstd::prelude::*;

verus! {

/// The account under which every submission is filed, until requests carry
/// the submitter.
pub const SUBMITTER_ID: i32 = 1;

/// A solution as posted to a problem.
pub struct CreateSubmission {
    pub language: String,
    pub code: String,
}

/// The row to insert for a posted solution.
pub struct NewSubmission {
    pub user_id: i32,
    pub problem_id: i32,
    pub code: String,
    pub language: String,
}

/// A submission as stored.
pub struct StoredSubmission {
    pub language: String,
    pub code: String,
}

/// A submission as listed, with its verdict.
pub struct SubmissionReport {
    pub language: String,
    pub code: String,
    pub passed: bool,
}

/// The row that stores `submission` posted to problem `problem_id`.
pub fn new_submission(problem_id: i32, submission: CreateSubmission) -> (r: NewSubmission)
    ensures
        r.user_id == SUBMITTER_ID,
        r.problem_id == problem_id,
        r.code@ == submission.code@,
        r.language@ == submission.language@,
{
    NewSubmission {
        user_id: SUBMITTER_ID,
        problem_id,
        code: submission.code,
        language: submission.language,
    }
}

/// The answer to a posted solution, given how the insert of its row went.
pub fn submission_status(inserted: Result<(), AppError>) -> (r: Status)
    ensures
        r == (if inserted is Ok {
            Status::Success
        } else {
            Status::InternalServerError
        }),
{
    match inserted {
        Ok(()) => Status::Success,
        Err(e) => e.status(),
    }
}

/// `report` lists `stored`. No solution is judged yet, so none has passed.
pub open spec fn reports(report: SubmissionReport, stored: StoredSubmission) -> bool {
    &&& report.language@ == stored.language@
    &&& report.code@ == stored.code@
    &&& !report.passed
}

/// The listing of all stored submissions, in the order given. Every entry
/// reports the solution as not passed, whatever its content.
pub fn list_submissions(rows: Vec<StoredSubmission>) -> (r: Vec<SubmissionReport>)
    ensures
        r@.len() == rows@.len(),
        forall|i: int| 0 <= i < rows@.len() ==> #[trigger] reports(r@[i], rows@[i]),
{
    let mut out: Vec<SubmissionReport> = Vec::new();
    let mut i: usize = 0;
    while i < rows.len()
        invariant
            i <= rows@.len(),
            out@.len() == i,
            forall|j: int| 0 <= j < i ==> #[trigger] reports(out@[j], rows@[j]),
        decreases rows@.len() - i,
    {
        let row = &rows[i];
        out.push(
            SubmissionReport {
                language: row.language.clone(),
                code: row.code.clone(),
                passed: false,
            },
        );
        i = i + 1;
    }
    out
}

} // verus!
