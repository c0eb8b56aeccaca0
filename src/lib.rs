//! Request handling rules of a judging platform's web backend: account
//! registration and login, contest timing, and submission records.
//!
//! Storage and HTTP transport live outside this library; the functions here
//! take what was read and decide what is stored or answered.

mod account;
mod contest;
mod password;
mod reply;
mod submission;

pub use account::{
    lemma_register_then_login, lemma_wrong_password_unauthorized, login_outcome, login_status, register, registered,
    registration_status, LoginForm, NewUser, RegisterForm, User,
};
pub use contest::{contest_detail, contest_detail_at, shows, Contest, ContestDetail, Instant, ProblemListEntry};
pub use password::{argon2_verify, MAX_PASSWORD_BYTES};
pub use reply::{AppError, Status};
pub use submission::{
    list_submissions, new_submission, reports, submission_status, CreateSubmission,
    NewSubmission, StoredSubmission, SubmissionReport, SUBMITTER_ID,
};
