use vstd::prelude::*;
use crate::record::{NewRecord, Submission};
use crate::time::Timestamp;

verus! {

/// Why a submission was not stored.
#[derive(Clone, Copy, Debug, PartialEq, Eq, Structural)]
pub enum SubmitError {
    /// The link is not a well-formed absolute URL; nothing reached the store.
    Validation,
    /// The store already holds this link.
    DuplicateLink,
    /// The store failed for another reason.
    InternalStore,
}

/// What the store answered to one insert.
#[derive(Clone, Copy, Debug, PartialEq, Eq, Structural)]
pub enum InsertOutcome {
    /// The row was written under this id.
    Inserted(i64),
    /// The row was refused because its link is already stored.
    UniqueViolation,
    /// Any other failure of the store.
    Failed,
}

/// Whether `validator` accepts `s` as a URL.
pub uninterp spec fn valid_url(s: Seq<char>) -> bool;

/// Relies on `validator::ValidateUrl::validate_url` for `str`: whether the
/// text parses as an absolute URL. The answer depends on the text alone.
#[verifier::external_body]
fn url_check(s: &str) -> (r: bool)
    ensures
        r == valid_url(s@),
{
    validator::ValidateUrl::validate_url(s)
}

/// Whether `link` is accepted as a URL.
pub fn is_valid_url(link: &str) -> (r: bool)
    ensures
        r == valid_url(link@),
{
    url_check(link)
}

/// The publication instant that a submission gets: its own, or `now`.
pub open spec fn stamped(pub_date: Option<Timestamp>, now: Timestamp) -> Timestamp {
    match pub_date {
        Some(t) => t,
        None => now,
    }
}

/// Whether a submission passes validation, given whether its link is a URL:
/// the link must be one, and a publication instant, where given, must be valid.
pub open spec fn accepted(sub: Submission, url_ok: bool) -> bool {
    url_ok && match sub.pub_date {
        Some(t) => t.wf(),
        None => true,
    }
}

/// The checked form of `sub`, given whether its link is a valid URL and the
/// time of submission: a `Validation` error where it is not accepted; else the
/// same title and link, stamped with `now` where no instant was given.
pub fn check_submission(sub: Submission, url_ok: bool, now: Timestamp) -> (r: Result<
    NewRecord,
    SubmitError,
>)
    ensures
        !accepted(sub, url_ok) ==> r == Err::<NewRecord, SubmitError>(SubmitError::Validation),
        accepted(sub, url_ok) ==> (r matches Ok(n) && n.title == sub.title && n.link == sub.link
            && n.pub_date == stamped(sub.pub_date, now)),
{
    if !url_ok {
        return Err(SubmitError::Validation);
    }
    let pub_date = match sub.pub_date {
        Some(t) => {
            if !t.valid() {
                return Err(SubmitError::Validation);
            }
            t
        },
        None => now,
    };
    Ok(NewRecord { title: sub.title, link: sub.link, pub_date })
}

/// Validates `sub` and fixes its publication instant, `now` where it has none.
pub fn prepare(sub: Submission, now: Timestamp) -> (r: Result<NewRecord, SubmitError>)
    ensures
        !accepted(sub, valid_url(sub.link@)) ==> r == Err::<NewRecord, SubmitError>(
            SubmitError::Validation,
        ),
        accepted(sub, valid_url(sub.link@)) ==> (r matches Ok(n) && n.title == sub.title && n.link
            == sub.link && n.pub_date == stamped(sub.pub_date, now)),
{
    let ok = is_valid_url(sub.link.as_str());
    check_submission(sub, ok, now)
}

/// The result of a submission from the store's answer to its insert: the new
/// id, or the error that the answer stands for.
pub fn classify_insert(outcome: InsertOutcome) -> (r: Result<i64, SubmitError>)
    ensures
        r == (match outcome {
            InsertOutcome::Inserted(id) => Ok::<i64, SubmitError>(id),
            InsertOutcome::UniqueViolation => Err(SubmitError::DuplicateLink),
            InsertOutcome::Failed => Err(SubmitError::InternalStore),
        }),
{
    match outcome {
        InsertOutcome::Inserted(id) => Ok(id),
        InsertOutcome::UniqueViolation => Err(SubmitError::DuplicateLink),
        InsertOutcome::Failed => Err(SubmitError::InternalStore),
    }
}

} // verus!
