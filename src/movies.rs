//! Movies and their reviews: record identifiers, whether a user has already
//! reviewed a movie, and the notices that follow each change.
use vstd::prelude::*;

verus! {

/// A catalogued movie.
#[derive(Debug, Clone, PartialEq, Eq)]
pub struct Movie {
    pub id: String,
    pub name: String,
    pub director: String,
    pub synopsis: Option<String>,
}

/// A review, with the email of the user who wrote it.
#[derive(Debug, Clone, PartialEq, Eq)]
pub struct UserReview {
    pub id: String,
    pub email: String,
    pub score: i32,
    pub review: Option<String>,
}

/// Some review in `reviews` was written by `email`.
pub open spec fn reviewed_by(reviews: Seq<UserReview>, email: Seq<char>) -> bool {
    exists|i: int| 0 <= i < reviews.len() && (#[trigger] reviews[i]).email@ == email
}

/// Whether the logged-in user, if any, has already reviewed the movie whose
/// reviews are given.
pub fn has_review(reviews: &Vec<UserReview>, user_email: Option<&str>) -> (r: bool)
    ensures
        r == match user_email {
            Some(e) => reviewed_by(reviews@, e@),
            None => false,
        },
{
    let email = match user_email {
        Some(e) => e,
        None => {
            return false;
        },
    };
    let target = email.to_owned();
    let mut i: usize = 0;
    while i < reviews.len()
        invariant
            user_email == Some(email),
            0 <= i <= reviews@.len(),
            target@ == email@,
            forall|j: int| 0 <= j < i ==> (#[trigger] reviews@[j]).email@ != email@,
        decreases reviews@.len() - i,
    {
        if reviews[i].email == target {
            assert(reviews@[i as int].email@ == email@);
            assert(reviewed_by(reviews@, email@));
            return true;
        }
        i = i + 1;
    }
    false
}

#[verifier::external_type_specification]
#[verifier::external_body]
pub struct ExUuidError(uuid::Error);

/// The 128 bits of the UUID that `s` spells, in one of the textual forms the
/// uuid crate reads; `None` for any other text.
pub uninterp spec fn uuid_bits(s: Seq<char>) -> Option<u128>;

/// Relies on `uuid::Uuid::parse_str` and `Uuid::as_u128`: whether the text is
/// read, and as which value, depends on the text alone.
#[verifier::external_body]
fn uuid_parse(s: &str) -> (r: Result<u128, uuid::Error>)
    ensures
        match r {
            Ok(v) => uuid_bits(s@) == Some(v),
            Err(_) => uuid_bits(s@) is None,
        },
{
    match uuid::Uuid::parse_str(s) {
        Ok(id) => Ok(id.as_u128()),
        Err(e) => Err(e),
    }
}

/// A request whose path or form holds a malformed identifier.
#[derive(Debug, Clone, Copy, PartialEq, Eq, Structural)]
pub struct BadRequest;

impl BadRequest {
    /// The HTTP status the refusal maps to.
    pub fn status(&self) -> (r: u16)
        ensures
            r == 400,
    {
        400
    }
}

/// Reads a record identifier from a path segment or form field, as the
/// 128-bit value of the UUID it spells.
pub fn parse_record_id(s: &str) -> (r: Result<u128, BadRequest>)
    ensures
        match r {
            Ok(v) => uuid_bits(s@) == Some(v),
            Err(_) => uuid_bits(s@) is None,
        },
{
    match uuid_parse(s) {
        Ok(id) => Ok(id),
        Err(_) => Err(BadRequest),
    }
}

/// A change to the catalogue that ends with a notice.
#[derive(Debug, Clone, Copy, PartialEq, Eq, Structural)]
pub enum RecordAction {
    CreateMovie,
    UpdateMovie,
    DeleteMovie,
    SubmitReview,
    DeleteReview,
}

pub open spec fn success_notice(action: RecordAction) -> Seq<char> {
    match action {
        RecordAction::CreateMovie => "Movie created successfully"@,
        RecordAction::UpdateMovie => "Movie edited successfully"@,
        RecordAction::DeleteMovie => "Movie deleted successfully"@,
        RecordAction::SubmitReview => "Review submitted successfully"@,
        RecordAction::DeleteReview => "Review deleted successfully"@,
    }
}

pub open spec fn failure_prefix(action: RecordAction) -> Seq<char> {
    match action {
        RecordAction::CreateMovie => "Failed to create movie: "@,
        RecordAction::UpdateMovie => "Failed to update movie: "@,
        RecordAction::DeleteMovie => "Failed to delete movie: "@,
        RecordAction::SubmitReview => "Failed to submit review: "@,
        RecordAction::DeleteReview => "Failed to delete review: "@,
    }
}

impl RecordAction {
    /// The notice after the action: its success text, or its failure text
    /// followed by what went wrong.
    pub fn notice(&self, failure: Option<&str>) -> (r: String)
        ensures
            r@ == match failure {
                None => success_notice(*self),
                Some(detail) => failure_prefix(*self) + detail@,
            },
    {
        match failure {
            None => match self {
                RecordAction::CreateMovie => String::from_str("Movie created successfully"),
                RecordAction::UpdateMovie => String::from_str("Movie edited successfully"),
                RecordAction::DeleteMovie => String::from_str("Movie deleted successfully"),
                RecordAction::SubmitReview => String::from_str("Review submitted successfully"),
                RecordAction::DeleteReview => String::from_str("Review deleted successfully"),
            },
            Some(detail) => {
                let mut text = match self {
                    RecordAction::CreateMovie => String::from_str("Failed to create movie: "),
                    RecordAction::UpdateMovie => String::from_str("Failed to update movie: "),
                    RecordAction::DeleteMovie => String::from_str("Failed to delete movie: "),
                    RecordAction::SubmitReview => String::from_str("Failed to submit review: "),
                    RecordAction::DeleteReview => String::from_str("Failed to delete review: "),
                };
                text.append(detail);
                text
            },
        }
    }
}

} // verus!
