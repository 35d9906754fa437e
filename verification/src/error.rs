use vstd::prelude::*;

verus! {

/// Errors that the console's handlers answer with.
#[derive(Debug, PartialEq, Eq)]
pub enum CustomError {
    /// The request could not be understood (for example, a verifier that is not Base64).
    FaultySetup(String),
    /// The store failed or answered out of turn.
    Database(String),
    /// The team has no free seat left for a new member.
    TeamFull,
    /// The current user may not see the page.
    Authorization,
}

/// The mathematical model of a [`CustomError`].
pub enum ErrorModel {
    FaultySetup(Seq<char>),
    Database(Seq<char>),
    TeamFull,
    Authorization,
}

impl View for CustomError {
    type V = ErrorModel;

    open spec fn view(&self) -> ErrorModel {
        match self {
            CustomError::FaultySetup(m) => ErrorModel::FaultySetup(m@),
            CustomError::Database(m) => ErrorModel::Database(m@),
            CustomError::TeamFull => ErrorModel::TeamFull,
            CustomError::Authorization => ErrorModel::Authorization,
        }
    }
}

} // verus!
