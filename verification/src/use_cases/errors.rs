use vstd::prelude::*;

verus! {

/// Failure of a repository (the storage behind the use cases).
#[derive(Debug, Clone, PartialEq, Eq)]
pub enum RepoError {
    /// The requested row does not exist.
    NotFound,
    /// The storage failed; the text describes how.
    Storage(String),
}

/// Failure to deliver a message to the user.
#[derive(Debug, Clone, PartialEq, Eq)]
pub enum NotifierError {
    /// The message could not be sent; the text describes why.
    Delivery(String),
}

} // verus!
