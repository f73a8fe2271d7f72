//! The shape of an answer.

use vstd::prelude::*;

verus! {

/// What is known of a repository: its description and its readme, the readme
/// always as Markdown.
#[derive(Debug, Clone, PartialEq, Eq)]
pub struct RepositoryResponse {
    pub description: String,
    pub readme: String,
}

} // verus!
