//! Data model: a paper's identity and lifecycle state, resolved
//! bibliographic metadata, and the search-request vocabulary.

use vstd::prelude::*;

verus! {

/// Lifecycle state of one acquisition target. The state only advances
/// forward; the `Error` arm carries an explanatory cause and is terminal.
#[derive(Debug, Clone, PartialEq)]
pub enum PaperStatus {
    Pending,
    Downloading,
    Downloaded,
    Renaming,
    Renamed,
    Extracting,
    Ready,
    Error(String),
}

/// Normalized bibliographic fields resolved from the registry.
/// Every field is best-effort: absence is replaced by a sentinel value,
/// never by a failure.
#[derive(Debug, Clone, PartialEq)]
pub struct CrossRefMetadata {
    pub title: String,
    pub author: String,
    pub year: String,
    pub journal: String,
}

/// Identity and lifecycle state for one acquisition target.
#[derive(Debug, Clone, PartialEq)]
pub struct Paper {
    /// Process-unique identifier, assigned at record creation.
    pub id: u128,
    pub title: String,
    /// Primary key for mirror lookup and metadata resolution.
    pub doi: String,
    /// Secondary identifier from the originating search source.
    pub pmid: Option<String>,
    pub status: PaperStatus,
    /// Set once a binary has been persisted; overwritten on rename.
    pub local_path: Option<String>,
    pub abstract_text: Option<String>,
    pub introduction: Option<String>,
    /// Either fully absent or fully populated.
    pub metadata: Option<CrossRefMetadata>,
}

/// Verification state of one claim.
#[derive(Debug, Clone, PartialEq)]
pub enum ClaimStatus {
    Pending,
    Checking,
    Verified,
    Rejected,
    Error(String),
}

/// A claim under verification together with its supporting papers.
#[derive(Debug, Clone, PartialEq)]
pub struct Claim {
    pub id: u128,
    pub text: String,
    pub verification_status: ClaimStatus,
    pub supporting_papers: Vec<u128>,
}

/// How several search keywords are combined into one query.
#[derive(Debug, Clone, PartialEq)]
pub enum KeywordLogic {
    AND,
    OR,
}

/// Which document fields a search keyword is matched against.
#[derive(Debug, Clone, PartialEq)]
pub enum SearchField {
    TitleAndAbstract,
    Title,
    Abstract,
}

impl SearchField {
    /// The field tag appended to each keyword of a search query.
    pub fn pubmed_tag(&self) -> (r: &str)
        ensures
            r@ == match self {
                SearchField::TitleAndAbstract => "[Title/Abstract]"@,
                SearchField::Title => "[Title]"@,
                SearchField::Abstract => "[Abstract]"@,
            },
    {
        match self {
            SearchField::TitleAndAbstract => "[Title/Abstract]",
            SearchField::Title => "[Title]",
            SearchField::Abstract => "[Abstract]",
        }
    }
}

} // verus!
