//! The ways fetching an asset can fail, and the text that describes each.
use vstd::prelude::*;

use crate::text::{decimal, push_decimal};

verus! {

/// Why an asset's bytes could not be had.  Each variant names the path that
/// was tried.
#[derive(Debug, Clone, PartialEq, Eq)]
pub enum AssetFetchError {
    /// The asset could not be requested (or, on native builds, read).
    PathFailure { path: String },
    /// The request was answered with an HTTP status that is not a success.
    HTTPError { path: String, status: u16 },
    /// The response arrived but its body could not be read.
    BinaryReadFailure { path: String },
}

/// What an [`AssetFetchError`] says, with its path as a sequence of characters.
pub enum AssetFetchErrorView {
    PathFailure { path: Seq<char> },
    HTTPError { path: Seq<char>, status: u16 },
    BinaryReadFailure { path: Seq<char> },
}

impl View for AssetFetchError {
    type V = AssetFetchErrorView;

    open spec fn view(&self) -> AssetFetchErrorView {
        match self {
            AssetFetchError::PathFailure { path } => AssetFetchErrorView::PathFailure { path: path@ },
            AssetFetchError::HTTPError { path, status } => AssetFetchErrorView::HTTPError {
                path: path@,
                status: *status,
            },
            AssetFetchError::BinaryReadFailure { path } => AssetFetchErrorView::BinaryReadFailure {
                path: path@,
            },
        }
    }
}

impl AssetFetchErrorView {
    /// The path that the failed fetch tried.
    pub open spec fn path(self) -> Seq<char> {
        match self {
            AssetFetchErrorView::PathFailure { path } => path,
            AssetFetchErrorView::HTTPError { path, .. } => path,
            AssetFetchErrorView::BinaryReadFailure { path } => path,
        }
    }

    /// The text that describes the failure.
    pub open spec fn message(self) -> Seq<char> {
        match self {
            AssetFetchErrorView::PathFailure { path } => "failed to request asset '"@ + path + "'"@,
            AssetFetchErrorView::HTTPError { path, status } => "asset '"@ + path
                + "' returned HTTP "@ + decimal(status as nat),
            AssetFetchErrorView::BinaryReadFailure { path } => "failed to read asset '"@ + path
                + "' body"@,
        }
    }
}

impl AssetFetchError {
    /// The text that describes the failure, naming the path that was tried.
    pub fn message(&self) -> (m: String)
        ensures
            m@ == self@.message(),
    {
        match self {
            AssetFetchError::PathFailure { path } => {
                let mut m = String::from_str("failed to request asset '");
                m.append(path.as_str());
                m.append("'");
                m
            },
            AssetFetchError::HTTPError { path, status } => {
                let mut m = String::from_str("asset '");
                m.append(path.as_str());
                m.append("' returned HTTP ");
                push_decimal(&mut m, *status);
                m
            },
            AssetFetchError::BinaryReadFailure { path } => {
                let mut m = String::from_str("failed to read asset '");
                m.append(path.as_str());
                m.append("' body");
                m
            },
        }
    }
}

} // verus!

verus! {

/// The outcome of a fetch, with the bytes and the error taken by their views.
pub open spec fn outcome_view(r: Result<Vec<u8>, AssetFetchError>) -> Result<Seq<u8>, AssetFetchErrorView> {
    match r {
        Ok(bytes) => Ok(bytes@),
        Err(e) => Err(e@),
    }
}

/// Every error's message names the path that was tried: the path stands in
/// the message, whole.
pub proof fn lemma_message_names_path(e: AssetFetchErrorView)
    ensures
        exists|k: int|
            0 <= k && k + e.path().len() <= e.message().len() && #[trigger] e.message().subrange(
                k,
                k + e.path().len(),
            ) == e.path(),
{
    let prefix = match e {
        AssetFetchErrorView::PathFailure { .. } => "failed to request asset '"@,
        AssetFetchErrorView::HTTPError { .. } => "asset '"@,
        AssetFetchErrorView::BinaryReadFailure { .. } => "failed to read asset '"@,
    };
    let k = prefix.len() as int;
    assert(e.message().subrange(k, k + e.path().len()) =~= e.path());
}

} // verus!
