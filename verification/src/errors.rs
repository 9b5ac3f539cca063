//! The ways in which the frog can fail to speak.

use vstd::prelude::*;
use crate::private_path;

verus! {

/// What went wrong. Every failure ends the run; none is tried again.
#[derive(Debug, PartialEq, Eq)]
pub enum ErrorKind {
    /// A failure known by its message alone, such as one of the tip service.
    Msg(String),
    /// No private directory for the cache could be had.
    PrivatePath(private_path::ErrorKind),
    /// The cache file could not be opened or created.
    CacheNotCreated,
    /// A tip was taken, but the cache file could not be rewritten without it.
    CacheNotUpdated,
    /// A batch of tips was there and held none.
    NoTips,
    /// The tips that come with the program could not be read.
    NoEssentialTips,
}

impl ErrorKind {
    /// The text that `description` returns.
    pub open spec fn spec_description(&self) -> Seq<char> {
        match self {
            ErrorKind::Msg(text) => text@,
            ErrorKind::PrivatePath(kind) => kind.spec_description(),
            ErrorKind::CacheNotCreated => "the cache could not be created"@,
            ErrorKind::CacheNotUpdated => "the cache could not be updated"@,
            ErrorKind::NoTips => "no tips were available"@,
            ErrorKind::NoEssentialTips => "essential tips were not available"@,
        }
    }

    /// What went wrong, in words.
    pub fn description(&self) -> (r: String)
        ensures
            r@ == self.spec_description(),
    {
        match self {
            ErrorKind::Msg(text) => text.clone(),
            ErrorKind::PrivatePath(kind) => kind.description(),
            ErrorKind::CacheNotCreated => "the cache could not be created".to_owned(),
            ErrorKind::CacheNotUpdated => "the cache could not be updated".to_owned(),
            ErrorKind::NoTips => "no tips were available".to_owned(),
            ErrorKind::NoEssentialTips => "essential tips were not available".to_owned(),
        }
    }
}

} // verus!
