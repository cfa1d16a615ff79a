//! The course of a download: whether one is under way, and what came of it.
//! Fetching the data is the caller's part.

use vstd::prelude::*;

verus! {

/// What a download ended with.
pub enum DownloadResult {
    /// The data.
    Success(Vec<u8>),
    /// Why there is no data.
    Fail(String),
    /// No download has ended.
    Nothing,
}

/// Knows whether a download is under way.
pub struct RomDownloader {
    is_active: bool,
}

impl RomDownloader {
    /// Whether a download is under way.
    pub closed spec fn spec_is_active(&self) -> bool {
        self.is_active
    }

    /// A downloader at rest.
    pub fn new() -> (r: Self)
        ensures
            !r.spec_is_active(),
    {
        Self { is_active: false }
    }

    pub fn is_active(&self) -> (r: bool)
        ensures
            r == self.spec_is_active(),
    {
        self.is_active
    }

    /// Notes that a download was started. The caller fetches the data and
    /// hands the outcome to `check_result` when there is one.
    pub fn download(&mut self)
        ensures
            final(self).spec_is_active(),
    {
        self.is_active = true;
    }

    /// Takes what has arrived from the download: with a result the download
    /// is over and the result handed on; with none nothing changes.
    pub fn check_result(&mut self, arrived: Option<DownloadResult>) -> (r: DownloadResult)
        ensures
            match arrived {
                Some(result) => !final(self).spec_is_active() && r == result,
                None => final(self).spec_is_active() == old(self).spec_is_active()
                    && r is Nothing,
            },
    {
        match arrived {
            Some(result) => {
                self.is_active = false;
                result
            },
            None => DownloadResult::Nothing,
        }
    }
}

} // verus!
