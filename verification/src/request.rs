//! The host's firmware retrieval boundary.

use vstd::prelude::*;

use crate::Error;

verus! {

/// Selector for the host's firmware request call: the ordinary request warns
/// when a blob is absent, the `nowarn` variant stays silent. Both return the
/// same outcome.
#[derive(Clone, Copy, PartialEq, Eq, Structural, Debug)]
pub enum FwFunc {
    Request,
    RequestNowarn,
}

impl FwFunc {
    /// The request call that reports a missing blob loudly.
    pub fn request() -> (r: FwFunc)
        ensures
            r == FwFunc::Request,
    {
        FwFunc::Request
    }

    /// The request call that stays silent when the blob is absent.
    pub fn request_nowarn() -> (r: FwFunc)
        ensures
            r == FwFunc::RequestNowarn,
    {
        FwFunc::RequestNowarn
    }
}

/// The host's blocking firmware transport: it can supply, for each path, at
/// most one blob, and a request returns exactly that blob or fails because
/// nothing is available under the path.
pub trait FirmwareDevice {
    /// The blob the host supplies under each path, if any.
    spec fn blob(&self, path: Seq<u8>) -> Option<Seq<u8>>;

    /// Request the named firmware blob and wait for its bytes; fails exactly
    /// when the host has nothing under that path. `func` selects how loudly
    /// the host reports a missing blob; the outcome is the same either way.
    fn request(&self, path: &[u8], func: FwFunc) -> (r: Result<Vec<u8>, Error>)
        ensures
            r matches Ok(d) ==> self.blob(path@) == Some(d@),
            r matches Err(e) ==> e == Error::FirmwareRequestFailed && self.blob(path@) is None,
    ;
}

} // verus!
