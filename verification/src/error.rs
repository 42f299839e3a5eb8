use vstd::prelude::*;
use vstd::std_specs::convert::FromSpecImpl;

verus! {

/// The library's one error: a page could not be loaded.
#[derive(Copy, Clone, Debug)]
pub struct HbError;

/// The text that describes an `HbError`.
pub open spec fn hb_error_text() -> Seq<char> {
    "Error While Hbping this page."@
}

impl HbError {
    /// The human-readable description of the error.
    pub fn message(&self) -> (s: String)
        ensures
            s@ == hb_error_text(),
    {
        let s = "Error While Hbping this page.".to_string();
        proof {
            reveal_strlit("Error While Hbping this page.");
        }
        s
    }
}

#[verifier::external_type_specification]
#[verifier::external_body]
pub struct ExIoError(std::io::Error);

#[verifier::external_type_specification]
#[verifier::external_body]
pub struct ExReqwestError(reqwest::Error);

impl From<std::io::Error> for HbError {
    fn from(_e: std::io::Error) -> (r: HbError) {
        HbError
    }
}

impl FromSpecImpl<std::io::Error> for HbError {
    open spec fn obeys_from_spec() -> bool {
        true
    }

    open spec fn from_spec(v: std::io::Error) -> HbError {
        HbError
    }
}

impl From<reqwest::Error> for HbError {
    fn from(_e: reqwest::Error) -> (r: HbError) {
        HbError
    }
}

impl FromSpecImpl<reqwest::Error> for HbError {
    open spec fn obeys_from_spec() -> bool {
        true
    }

    open spec fn from_spec(v: reqwest::Error) -> HbError {
        HbError
    }
}

} // verus!
