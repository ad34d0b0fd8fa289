//! The failure of the human-verification step, as this crate sees it.

use vstd::prelude::*;

verus! {

/// A rejected human-verification check. It carries the reason in the words of
/// the verification service, which are meant for the end user.
#[derive(Clone, Debug)]
pub struct HcaptchaError {
    /// The text that the failure displays.
    pub reason: String,
}

impl View for HcaptchaError {
    type V = Seq<char>;

    /// The displayed reason.
    open spec fn view(&self) -> Seq<char> {
        self.reason@
    }
}

impl HcaptchaError {
    /// A failure that displays `reason`.
    pub fn new(reason: String) -> (failure: HcaptchaError)
        ensures
            failure@ == reason@,
    {
        HcaptchaError { reason }
    }

    /// The text that the failure displays.
    pub fn to_string(&self) -> (text: String)
        ensures
            text@ == self@,
    {
        self.reason.clone()
    }
}

} // verus!
