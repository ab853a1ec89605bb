use vstd::prelude::*;

verus! {

/// An event dispatcher that sends nothing anywhere, for runs without a front end; it
/// asks for the extra messages.
#[derive(Copy, Clone, Debug, Default)]
pub struct FakeEventDispatcher {}

impl FakeEventDispatcher {
    /// Extra messages cannot be turned off here.
    pub fn enable_extra_messages(&self, extra_messages_enabled: bool) {
    }

    pub fn are_extra_messages_enabled(&self) -> (r: bool)
        ensures
            r,
    {
        true
    }

    /// A screenshot goes nowhere and always succeeds.
    pub fn dispatch_screenshot(&self, width: i32, height: i32, pixels: &mut [u8]) -> (r: Result<(), crate::app_error::AppError>)
        ensures
            r is Ok,
            final(pixels)@ == old(pixels)@,
    {
        Ok(())
    }
}

} // verus!
