//! The collaborator that delivers a code to a phone.

use vstd::prelude::*;

verus! {

/// Delivers codes over some outside channel.
pub trait Sender {
    /// Tries to deliver `code` to `phone`. A failure carries the channel's own
    /// words.
    fn send(&self, phone: &str, code: &str) -> Result<(), String>;
}

/// A sender that delivers nothing and reports every delivery as done.
#[derive(Debug, Clone, Copy)]
pub struct FakeSender;

impl Default for FakeSender {
    fn default() -> (sender: FakeSender)
        ensures
            sender == FakeSender,
    {
        FakeSender
    }
}

impl Sender for FakeSender {
    fn send(&self, phone: &str, code: &str) -> (outcome: Result<(), String>)
        ensures
            outcome is Ok,
    {
        Ok(())
    }
}

} // verus!
