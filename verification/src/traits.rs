//! What the parts of the application have in common.

use crate::text::concat2;
use vstd::prelude::*;

verus! {

/// Something that can tell the user of an error or of a success.
pub trait Validator {
    fn print_error(&mut self, message: &str);

    fn print_success(&mut self, message: &str);

    fn clear_error(&mut self);

    fn clear_success(&mut self);
}

/// The line above a form that tells the user of an error or of a success.
#[derive(Debug, Clone, PartialEq)]
pub struct Banner {
    pub error: bool,
    pub success: bool,
    pub message: String,
}

impl Banner {
    /// A banner that shows nothing.
    pub fn new() -> (r: Banner)
        ensures
            !r.error,
            !r.success,
            r.message@.len() == 0,
    {
        Banner { error: false, success: false, message: String::new() }
    }
}

impl Validator for Banner {
    fn print_error(&mut self, message: &str)
        ensures
            final(self).error,
            final(self).success == old(self).success,
            final(self).message@ == "Error: "@ + message@,
    {
        self.error = true;
        self.message = concat2("Error: ", message);
    }

    fn print_success(&mut self, message: &str)
        ensures
            final(self).success,
            final(self).error == old(self).error,
            final(self).message@ == message@,
    {
        self.success = true;
        self.message = message.to_owned();
    }

    fn clear_error(&mut self)
        ensures
            !final(self).error,
            final(self).success == old(self).success,
            final(self).message == old(self).message,
    {
        self.error = false;
    }

    fn clear_success(&mut self)
        ensures
            !final(self).success,
            final(self).error == old(self).error,
            final(self).message == old(self).message,
    {
        self.success = false;
    }
}

} // verus!
