//! One line of the list of saved profiles.

use vstd::prelude::*;

verus! {

/// A saved profile as the list shows it: the file it lies in and the label
/// of its line.
#[derive(Debug, Clone, PartialEq, Eq, PartialOrd, Ord)]
pub struct ProfileDataMenuItem {
    pub file: String,
    pub label: String,
}

impl ProfileDataMenuItem {
    pub fn new(file: String, label: String) -> (r: Self)
        ensures
            r.file == file,
            r.label == label,
    {
        ProfileDataMenuItem { file, label }
    }

    /// A copy with the same content.
    pub fn duplicate(&self) -> (r: Self)
        ensures
            r.file@ == self.file@,
            r.label@ == self.label@,
    {
        ProfileDataMenuItem { file: self.file.clone(), label: self.label.clone() }
    }
}

} // verus!
