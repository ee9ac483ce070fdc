//! Saving the values of a form as a profile.
//!
//! The dialog collects a file name and a description. What it decides is
//! whether the file name will do, what the profile looks like as text, and
//! what has to happen next; writing the file is left to its caller.

use crate::json::opt_text;
use crate::text::{concat2, concat3, lemma_pieces_nonempty, pieces, same_text, split, texts};
use crate::toml_value::{rewrite_outside, toml_pretty};
use crate::traits::{Banner, Validator};
use vstd::prelude::*;

verus! {

/// What the dialog is opened with.
#[derive(Debug)]
pub struct SaveDialogInputParams {
    pub form_data: String,
    pub schematic: String,
    pub package_name: String,
    pub file: Option<String>,
    pub description: Option<String>,
    pub auto_save: bool,
}

/// A saved profile: the title under which it is listed, the name of its
/// file, and the values it holds, each under the name of its widget.
#[derive(Debug, Clone, PartialEq)]
pub struct ProfileData {
    pub title: String,
    pub file: String,
    pub data: Vec<(String, String)>,
}

impl ProfileData {
    pub fn new(title: String, file: String, data: Vec<(String, String)>) -> (r: Self)
        ensures
            r.title == title,
            r.file == file,
            r.data == data,
    {
        ProfileData { title, file, data }
    }
}

#[derive(Debug)]
pub enum SaveDialogInput {
    Show(SaveDialogInputParams),
    Cancel,
    Apply,
}

#[derive(Debug)]
pub enum SaveDialogOutput {
    Apply(String),
}

pub struct SaveDialogInit {}

/// What the caller of the dialog has to do after a message.
#[derive(Debug, PartialEq)]
pub enum SaveDialogAction {
    /// Hand the message `Apply` to the dialog.
    Apply,
    /// Write `text` to the file `file` in the directory of the profiles of
    /// `package_name` and `schematic`, then tell the owner of the dialog that
    /// `file` was saved.
    Write { package_name: String, schematic: String, file: String, text: String },
    /// Give up: the values of the form are no TOML.
    Unwritable,
}

/// The text of a profile before it is laid out: a description and the lines
/// of the values.
pub open spec fn profile_text(description: Seq<char>, data: Seq<char>) -> Seq<char> {
    "[meta]\ndescription='"@ + description + "'\n[data]\n"@ + data
}

/// What follows the last occurrence of `sep` in `s`; all of `s` where there
/// is none.
pub open spec fn last_piece(s: Seq<char>, sep: char) -> Seq<char> {
    pieces(s, sep).last()
}

/// The extension of the file that a path names: what follows the last point
/// of the file name, unless the name has no point or only begins with one.
pub open spec fn extension(path: Seq<char>) -> Option<Seq<char>> {
    let name = last_piece(path, '/');
    let parts = pieces(name, '.');
    if parts.len() < 2 || (parts.len() == 2 && parts[0].len() == 0) {
        None
    } else {
        Some(parts.last())
    }
}

/// What is wrong with a file name for a profile, if anything.
pub open spec fn file_fault(file: Seq<char>) -> Option<Seq<char>> {
    if file.len() == 0 {
        Some("The 'file' field is mandatory!"@)
    } else if extension(file) != Some("toml"@) {
        Some("The '"@ + file + "' is not a TOML file!"@)
    } else {
        None
    }
}

/// What follows the last occurrence of `sep` in `s`.
pub fn last_part(s: &str, sep: char) -> (r: String)
    ensures
        r@ == last_piece(s@, sep),
{
    let parts = split(s, sep);
    proof {
        lemma_pieces_nonempty(s@, sep);
    }
    assert(texts(parts@).last() == parts@[parts@.len() - 1]@);
    parts[parts.len() - 1].clone()
}

/// The extension of the file that a path names.
pub fn extension_of(path: &str) -> (r: Option<String>)
    ensures
        opt_text(r) == extension(path@),
{
    let name = last_part(path, '/');
    let parts = split(name.as_str(), '.');
    proof {
        lemma_pieces_nonempty(name@, '.');
    }
    assert(texts(parts@)[0] == parts@[0]@);
    assert(texts(parts@).last() == parts@[parts@.len() - 1]@);
    if parts.len() < 2 || (parts.len() == 2 && parts[0].as_str().unicode_len() == 0) {
        None
    } else {
        Some(parts[parts.len() - 1].clone())
    }
}

/// The dialog that saves a profile.
#[derive(Debug)]
pub struct SaveDialogModel {
    pub hidden: bool,
    pub description: String,
    pub file_name: String,
    pub data: String,
    pub schematic: String,
    pub package_name: String,
    pub banner: Banner,
}

impl SaveDialogModel {
    /// Whether the profile to save is the one that `other` has: the same
    /// values for the same schematic of the same package.
    pub open spec fn same_profile(self, other: SaveDialogModel) -> bool {
        &&& self.data == other.data
        &&& self.schematic == other.schematic
        &&& self.package_name == other.package_name
    }

    /// A dialog that is not shown.
    pub fn new() -> (r: Self)
        ensures
            r.hidden,
            r.description@.len() == 0,
            r.file_name@.len() == 0,
            r.data@.len() == 0,
            !r.banner.error,
    {
        SaveDialogModel {
            hidden: true,
            data: String::new(),
            description: String::new(),
            file_name: String::new(),
            schematic: String::new(),
            package_name: String::new(),
            banner: Banner::new(),
        }
    }

    /// The profile as it is written: the text of the profile, laid out by
    /// the `toml` crate; nothing where the text is no TOML.
    pub fn document(&self) -> (r: Option<String>)
        ensures
            opt_text(r) == toml_pretty(profile_text(self.description@, self.data@)),
    {
        let head = concat3("[meta]\ndescription='", self.description.as_str(), "'\n[data]\n");
        let text = concat2(head.as_str(), self.data.as_str());
        rewrite_outside(text.as_str())
    }

    /// Checks the file name, and tells the user what is wrong with it.
    pub fn validate(&mut self) -> (r: bool)
        ensures
            r == (file_fault(old(self).file_name@) is None),
            match file_fault(old(self).file_name@) {
                Some(text) => final(self).banner.error && final(self).banner.message@ == "Error: "@
                    + text && final(self).banner.success == old(self).banner.success,
                None => final(self).banner == old(self).banner,
            },
            final(self).hidden == old(self).hidden,
            final(self).description == old(self).description,
            final(self).file_name == old(self).file_name,
            final(self).data == old(self).data,
            final(self).schematic == old(self).schematic,
            final(self).package_name == old(self).package_name,
    {
        if self.file_name.as_str().unicode_len() == 0 {
            self.banner.print_error("The 'file' field is mandatory!");
            return false;
        }
        let fits = match extension_of(self.file_name.as_str()) {
            Some(e) => same_text(e.as_str(), "toml"),
            None => false,
        };
        if !fits {
            let text = concat3("The '", self.file_name.as_str(), "' is not a TOML file!");
            self.banner.print_error(text.as_str());
            return false;
        }
        true
    }

    /// Empties the two fields of the dialog.
    fn reset_form(&mut self)
        ensures
            final(self).description@.len() == 0,
            final(self).file_name@.len() == 0,
            final(self).hidden == old(self).hidden,
            final(self).data == old(self).data,
            final(self).schematic == old(self).schematic,
            final(self).package_name == old(self).package_name,
            final(self).banner == old(self).banner,
    {
        self.description = String::new();
        self.file_name = String::new();
    }

    /// Takes a message. `Show` fills the dialog and either shows it or, for
    /// a profile that is saved under its own name again, applies at once.
    /// `Apply` checks the file name; a name that will do closes and empties
    /// the dialog and has the profile written. `Cancel` closes and empties
    /// the dialog.
    pub fn update(&mut self, message: SaveDialogInput) -> (r: Option<SaveDialogAction>)
        ensures
            match message {
                SaveDialogInput::Show(p) => {
                    &&& final(self).data == p.form_data
                    &&& final(self).schematic == p.schematic
                    &&& final(self).package_name == p.package_name
                    &&& final(self).file_name@ == match p.file {
                        Some(f) => f@,
                        None => Seq::empty(),
                    }
                    &&& final(self).description@ == match p.description {
                        Some(d) => d@,
                        None => Seq::empty(),
                    }
                    &&& final(self).banner == old(self).banner
                    &&& final(self).hidden == (p.auto_save && old(self).hidden)
                    &&& r == if p.auto_save {
                        Some(SaveDialogAction::Apply)
                    } else {
                        None
                    }
                },
                SaveDialogInput::Apply => match file_fault(old(self).file_name@) {
                    Some(text) => {
                        &&& r is None
                        &&& final(self).banner.error
                        &&& final(self).banner.message@ == "Error: "@ + text
                        &&& final(self).banner.success == old(self).banner.success
                        &&& final(self).hidden == old(self).hidden
                        &&& final(self).file_name == old(self).file_name
                        &&& final(self).description == old(self).description
                        &&& final(self).same_profile(*old(self))
                    },
                    None => {
                        &&& !final(self).banner.error
                        &&& final(self).banner.success == old(self).banner.success
                        &&& final(self).banner.message == old(self).banner.message
                        &&& final(self).same_profile(*old(self))
                        &&& final(self).hidden
                        &&& final(self).file_name@.len() == 0
                        &&& final(self).description@.len() == 0
                        &&& match toml_pretty(profile_text(old(self).description@, old(self).data@)) {
                            Some(text) => r matches Some(
                                SaveDialogAction::Write { package_name, schematic, file, text: t },
                            ) && package_name@ == old(self).package_name@ && schematic@ == old(
                                self,
                            ).schematic@ && file@ == old(self).file_name@ && t@ == text,
                            None => r == Some(SaveDialogAction::Unwritable),
                        }
                    },
                },
                SaveDialogInput::Cancel => {
                    &&& r is None
                    &&& final(self).hidden
                    &&& !final(self).banner.error
                    &&& final(self).banner.success == old(self).banner.success
                    &&& final(self).banner.message == old(self).banner.message
                    &&& final(self).file_name@.len() == 0
                    &&& final(self).description@.len() == 0
                    &&& final(self).same_profile(*old(self))
                },
            },
    {
        match message {
            SaveDialogInput::Show(data) => {
                self.data = data.form_data;
                self.schematic = data.schematic;
                self.package_name = data.package_name;
                self.file_name = match data.file {
                    Some(f) => f,
                    None => String::new(),
                };
                self.description = match data.description {
                    Some(d) => d,
                    None => String::new(),
                };
                if !data.auto_save {
                    self.hidden = false;
                    None
                } else {
                    Some(SaveDialogAction::Apply)
                }
            },
            SaveDialogInput::Apply => {
                if !self.validate() {
                    return None;
                }
                self.banner.clear_error();
                let action = match self.document() {
                    Some(text) => SaveDialogAction::Write {
                        package_name: self.package_name.clone(),
                        schematic: self.schematic.clone(),
                        file: self.file_name.clone(),
                        text,
                    },
                    None => SaveDialogAction::Unwritable,
                };
                self.hidden = true;
                self.reset_form();
                Some(action)
            },
            SaveDialogInput::Cancel => {
                self.hidden = true;
                self.reset_form();
                self.banner.clear_error();
                None
            },
        }
    }
}

} // verus!
