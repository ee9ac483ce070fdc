//! Editing the configuration file of a schematic.

use crate::json::{json_document, json_fault, json_fault_of, json_pretty, pretty_json};
use crate::text::concat2;
use crate::traits::{Banner, Validator};
use vstd::prelude::*;

verus! {

#[derive(Debug)]
pub enum ConfigEditorDialogInput {
    Show(String),
    Cancel,
    Apply,
}

#[derive(Debug)]
pub enum ConfigEditorDialogOutput {
    Apply(String),
}

pub struct ConfigEditorInit {}

/// What the caller of the editor has to do after a message.
#[derive(Debug, PartialEq)]
pub enum ConfigEditorAction {
    /// Write `text` to `file`.
    Write { file: String, text: String },
    /// Give up: the file that was to be shown holds no JSON.
    Unreadable,
}

/// The editor of a configuration file.
#[derive(Debug)]
pub struct ConfigEditorDialogModel {
    pub hidden: bool,
    pub config_file: String,
    pub json: String,
    pub banner: Banner,
}

/// What is wrong with the text of the editor, if anything.
pub open spec fn content_fault(content: Seq<char>) -> Option<Seq<char>> {
    match json_fault(content) {
        Some(fault) => Some("Invalid JSON! "@ + fault),
        None => None,
    }
}

impl ConfigEditorDialogModel {
    /// An editor that is not shown.
    pub fn new() -> (r: Self)
        ensures
            r.hidden,
            !r.banner.error,
    {
        ConfigEditorDialogModel {
            hidden: true,
            json: String::new(),
            config_file: String::new(),
            banner: Banner::new(),
        }
    }

    /// Checks that the text of the editor is JSON, and tells the user what
    /// is wrong with it.
    pub fn validate(&mut self) -> (r: bool)
        ensures
            r == (json_document(old(self).json@) is Some),
            final(self).hidden == old(self).hidden,
            final(self).config_file == old(self).config_file,
            final(self).json == old(self).json,
            match content_fault(old(self).json@) {
                Some(text) => {
                    &&& !r
                    &&& final(self).banner.error
                    &&& final(self).banner.success == old(self).banner.success
                    &&& final(self).banner.message@ == "Error: "@ + text
                },
                None => r && final(self).banner == old(self).banner,
            },
    {
        match json_fault_of(self.json.as_str()) {
            Some(fault) => {
                let text = concat2("Invalid JSON! ", fault.as_str());
                self.banner.print_error(text.as_str());
                false
            },
            None => true,
        }
    }

    /// Takes a message. `Show` brings the path of the file; `content` is
    /// what the file holds. `Apply` has the text written if it is JSON.
    pub fn update(&mut self, message: ConfigEditorDialogInput, content: &str) -> (r: Option<
        ConfigEditorAction,
    >)
        ensures
            match message {
                ConfigEditorDialogInput::Show(path) => match json_pretty(content@) {
                    Some(text) => {
                        &&& r is None
                        &&& final(self).config_file == path
                        &&& final(self).json@ == text
                        &&& !final(self).hidden
                        &&& final(self).banner == old(self).banner
                    },
                    None => {
                        &&& r == Some(ConfigEditorAction::Unreadable)
                        &&& final(self).config_file == path
                        &&& final(self).json == old(self).json
                        &&& final(self).hidden == old(self).hidden
                        &&& final(self).banner == old(self).banner
                    },
                },
                ConfigEditorDialogInput::Apply => match content_fault(old(self).json@) {
                    Some(text) => {
                        &&& r is None
                        &&& final(self).banner.error
                        &&& final(self).banner.success == old(self).banner.success
                        &&& final(self).banner.message@ == "Error: "@ + text
                        &&& final(self).hidden == old(self).hidden
                        &&& final(self).json == old(self).json
                        &&& final(self).config_file == old(self).config_file
                    },
                    None => {
                        &&& r matches Some(ConfigEditorAction::Write { file, text })
                        &&& file@ == old(self).config_file@
                        &&& text@ == old(self).json@
                        &&& final(self).hidden
                        &&& !final(self).banner.error
                        &&& final(self).banner.success == old(self).banner.success
                        &&& final(self).banner.message == old(self).banner.message
                        &&& final(self).json == old(self).json
                        &&& final(self).config_file == old(self).config_file
                    },
                },
                ConfigEditorDialogInput::Cancel => {
                    &&& r is None
                    &&& final(self).hidden
                    &&& !final(self).banner.error
                    &&& final(self).banner.success == old(self).banner.success
                    &&& final(self).banner.message == old(self).banner.message
                    &&& final(self).json == old(self).json
                    &&& final(self).config_file == old(self).config_file
                },
            },
    {
        match message {
            ConfigEditorDialogInput::Show(path) => {
                self.config_file = path;
                match pretty_json(content) {
                    Some(text) => {
                        self.json = text;
                        self.hidden = false;
                        None
                    },
                    None => Some(ConfigEditorAction::Unreadable),
                }
            },
            ConfigEditorDialogInput::Apply => {
                if !self.validate() {
                    return None;
                }
                self.banner.clear_error();
                self.hidden = true;
                Some(
                    ConfigEditorAction::Write {
                        file: self.config_file.clone(),
                        text: self.json.clone(),
                    },
                )
            },
            ConfigEditorDialogInput::Cancel => {
                self.hidden = true;
                self.banner.clear_error();
                None
            },
        }
    }
}

} // verus!
