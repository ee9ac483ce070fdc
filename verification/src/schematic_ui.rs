//! The form of a schematic and what the user does with it.
//!
//! The model holds the form as the toolkit shows it. Its caller keeps the
//! widgets of the model in step with the screen, reads files, and carries
//! out what a message asks for.

use crate::command_builder::{param_views, BuilderView, OptionsView, Param};
use crate::json::opt_text;

use crate::profile_browser::ProfileBrowserInputParams;
use crate::save_dialog::SaveDialogInputParams;
use crate::schema::{ParseError, Schema, SchemaView};
use crate::text::concat2;
use crate::traits::{Banner, Validator};
use crate::value_extractor::{
    collected, extract_values, extracted_all, option_name, ConfigurableSchematicOptions,
};
use crate::value_loader::{data_views, load_values, loaded_form, LoadError};
use crate::widget::{widget_views, Widget};
use vstd::prelude::*;

verus! {

/// What the form is opened with.
#[derive(Debug)]
pub struct SchematicUiInputParams {
    pub schema_path: String,
    pub schematic: String,
    pub package_name: String,
}

#[derive(Debug)]
pub enum SchematicUiInput {
    Show(SchematicUiInputParams),
    Submit,
    ShowSave(bool),
    ShowConfig,
    ShowBrowser,
    HideBrowser,
    Selected(usize, String),
    Saved(String),
    ConfigDone,
    CwdChanged(String),
}

#[derive(Debug)]
pub enum SchematicUiOutput {
    Params(Vec<Param>, bool),
    ShowExecutor,
}

/// What the caller of the form has to do after a message.
#[derive(Debug)]
pub enum UiAction {
    /// Forget the profiles that the browser lists, and build the form anew.
    Reset,
    /// Build the form anew.
    Rebuild,
    /// Hand the parameters to the owner of the form.
    Output(SchematicUiOutput),
    /// Open the dialog that saves a profile.
    ShowSave(SaveDialogInputParams),
    /// Open the browser of profiles.
    ShowBrowser(ProfileBrowserInputParams),
    /// Open the editor on the file `config_file` in `cwd`.
    ShowConfig { cwd: String, config_file: String },
}

/// Why a message could not be taken.
#[derive(Debug, Clone, Copy, PartialEq, Eq, Structural)]
pub enum UiError {
    Schema(ParseError),
    Load(LoadError),
}

/// The profile that the browser has loaded, as the caller found it: the
/// path of its file, its description, and its values.
#[derive(Debug, Clone, PartialEq)]
pub struct LoadedProfile {
    pub file: Option<String>,
    pub description: Option<String>,
    pub data: Vec<(String, String)>,
}

/// The form and its surroundings.
#[derive(Debug)]
pub struct SchematicUiModel {
    pub hidden: bool,
    pub loader: bool,
    pub form: Vec<Widget>,
    pub schematic: String,
    pub configurable: Option<ConfigurableSchematicOptions>,
    pub package_name: String,
    pub cwd: Option<String>,
    pub file: Option<String>,
    pub banner: Banner,
    pub has_directives: bool,
}

/// The file that a configurable schematic is configured in: the default of
/// its property `path`, where that is a text or a number.
pub open spec fn config_file_of(schema: SchemaView) -> Seq<char> {
    match schema.property("path"@) {
        Some(p) => match p.default {
            Some(d) => d.text(),
            None => Seq::empty(),
        },
        None => Seq::empty(),
    }
}

impl SchematicUiModel {
    /// Whether the form can be submitted: it needs no working directory, or
    /// has one.
    pub open spec fn submittable(self) -> bool {
        !self.has_directives || self.cwd is Some
    }

    /// The builder that reading the form gives.
    pub open spec fn read(self) -> BuilderView {
        collected(
            BuilderView {
                params: Seq::empty(),
                command: Seq::empty(),
                executable: Seq::empty(),
                options: OptionsView::initial(),
            },
            extracted_all(widget_views(self.form@)),
            option_name(self.configurable),
        )
    }

    /// A model without a form.
    pub fn new() -> (r: Self)
        ensures
            r.hidden,
            !r.loader,
            r.form@.len() == 0,
            r.configurable is None,
            r.cwd is None,
            r.file is None,
            !r.has_directives,
    {
        SchematicUiModel {
            hidden: true,
            form: Vec::new(),
            file: None,
            configurable: None,
            loader: false,
            cwd: None,
            schematic: String::new(),
            package_name: String::new(),
            banner: Banner::new(),
            has_directives: false,
        }
    }

    /// Whether the form can be submitted.
    pub fn can_submit(&self) -> (r: bool)
        ensures
            r == self.submittable(),
    {
        !self.has_directives || self.cwd.is_some()
    }

    /// The line that names the loaded profile.
    pub fn get_loaded_profile_file(loaded: &Option<String>) -> (r: String)
        ensures
            r@ == match opt_text(*loaded) {
                Some(p) => "Profile: "@ + p,
                None => "Profile: none"@,
            },
    {
        match loaded {
            None => "Profile: none".to_owned(),
            Some(p) => concat2("Profile: ", p.as_str()),
        }
    }

    /// Puts the widgets that the caller built, or read from the screen, in
    /// the place of the form.
    pub fn set_form(&mut self, form: Vec<Widget>)
        ensures
            *final(self) == (SchematicUiModel { form, ..*old(self) }),
    {
        self.form = form;
    }

    /// Takes a message. `content` is what the schema file of a `Show` holds,
    /// and `loaded` the profile that the browser has loaded. A schema that
    /// cannot be read and a profile that the form refuses are handed back as
    /// errors; the first leaves everything as it was.
    pub fn update(&mut self, message: SchematicUiInput, content: &str, loaded: &LoadedProfile) -> (r:
        Result<Option<UiAction>, UiError>)
        ensures
            match message {
                SchematicUiInput::Show(params) => match SchemaView::parsed(content@) {
                    Ok(schema) => {
                        &&& r matches Ok(Some(UiAction::Reset))
                        &&& final(self).has_directives == schema.has_directives()
                        &&& !final(self).hidden
                        &&& !final(self).loader
                        &&& !final(self).banner.success
                        &&& final(self).cwd is None
                        &&& final(self).file is None
                        &&& final(self).schematic == params.schematic
                        &&& final(self).package_name == params.package_name
                        &&& final(self).form == old(self).form
                        &&& match schema.configurable {
                            Some(option) => {
                                &&& final(self).configurable is Some
                                &&& final(self).configurable->0.config_option@ == option
                                &&& final(self).configurable->0.config_file@ == config_file_of(
                                    schema,
                                )
                            },
                            None => final(self).configurable is None,
                        }
                    },
                    Err(e) => {
                        &&& r matches Err(UiError::Schema(x))
                        &&& x == e
                        &&& *final(self) == *old(self)
                    },
                },
                SchematicUiInput::ShowSave(save_as) => {
                    &&& *final(self) == *old(self)
                    &&& r matches Ok(Some(UiAction::ShowSave(p)))
                    &&& p.form_data@ == old(self).read().to_toml()
                    &&& p.schematic@ == old(self).schematic@
                    &&& p.package_name@ == old(self).package_name@
                    &&& opt_text(p.file) == opt_text(loaded.file)
                    &&& opt_text(p.description) == if loaded.file is Some {
                        opt_text(loaded.description)
                    } else {
                        None
                    }
                    &&& p.auto_save == (loaded.file is Some && !save_as)
                },
                SchematicUiInput::ShowBrowser => {
                    &&& *final(self) == (SchematicUiModel { loader: true, ..*old(self) })
                    &&& r matches Ok(Some(UiAction::ShowBrowser(p)))
                    &&& p.schematic@ == old(self).schematic@
                    &&& p.package_name@ == old(self).package_name@
                    &&& !p.clear
                    &&& p.file is None
                },
                SchematicUiInput::HideBrowser => {
                    &&& r matches Ok(None)
                    &&& *final(self) == (SchematicUiModel { loader: false, ..*old(self) })
                },
                SchematicUiInput::ConfigDone => r matches Ok(None) && *final(self) == *old(self),
                SchematicUiInput::ShowConfig => {
                    &&& *final(self) == *old(self)
                    &&& r matches Ok(Some(UiAction::ShowConfig { cwd, config_file }))
                    &&& cwd@ == match old(self).cwd {
                        Some(c) => c@,
                        None => Seq::empty(),
                    }
                    &&& config_file@ == match old(self).configurable {
                        Some(c) => c.config_file@,
                        None => Seq::empty(),
                    }
                },
                SchematicUiInput::CwdChanged(path) => {
                    &&& r matches Ok(Some(UiAction::Rebuild))
                    &&& *final(self) == (SchematicUiModel { cwd: Some(path), ..*old(self) })
                },
                SchematicUiInput::Submit => {
                    &&& *final(self) == *old(self)
                    &&& r matches Ok(Some(UiAction::Output(SchematicUiOutput::Params(ps, c))))
                    &&& param_views(ps@) == old(self).read().to_params()
                    &&& c == (old(self).configurable is Some)
                },
                SchematicUiInput::Saved(file) => {
                    &&& final(self).file is Some
                    &&& final(self).file->0@ == file@
                    &&& final(self).banner.success
                    &&& final(self).banner.message@ == "Saved"@
                    &&& final(self).form == old(self).form
                    &&& r matches Ok(Some(UiAction::ShowBrowser(p)))
                    &&& p.schematic@ == old(self).schematic@
                    &&& p.package_name@ == old(self).package_name@
                    &&& !p.clear
                    &&& p.file is Some
                    &&& p.file->0@ == file@
                },
                SchematicUiInput::Selected(selected, file) => {
                    let outcome = loaded_form(
                        widget_views(old(self).form@),
                        data_views(loaded.data@),
                    );
                    &&& widget_views(final(self).form@) == outcome.0
                    &&& match outcome.1 {
                        Some(e) => {
                            &&& r matches Err(UiError::Load(x))
                            &&& x == e
                            &&& final(self).file == old(self).file
                        },
                        None => {
                            &&& r matches Ok(None)
                            &&& final(self).file == Some(file)
                        },
                    }
                    &&& final(self).hidden == old(self).hidden
                    &&& final(self).loader == old(self).loader
                    &&& final(self).cwd == old(self).cwd
                    &&& final(self).configurable == old(self).configurable
                    &&& final(self).has_directives == old(self).has_directives
                    &&& final(self).banner == old(self).banner
                },
            },
    {
        match message {
            SchematicUiInput::Show(params) => {
                let schema = match Schema::parse(content) {
                    Ok(s) => s,
                    Err(e) => {
                        return Err(UiError::Schema(e));
                    },
                };
                self.has_directives = schema.has_directives();
                self.configurable = None;
                self.cwd = None;
                self.file = None;
                self.banner.clear_success();
                self.hidden = false;
                self.loader = false;
                let path_default = match schema.get_property("path") {
                    Some(p) => match p.default {
                        Some(d) => d.into_string(),
                        None => String::new(),
                    },
                    None => String::new(),
                };
                match schema.configurable {
                    Some(option) => {
                        self.configurable = Some(
                            ConfigurableSchematicOptions::new(option, path_default),
                        );
                    },
                    None => {},
                }
                self.schematic = params.schematic;
                self.package_name = params.package_name;
                Ok(Some(UiAction::Reset))
            },
            SchematicUiInput::ShowSave(save_as) => {
                let command = extract_values(&self.form, &self.configurable);
                let is_loaded = loaded.file.is_some();
                let description = if is_loaded {
                    crate::schema_parsing::copy_opt_text(&loaded.description)
                } else {
                    None
                };
                Ok(
                    Some(
                        UiAction::ShowSave(
                            SaveDialogInputParams {
                                form_data: command.to_toml(),
                                schematic: self.schematic.clone(),
                                package_name: self.package_name.clone(),
                                file: crate::schema_parsing::copy_opt_text(&loaded.file),
                                description,
                                auto_save: is_loaded && !save_as,
                            },
                        ),
                    ),
                )
            },
            SchematicUiInput::ShowBrowser => {
                self.loader = true;
                Ok(
                    Some(
                        UiAction::ShowBrowser(
                            ProfileBrowserInputParams::new(
                                self.schematic.clone(),
                                self.package_name.clone(),
                                false,
                                None,
                            ),
                        ),
                    ),
                )
            },
            SchematicUiInput::HideBrowser => {
                self.loader = false;
                Ok(None)
            },
            SchematicUiInput::ConfigDone => Ok(None),
            SchematicUiInput::ShowConfig => {
                let cwd = match &self.cwd {
                    Some(c) => c.clone(),
                    None => String::new(),
                };
                let config_file = match &self.configurable {
                    Some(c) => c.config_file.clone(),
                    None => String::new(),
                };
                Ok(Some(UiAction::ShowConfig { cwd, config_file }))
            },
            SchematicUiInput::CwdChanged(path) => {
                self.cwd = Some(path);
                Ok(Some(UiAction::Rebuild))
            },
            SchematicUiInput::Submit => {
                let command = extract_values(&self.form, &self.configurable);
                Ok(
                    Some(
                        UiAction::Output(
                            SchematicUiOutput::Params(
                                command.to_params(),
                                self.configurable.is_some(),
                            ),
                        ),
                    ),
                )
            },
            SchematicUiInput::Saved(file) => {
                let action = UiAction::ShowBrowser(
                    ProfileBrowserInputParams::new(
                        self.schematic.clone(),
                        self.package_name.clone(),
                        false,
                        Some(file.clone()),
                    ),
                );
                self.file = Some(file);
                self.banner.print_success("Saved");
                Ok(Some(action))
            },
            SchematicUiInput::Selected(_selected, file) => {
                match load_values(&mut self.form, &loaded.data) {
                    Ok(()) => {
                        self.file = Some(file);
                        Ok(None)
                    },
                    Err(e) => Err(UiError::Load(e)),
                }
            },
        }
    }
}

} // verus!
