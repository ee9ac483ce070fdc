//! Running a schematic and showing what it prints.
//!
//! The process itself is started by the caller. What is decided here is
//! whether it may be started, with which arguments, and what becomes of the
//! lines that it prints.

use crate::command_builder::{
    param_views, BuilderView, CommandBuilder, InputType, OptionsView, Param, ParamView,
};
use crate::settings_utils::{PathFacts, SettingsData};
use crate::text::{concat2, concat3, texts};
use crate::traits::{Banner, Validator};
use vstd::prelude::*;

verus! {

/// What the executor is opened with.
#[derive(Debug, Clone)]
pub struct SchematicExecutorInputParams {
    pub params: Vec<Param>,
    pub schematic: String,
    pub settings: SettingsData,
}

#[derive(Debug)]
pub enum SchematicExecutorInput {
    Show(SchematicExecutorInputParams),
    Execute,
    ClearOutput,
    AllowGoogleOptions(bool),
    SetCwd(String),
    CopyToClipboard,
    SetOutput(String),
    Done,
    SetErrorOutput(String),
}

#[derive(Debug)]
pub enum SchematicExecutorOutput {
    BackToUi,
    CwdChanged(String),
}

/// What the caller of the executor has to do after a message.
#[derive(Debug, PartialEq)]
pub enum ExecutorAction {
    /// Start `executable` in `cwd` with `args`, and hand its lines and its
    /// end back as messages.
    Run { executable: String, cwd: String, args: Vec<String> },
    /// Put `text` on the clipboard.
    Copy { text: String },
    /// Tell the owner of the executor that the working directory is `path`.
    CwdChanged { path: String },
}

/// What `strip_ansi_escapes::strip` leaves of the text `line`, read as UTF-8;
/// nothing where what it leaves is not UTF-8.
pub uninterp spec fn without_escapes(line: Seq<char>) -> Option<Seq<char>>;

/// Calls `strip_ansi_escapes::strip` on the bytes of `line` and reads the
/// bytes that it hands back as UTF-8 with `String::from_utf8`. The result
/// depends on the line alone.
#[verifier::external_body]
fn strip_outside(line: &str) -> (r: Option<String>)
    ensures
        crate::json::opt_text(r) == without_escapes(line@),
{
    String::from_utf8(strip_ansi_escapes::strip(line)).ok()
}

/// The arguments that submit the parameters: for each, two dashes and its
/// name, and then its value.
pub open spec fn arguments(params: Seq<ParamView>) -> Seq<Seq<char>>
    decreases params.len(),
{
    if params.len() == 0 {
        Seq::empty()
    } else {
        arguments(params.drop_last()).push("--"@ + params.last().name).push(params.last().value)
    }
}

/// What is wrong with the working directory, if anything.
pub open spec fn cwd_fault(cwd: Seq<char>, facts: PathFacts) -> Option<Seq<char>> {
    if cwd.len() == 0 {
        Some("The cwd field is mandatory!"@)
    } else if !facts.exists || !facts.is_dir {
        Some("The '"@ + cwd + "' doesn't exist or it's not a directory!"@)
    } else {
        None
    }
}

/// The two parameters that ask for a dry run.
pub open spec fn dry_run_params() -> Seq<ParamView> {
    seq![
        ParamView { name: "dry-run"@, value: "true"@, kind: InputType::Text },
        ParamView { name: "no-interactive"@, value: "true"@, kind: InputType::Text },
    ]
}

/// The builder of an executor that was just opened: a fresh one with the
/// schematic as its command and the runner as its executable, to which the
/// parameters were added.
pub open spec fn shown_builder(data: SchematicExecutorInputParams) -> BuilderView {
    let start = BuilderView {
        params: Seq::empty(),
        command: data.schematic@,
        executable: data.settings.runner_location@,
        options: OptionsView::initial(),
    };
    start.with_params(param_views(data.params@))
}

/// The executor.
#[derive(Debug)]
pub struct SchematicExecutorModel {
    pub hidden: bool,
    pub executing: bool,
    pub submitted: bool,
    pub builder: CommandBuilder,
    pub command: String,
    pub output: String,
    pub cwd: String,
    pub error_output: String,
    pub banner: Banner,
    pub settings: Option<SettingsData>,
    pub use_dry_run: bool,
}

impl SchematicExecutorModel {
    /// Whether the runner of the settings knows the options for a dry run.
    pub open spec fn dry_run_known(self) -> bool {
        match self.settings {
            Some(s) => s.runner == crate::settings_utils::Runner::Google || s.runner
                == crate::settings_utils::Runner::MBH,
            None => false,
        }
    }

    /// The parameters that a run submits: those of the builder, and the two
    /// for a dry run where one is asked for and the runner knows them.
    pub open spec fn submitted_params(self) -> Seq<ParamView> {
        if self.dry_run_known() && self.use_dry_run {
            self.builder@.to_params() + dry_run_params()
        } else {
            self.builder@.to_params()
        }
    }

    /// Whether nothing differs from `other` but, at most, the two outputs.
    pub open spec fn kept_but_for_output(self, other: SchematicExecutorModel) -> bool {
        &&& self.hidden == other.hidden
        &&& self.executing == other.executing
        &&& self.submitted == other.submitted
        &&& self.builder == other.builder
        &&& self.command == other.command
        &&& self.cwd == other.cwd
        &&& self.banner == other.banner
        &&& self.settings == other.settings
        &&& self.use_dry_run == other.use_dry_run
    }

    /// Whether nothing differs from `other` but, at most, the banner and
    /// whether a run was started.
    pub open spec fn kept_but_for_run(self, other: SchematicExecutorModel) -> bool {
        &&& self.hidden == other.hidden
        &&& self.builder == other.builder
        &&& self.command == other.command
        &&& self.output == other.output
        &&& self.cwd == other.cwd
        &&& self.error_output == other.error_output
        &&& self.settings == other.settings
        &&& self.use_dry_run == other.use_dry_run
    }

    /// An executor that is not shown.
    pub fn new() -> (r: Self)
        ensures
            r.hidden,
            !r.executing,
            !r.submitted,
            r.settings is None,
            !r.use_dry_run,
            r.builder@.params.len() == 0,
    {
        SchematicExecutorModel {
            hidden: true,
            executing: false,
            submitted: false,
            builder: CommandBuilder::new(None),
            command: String::new(),
            cwd: String::new(),
            output: String::new(),
            error_output: String::new(),
            banner: Banner::new(),
            settings: None,
            use_dry_run: false,
        }
    }

    /// A line of the process without its escape sequences; the line as it
    /// is where what is left of it is no text.
    pub fn clean_line(line: &str) -> (r: String)
        ensures
            r@ == match without_escapes(line@) {
                Some(text) => text,
                None => line@,
            },
    {
        match strip_outside(line) {
            Some(text) => text,
            None => line.to_owned(),
        }
    }

    /// Whether the runner of the settings knows the options for a dry run.
    pub fn has_dry_run(&self) -> (r: bool)
        ensures
            r == self.dry_run_known(),
    {
        match &self.settings {
            Some(s) => s.runner.has_dry_run(),
            None => false,
        }
    }

    /// Checks the working directory and tells the user what is wrong with
    /// it. Nothing but the banner changes.
    pub fn validate(&mut self, facts: PathFacts) -> (r: bool)
        ensures
            r == (cwd_fault(old(self).cwd@, facts) is None),
            final(self).kept_but_for_run(*old(self)),
            final(self).executing == old(self).executing,
            final(self).submitted == old(self).submitted,
            match cwd_fault(old(self).cwd@, facts) {
                Some(text) => {
                    &&& final(self).banner.error
                    &&& final(self).banner.success == old(self).banner.success
                    &&& final(self).banner.message@ == "Error: "@ + text
                },
                None => final(self).banner == old(self).banner,
            },
    {
        if self.cwd.as_str().unicode_len() == 0 {
            self.banner.print_error("The cwd field is mandatory!");
            return false;
        } else if !facts.exists || !facts.is_dir {
            let text = concat3("The '", self.cwd.as_str(), "' doesn't exist or it's not a directory!");
            self.banner.print_error(text.as_str());
            return false;
        }
        true
    }

    /// The arguments that submit the parameters.
    pub fn arguments_of(params: &Vec<Param>) -> (r: Vec<String>)
        ensures
            texts(r@) == arguments(param_views(params@)),
    {
        let mut out: Vec<String> = Vec::new();
        let mut i: usize = 0;
        assert(texts(out@) =~= Seq::empty());
        while i < params.len()
            invariant
                i <= params.len(),
                texts(out@) == arguments(param_views(params@).take(i as int)),
            decreases params.len() - i,
        {
            proof {
                let next = param_views(params@).take(i + 1);
                assert(next.drop_last() == param_views(params@).take(i as int));
                assert(next.last() == params@[i as int]@);
            }
            let ghost before = texts(out@);
            let flag = concat2("--", params[i].name.as_str());
            let value = params[i].value.clone();
            out.push(flag);
            out.push(value);
            assert(texts(out@) =~= before.push(flag@).push(value@));
            i += 1;
        }
        proof {
            assert(param_views(params@).take(params.len() as int) == param_views(params@));
        }
        out
    }

    /// Takes a message. `facts` is what the file system says of the working
    /// directory.
    pub fn update(&mut self, message: SchematicExecutorInput, facts: PathFacts) -> (r: Option<
        ExecutorAction,
    >)
        ensures
            match message {
                SchematicExecutorInput::Show(data) => {
                    &&& r is None
                    &&& !final(self).hidden
                    &&& !final(self).executing
                    &&& !final(self).submitted
                    &&& !final(self).banner.error
                    &&& final(self).banner.success == old(self).banner.success
                    &&& final(self).banner.message == old(self).banner.message
                    &&& final(self).output@.len() == 0
                    &&& final(self).error_output@.len() == 0
                    &&& final(self).settings is Some
                    &&& final(self).settings->0@ == data.settings@
                    &&& final(self).builder@ == shown_builder(data)
                    &&& final(self).command@ == data.settings.runner_location@ + " "@
                        + data.schematic@ + " "@ + final(self).builder@.to_string(" "@)
                    &&& final(self).cwd == old(self).cwd
                    &&& final(self).use_dry_run == old(self).use_dry_run
                },
                SchematicExecutorInput::Execute => match cwd_fault(old(self).cwd@, facts) {
                    Some(text) => {
                        &&& r is None
                        &&& final(self).banner.error
                        &&& final(self).banner.success == old(self).banner.success
                        &&& final(self).banner.message@ == "Error: "@ + text
                        &&& final(self).executing == old(self).executing
                        &&& final(self).submitted == old(self).submitted
                        &&& final(self).kept_but_for_run(*old(self))
                    },
                    None => {
                        &&& final(self).executing
                        &&& final(self).submitted
                        &&& !final(self).banner.error
                        &&& final(self).banner.success == old(self).banner.success
                        &&& final(self).banner.message == old(self).banner.message
                        &&& final(self).kept_but_for_run(*old(self))
                        &&& r matches Some(ExecutorAction::Run { executable, cwd, args })
                        &&& cwd@ == old(self).cwd@
                        &&& executable@ == match old(self).settings {
                            Some(s) => s.runner_location@,
                            None => Seq::empty(),
                        }
                        &&& texts(args@) == seq![old(self).builder@.command] + arguments(
                            old(self).submitted_params(),
                        )
                    },
                },
                SchematicExecutorInput::CopyToClipboard => {
                    &&& r matches Some(ExecutorAction::Copy { text })
                    &&& text@ == old(self).command@
                    &&& *final(self) == *old(self)
                },
                SchematicExecutorInput::AllowGoogleOptions(allow) => {
                    &&& r is None
                    &&& *final(self) == (SchematicExecutorModel { use_dry_run: allow, ..*old(self) })
                },
                SchematicExecutorInput::SetOutput(line) => {
                    &&& r is None
                    &&& final(self).output@ == old(self).output@ + line@ + "\n"@
                    &&& final(self).kept_but_for_output(*old(self))
                    &&& final(self).error_output == old(self).error_output
                },
                SchematicExecutorInput::SetErrorOutput(line) => {
                    &&& r is None
                    &&& final(self).error_output@ == old(self).error_output@ + line@ + "\n"@
                    &&& final(self).kept_but_for_output(*old(self))
                    &&& final(self).output == old(self).output
                },
                SchematicExecutorInput::Done => {
                    &&& r is None
                    &&& *final(self) == (SchematicExecutorModel { executing: false, ..*old(self) })
                },
                SchematicExecutorInput::ClearOutput => {
                    &&& r is None
                    &&& final(self).output@.len() == 0
                    &&& final(self).error_output@.len() == 0
                    &&& final(self).kept_but_for_output(*old(self))
                },
                SchematicExecutorInput::SetCwd(path) => {
                    &&& r matches Some(ExecutorAction::CwdChanged { path: p })
                    &&& p@ == path@
                    &&& final(self).cwd@ == path@
                    &&& final(self).output == old(self).output
                    &&& final(self).error_output == old(self).error_output
                    &&& final(self).kept_but_for_output(
                        SchematicExecutorModel { cwd: final(self).cwd, ..*old(self) },
                    )
                },
            },
    {
        match message {
            SchematicExecutorInput::Show(data) => {
                self.executing = false;
                self.submitted = false;
                self.output = String::new();
                self.error_output = String::new();
                self.banner.clear_error();
                self.hidden = false;
                let mut builder = CommandBuilder::new(None);
                let ghost params = param_views(data.params@);
                builder.set_command(data.schematic);
                builder.set_executable(data.settings.runner_location.clone());
                proof {
                    assert(builder@.params =~= Seq::empty());
                }
                let ghost start = builder@;
                builder.set_params(data.params);
                proof {
                    lemma_with_params_keeps_rest(start, start, params);
                }
                let head = concat3(
                    builder.get_executable().as_str(),
                    " ",
                    builder.get_command().as_str(),
                );
                let args = builder.to_string(None);
                self.command = concat3(head.as_str(), " ", args.as_str());
                self.builder = builder;
                self.settings = Some(data.settings);
                None
            },
            SchematicExecutorInput::Execute => {
                if !self.validate(facts) {
                    return None;
                }
                self.banner.clear_error();
                self.executing = true;
                self.submitted = true;
                let mut params = self.builder.to_params();
                if self.has_dry_run() && self.use_dry_run {
                    let ghost before = param_views(params@);
                    params.push(
                        Param::new("dry-run".to_owned(), "true".to_owned(), InputType::Text),
                    );
                    params.push(
                        Param::new("no-interactive".to_owned(), "true".to_owned(), InputType::Text),
                    );
                    assert(param_views(params@) =~= before + dry_run_params());
                }
                let mut args: Vec<String> = Vec::new();
                args.push(self.builder.get_command());
                let mut rest = SchematicExecutorModel::arguments_of(&params);
                let ghost tail = texts(rest@);
                args.append(&mut rest);
                assert(texts(args@) =~= seq![self.builder@.command] + tail);
                let executable = match &self.settings {
                    Some(s) => s.runner_location.clone(),
                    None => String::new(),
                };
                Some(ExecutorAction::Run { executable, cwd: self.cwd.clone(), args })
            },
            SchematicExecutorInput::CopyToClipboard => Some(
                ExecutorAction::Copy { text: self.command.clone() },
            ),
            SchematicExecutorInput::AllowGoogleOptions(allow) => {
                self.use_dry_run = allow;
                None
            },
            SchematicExecutorInput::SetOutput(line) => {
                self.output = concat3(self.output.as_str(), line.as_str(), "\n");
                None
            },
            SchematicExecutorInput::SetErrorOutput(line) => {
                self.error_output = concat3(self.error_output.as_str(), line.as_str(), "\n");
                None
            },
            SchematicExecutorInput::Done => {
                self.executing = false;
                None
            },
            SchematicExecutorInput::ClearOutput => {
                self.output = String::new();
                self.error_output = String::new();
                None
            },
            SchematicExecutorInput::SetCwd(path) => {
                self.cwd = path.clone();
                Some(ExecutorAction::CwdChanged { path })
            },
        }
    }
}

/// Adding parameters touches neither the command nor the executable nor the
/// options, and what is added does not depend on the first two.
pub proof fn lemma_with_params_keeps_rest(a: BuilderView, b: BuilderView, ps: Seq<ParamView>)
    requires
        a.params == b.params,
        a.options == b.options,
    ensures
        a.with_params(ps).params == b.with_params(ps).params,
        a.with_params(ps).options == a.options,
        b.with_params(ps).options == b.options,
        b.with_params(ps).command == b.command,
        b.with_params(ps).executable == b.executable,
    decreases ps.len(),
{
    if ps.len() > 0 {
        lemma_with_params_keeps_rest(a, b, ps.drop_last());
    }
}

} // verus!
