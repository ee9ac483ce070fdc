//! Turns the values collected from a form into command-line options and
//! into the lines of a saved profile.
//!
//! A parameter is transformed once, when it is added: its name is put into
//! the configured case (with `no-` in front for a `false` boolean that is not
//! passed as a value), and its value is escaped according to the kind of
//! widget it came from. Rendering then only lays the stored parameters out.

use crate::text::{concat2, concat3, join, joined, replace_chars, replaced, same_text};
use convert_case::Case;
use vstd::prelude::*;

verus! {

/// The kind of widget a value was read from.
#[derive(Debug, Clone, Copy, PartialEq, Eq, Structural)]
pub enum InputType {
    Text,
    TextArea,
    ColorButton,
    ColorInput,
    Date,
    File,
    Dir,
    Checkbox,
    Toggle,
    RadioGroup,
    ToggleGroup,
    DropDown,
    Combobox,
    Multiselect,
    Slider,
    Numeric,
    Switch,
    Time,
    DateTime,
}

impl Default for InputType {
    fn default() -> (r: Self)
        ensures
            r == InputType::Text,
    {
        InputType::Text
    }
}

impl InputType {
    /// Whether the kind holds a yes/no state.
    pub open spec fn is_boolean(self) -> bool {
        self == InputType::Checkbox || self == InputType::Switch || self == InputType::Toggle
    }

    /// Whether the kind holds a path in the file system.
    pub open spec fn is_path(self) -> bool {
        self == InputType::File || self == InputType::Dir
    }
}

/// One named value of the form, always held as text.
#[derive(Debug, PartialEq)]
pub struct Param {
    pub name: String,
    pub value: String,
    pub kind: InputType,
}

/// A parameter as contracts see it.
pub struct ParamView {
    pub name: Seq<char>,
    pub value: Seq<char>,
    pub kind: InputType,
}

impl View for Param {
    type V = ParamView;

    open spec fn view(&self) -> ParamView {
        ParamView { name: self.name@, value: self.value@, kind: self.kind }
    }
}

impl Clone for Param {
    fn clone(&self) -> (r: Self)
        ensures
            r@ == self@,
    {
        Param { name: self.name.clone(), value: self.value.clone(), kind: self.kind }
    }
}

impl Param {
    pub fn new(name: String, value: String, kind: InputType) -> (r: Self)
        ensures
            r.name == name,
            r.value == value,
            r.kind == kind,
    {
        Param { name, value, kind }
    }
}

impl Default for Param {
    fn default() -> (r: Self)
        ensures
            r@ == (ParamView { name: Seq::empty(), value: Seq::empty(), kind: InputType::Text }),
    {
        Param { kind: InputType::Text, name: String::new(), value: String::new() }
    }
}

/// The views of a list of parameters, element by element.
pub open spec fn param_views(v: Seq<Param>) -> Seq<ParamView> {
    Seq::new(v.len(), |i: int| v[i]@)
}

/// The case convention that option names are put into: each case of
/// `convert_case` whose outcome depends on the text alone, under the name
/// that it has there.
#[derive(Debug, Clone, Copy, PartialEq, Eq, Structural)]
pub enum OptionCase {
    Upper,
    Lower,
    Title,
    Toggle,
    Camel,
    Pascal,
    UpperCamel,
    Snake,
    UpperSnake,
    ScreamingSnake,
    Kebab,
    Cobol,
    UpperKebab,
    Train,
    Flat,
    UpperFlat,
    Alternating,
}

/// How parameters are transformed when they are added.
#[derive(Debug, Clone, PartialEq)]
pub struct CommandBuilderOptions {
    pub escape_multiline_text: bool,
    pub quote_paths: bool,
    pub option_case: OptionCase,
    pub pass_boolean: bool,
    pub configurable: Option<String>,
}

/// The options as contracts see them.
pub struct OptionsView {
    pub escape_multiline_text: bool,
    pub quote_paths: bool,
    pub option_case: OptionCase,
    pub pass_boolean: bool,
    pub configurable: Option<Seq<char>>,
}

impl View for CommandBuilderOptions {
    type V = OptionsView;

    open spec fn view(&self) -> OptionsView {
        OptionsView {
            escape_multiline_text: self.escape_multiline_text,
            quote_paths: self.quote_paths,
            option_case: self.option_case,
            pass_boolean: self.pass_boolean,
            configurable: match self.configurable {
                Some(s) => Some(s@),
                None => None,
            },
        }
    }
}

impl OptionsView {
    /// Nothing escaped or quoted, kebab case, booleans passed as values, no
    /// configurable option.
    pub open spec fn initial() -> OptionsView {
        OptionsView {
            escape_multiline_text: false,
            quote_paths: false,
            option_case: OptionCase::Kebab,
            pass_boolean: true,
            configurable: None,
        }
    }
}

impl Default for CommandBuilderOptions {
    fn default() -> (r: Self)
        ensures
            r@ == OptionsView::initial(),
    {
        CommandBuilderOptions {
            escape_multiline_text: false,
            quote_paths: false,
            pass_boolean: true,
            configurable: None,
            option_case: OptionCase::Kebab,
        }
    }
}

/// What `Casing::to_case` of `convert_case` makes of `text` for the case
/// that stands for `case`.
pub uninterp spec fn case_converted(text: Seq<char>, case: OptionCase) -> Seq<char>;

/// Calls `Casing::to_case` of `convert_case` on `text`, with the case of that
/// crate that has the same name as `case`. The crate splits the text into
/// words and joins them again in the pattern of the case; the result depends
/// on the text and the case alone, and is known to contracts only by name.
#[verifier::external_body]
fn to_case(text: &str, case: OptionCase) -> (r: String)
    ensures
        r@ == case_converted(text@, case),
{
    convert_case::Casing::to_case(&text, match case {
        OptionCase::Upper => Case::Upper, OptionCase::Lower => Case::Lower,
        OptionCase::Title => Case::Title, OptionCase::Toggle => Case::Toggle,
        OptionCase::Camel => Case::Camel, OptionCase::Pascal => Case::Pascal,
        OptionCase::UpperCamel => Case::UpperCamel, OptionCase::Snake => Case::Snake,
        OptionCase::UpperSnake => Case::UpperSnake,
        OptionCase::ScreamingSnake => Case::ScreamingSnake,
        OptionCase::Kebab => Case::Kebab, OptionCase::Cobol => Case::Cobol,
        OptionCase::UpperKebab => Case::UpperKebab, OptionCase::Train => Case::Train,
        OptionCase::Flat => Case::Flat, OptionCase::UpperFlat => Case::UpperFlat,
        OptionCase::Alternating => Case::Alternating,
    })
}

/// Multi-line text made fit for a command line: between backticks, each line
/// break written as a backslash and a new line; or, on one line, each line
/// break written as a space.
pub open spec fn escaped_text(multiline: bool, value: Seq<char>) -> Seq<char> {
    if multiline {
        "`"@ + replaced(value, seq!['\r', '\n'], "\\\n"@) + "`"@
    } else {
        replaced(value, seq!['\r', '\n'], " "@)
    }
}

/// A path between double quotes, each double quote inside it written with a
/// backslash in front.
pub open spec fn escaped_path(path: Seq<char>) -> Seq<char> {
    "\""@ + replaced(path, seq!['"'], "\\\""@) + "\""@
}

/// The name under which a parameter is stored.
pub open spec fn stored_name(o: OptionsView, p: ParamView) -> Seq<char> {
    if !o.pass_boolean && p.value == "false"@ {
        case_converted("no-"@ + p.name, o.option_case)
    } else {
        case_converted(p.name, o.option_case)
    }
}

/// The value under which a parameter is stored.
pub open spec fn stored_value(o: OptionsView, p: ParamView) -> Seq<char> {
    if p.kind.is_boolean() {
        if o.pass_boolean {
            p.value
        } else {
            Seq::empty()
        }
    } else if p.kind == InputType::TextArea {
        escaped_text(o.escape_multiline_text, p.value)
    } else if p.kind.is_path() {
        if o.quote_paths {
            escaped_path(p.value)
        } else {
            p.value
        }
    } else {
        p.value
    }
}

/// A parameter as it is stored.
pub open spec fn stored(o: OptionsView, p: ParamView) -> ParamView {
    ParamView { name: stored_name(o, p), value: stored_value(o, p), kind: p.kind }
}

/// The parameters that are named `name`, in their order.
pub open spec fn named(params: Seq<ParamView>, name: Seq<char>) -> Seq<ParamView>
    decreases params.len(),
{
    if params.len() == 0 {
        Seq::empty()
    } else if params.last().name == name {
        named(params.drop_last(), name).push(params.last())
    } else {
        named(params.drop_last(), name)
    }
}

/// The name under which the configurable option is looked for among the
/// stored parameters: its own name in the case of the options, as a
/// parameter of that name is stored.
pub open spec fn option_name(o: OptionsView, name: Seq<char>) -> Seq<char> {
    case_converted(name, o.option_case)
}

/// The parameters that are handed to the generator: all of them, or, where a
/// configurable option is set, only those stored under its name.
pub open spec fn submitted(params: Seq<ParamView>, o: OptionsView) -> Seq<ParamView> {
    match o.configurable {
        Some(name) => named(params, option_name(o, name)),
        None => params,
    }
}

/// One line of a profile: the name, an equals sign, the value in single quotes.
pub open spec fn profile_line(p: ParamView) -> Seq<char> {
    p.name + "='"@ + p.value + "'"@
}

/// One option of a command line: two dashes and the name, then, where there
/// is a value, the separator and the value.
pub open spec fn option_token(p: ParamView, separator: Seq<char>) -> Seq<char> {
    if p.value.len() == 0 {
        "--"@ + p.name
    } else {
        "--"@ + p.name + separator + p.value
    }
}

/// The profile lines of a list of parameters.
pub open spec fn profile_lines(params: Seq<ParamView>) -> Seq<Seq<char>> {
    Seq::new(params.len(), |i: int| profile_line(params[i]))
}

/// The command-line options of a list of parameters.
pub open spec fn option_tokens(params: Seq<ParamView>, separator: Seq<char>) -> Seq<Seq<char>> {
    Seq::new(params.len(), |i: int| option_token(params[i], separator))
}

/// The parameters that are named `name`, in their order.
pub fn those_named(params: &Vec<Param>, name: &str) -> (r: Vec<Param>)
    ensures
        param_views(r@) == named(param_views(params@), name@),
{
    let mut out: Vec<Param> = Vec::new();
    let mut i: usize = 0;
    let ghost all = param_views(params@);
    assert(param_views(out@) =~= Seq::empty());
    while i < params.len()
        invariant
            i <= params.len(),
            all == param_views(params@),
            param_views(out@) == named(all.take(i as int), name@),
        decreases params.len() - i,
    {
        let p = &params[i];
        proof {
            let next = all.take(i + 1);
            assert(next.drop_last() == all.take(i as int));
            assert(next.last() == p@);
        }
        let ghost before = param_views(out@);
        if same_text(name, p.name.as_str()) {
            out.push(p.clone());
            assert(param_views(out@) =~= before.push(p@));
        }
        i += 1;
    }
    proof {
        assert(all.take(params.len() as int) == all);
    }
    out
}

/// Collects parameters and renders them.
#[derive(Debug, Clone, PartialEq)]
pub struct CommandBuilder {
    pub params: Vec<Param>,
    pub command: String,
    pub executable: String,
    pub options: CommandBuilderOptions,
}

/// A builder as contracts see it.
pub struct BuilderView {
    pub params: Seq<ParamView>,
    pub command: Seq<char>,
    pub executable: Seq<char>,
    pub options: OptionsView,
}

impl View for CommandBuilder {
    type V = BuilderView;

    open spec fn view(&self) -> BuilderView {
        BuilderView {
            params: param_views(self.params@),
            command: self.command@,
            executable: self.executable@,
            options: self.options@,
        }
    }
}

impl BuilderView {
    /// The builder after one more parameter was added.
    pub open spec fn with_param(self, p: ParamView) -> BuilderView {
        BuilderView { params: self.params.push(stored(self.options, p)), ..self }
    }

    /// The builder after the parameters `ps[0..n]` were added in order.
    pub open spec fn with_params(self, ps: Seq<ParamView>) -> BuilderView
        decreases ps.len(),
    {
        if ps.len() == 0 {
            self
        } else {
            self.with_params(ps.drop_last()).with_param(ps.last())
        }
    }

    /// What is handed to the generator.
    pub open spec fn to_params(self) -> Seq<ParamView> {
        submitted(self.params, self.options)
    }

    /// The lines of a profile: every stored parameter, one per line.
    pub open spec fn to_toml(self) -> Seq<char> {
        joined(profile_lines(self.params), "\n"@)
    }

    /// The options of the command line, a space between neighbours.
    pub open spec fn to_string(self, separator: Seq<char>) -> Seq<char> {
        joined(option_tokens(self.to_params(), separator), " "@)
    }
}

impl CommandBuilder {
    /// An empty builder with the given options, or with the default ones.
    pub fn new(options: Option<CommandBuilderOptions>) -> (r: Self)
        ensures
            r@.params.len() == 0,
            r@.command.len() == 0,
            r@.executable.len() == 0,
            r@.options == match options {
                Some(o) => o@,
                None => OptionsView::initial(),
            },
    {
        let options = match options {
            Some(o) => o,
            None => CommandBuilderOptions::default(),
        };
        let r = CommandBuilder {
            params: Vec::new(),
            command: String::new(),
            executable: String::new(),
            options,
        };
        assert(r@.params =~= Seq::empty());
        r
    }

    /// Makes multi-line text fit for a command line.
    pub fn escape_str(&self, value: &str) -> (r: String)
        ensures
            r@ == escaped_text(self@.options.escape_multiline_text, value@),
    {
        let breaks: Vec<char> = vec!['\r', '\n'];
        assert(breaks@ =~= seq!['\r', '\n']);
        if self.options.escape_multiline_text {
            let body = replace_chars(value, &breaks, "\\\n");
            return concat3("`", body.as_str(), "`");
        }
        replace_chars(value, &breaks, " ")
    }

    /// Puts a path between double quotes.
    pub fn escape_path(&self, path: &str) -> (r: String)
        ensures
            r@ == escaped_path(path@),
    {
        let quotes: Vec<char> = vec!['"'];
        assert(quotes@ =~= seq!['"']);
        let body = replace_chars(path, &quotes, "\\\"");
        concat3("\"", body.as_str(), "\"")
    }

    /// The name under which `param` is stored.
    pub fn get_param_name(&self, param: &Param) -> (r: String)
        ensures
            r@ == stored_name(self@.options, param@),
    {
        if !self.options.pass_boolean && same_text(param.value.as_str(), "false") {
            let negated = concat2("no-", param.name.as_str());
            return to_case(negated.as_str(), self.options.option_case);
        }
        to_case(param.name.as_str(), self.options.option_case)
    }

    /// The value under which `param` is stored.
    pub fn get_param_value(&self, param: &Param) -> (r: String)
        ensures
            r@ == stored_value(self@.options, param@),
    {
        match param.kind {
            InputType::Checkbox | InputType::Switch | InputType::Toggle => {
                if !self.options.pass_boolean {
                    return String::new();
                }
                param.value.clone()
            },
            InputType::TextArea => self.escape_str(param.value.as_str()),
            InputType::File | InputType::Dir => {
                if self.options.quote_paths {
                    return self.escape_path(param.value.as_str());
                }
                param.value.clone()
            },
            _ => param.value.clone(),
        }
    }

    /// Names the option that, once set, is the only one submitted.
    pub fn set_configurable(&mut self, value: String)
        ensures
            final(self)@ == (BuilderView {
                options: OptionsView { configurable: Some(value@), ..old(self)@.options },
                ..old(self)@
            }),
    {
        self.options.configurable = Some(value);
    }

    /// The configurable option, or the empty string where none is set.
    pub fn get_configurable(&self) -> (r: String)
        ensures
            r@ == match self@.options.configurable {
                Some(name) => name,
                None => Seq::empty(),
            },
    {
        match &self.options.configurable {
            Some(name) => name.clone(),
            None => String::new(),
        }
    }

    /// Adds the parameters in order.
    pub fn set_params(&mut self, params: Vec<Param>)
        ensures
            final(self)@ == old(self)@.with_params(param_views(params@)),
    {
        let mut i: usize = 0;
        while i < params.len()
            invariant
                i <= params.len(),
                self@ == old(self)@.with_params(param_views(params@).take(i as int)),
            decreases params.len() - i,
        {
            proof {
                let next = param_views(params@).take(i + 1);
                assert(next.drop_last() == param_views(params@).take(i as int));
                assert(next.last() == params@[i as int]@);
            }
            self.add(params[i].clone());
            i += 1;
        }
        proof {
            assert(param_views(params@).take(params.len() as int) == param_views(params@));
        }
    }

    pub fn set_executable(&mut self, executable: String)
        ensures
            final(self)@ == (BuilderView { executable: executable@, ..old(self)@ }),
    {
        self.executable = executable;
    }

    pub fn get_executable(&self) -> (r: String)
        ensures
            r@ == self@.executable,
    {
        self.executable.clone()
    }

    pub fn set_command(&mut self, command: String)
        ensures
            final(self)@ == (BuilderView { command: command@, ..old(self)@ }),
    {
        self.command = command;
    }

    pub fn get_command(&self) -> (r: String)
        ensures
            r@ == self@.command,
    {
        self.command.clone()
    }

    /// Stores `param` at the end, its name and value transformed by the
    /// options as they stand at this moment.
    pub fn add(&mut self, param: Param)
        ensures
            final(self)@ == old(self)@.with_param(param@),
    {
        let name = self.get_param_name(&param);
        let value = self.get_param_value(&param);
        self.params.push(Param { name, value, kind: param.kind });
        assert(self@.params =~= old(self)@.params.push(stored(old(self)@.options, param@)));
    }

    /// What is handed to the generator: every stored parameter, or, where a
    /// configurable option is set, only those stored under its name. The
    /// option is looked for under the name that a parameter of its name is
    /// stored under, so in the case of the options.
    pub fn to_params(&self) -> (r: Vec<Param>)
        ensures
            param_views(r@) == self@.to_params(),
    {
        match &self.options.configurable {
            Some(name) => {
                let wanted = to_case(name.as_str(), self.options.option_case);
                those_named(&self.params, wanted.as_str())
            },
            None => {
                let all = self.params.clone();
                assert(param_views(all@) =~= param_views(self.params@));
                all
            },
        }
    }

    /// The lines of a profile: every stored parameter, filtered by nothing.
    pub fn to_toml(&self) -> (r: String)
        ensures
            r@ == self@.to_toml(),
    {
        let mut lines: Vec<String> = Vec::new();
        let mut i: usize = 0;
        while i < self.params.len()
            invariant
                i <= self.params.len(),
                crate::text::texts(lines@) =~= profile_lines(self@.params).take(i as int),
            decreases self.params.len() - i,
        {
            let p = &self.params[i];
            let mut line = concat2(p.name.as_str(), "='");
            line = concat3(line.as_str(), p.value.as_str(), "'");
            proof {
                assert(self@.params[i as int] == p@);
                assert(line@ =~= profile_line(p@));
            }
            let ghost before = crate::text::texts(lines@);
            lines.push(line);
            proof {
                assert(crate::text::texts(lines@) =~= before.push(line@));
                assert(profile_lines(self@.params).take(i + 1) =~= profile_lines(self@.params).take(
                    i as int,
                ).push(profile_line(p@)));
            }
            i += 1;
        }
        proof {
            assert(profile_lines(self@.params).take(self.params.len() as int) == profile_lines(
                self@.params,
            ));
        }
        join(&lines, "\n")
    }

    /// The options of the command line. The separator stands between a name
    /// and its value and is a space where none is given.
    pub fn to_string(&self, separator: Option<String>) -> (r: String)
        ensures
            r@ == self@.to_string(
                match separator {
                    Some(s) => s@,
                    None => " "@,
                },
            ),
    {
        let separator = match separator {
            Some(s) => s,
            None => " ".to_owned(),
        };
        let params = self.to_params();
        let mut tokens: Vec<String> = Vec::new();
        let mut i: usize = 0;
        let ghost wanted = option_tokens(self@.to_params(), separator@);
        while i < params.len()
            invariant
                i <= params.len(),
                param_views(params@) == self@.to_params(),
                wanted == option_tokens(self@.to_params(), separator@),
                crate::text::texts(tokens@) =~= wanted.take(i as int),
            decreases params.len() - i,
        {
            let p = &params[i];
            assert(param_views(params@)[i as int] == p@);
            let mut token = concat2("--", p.name.as_str());
            if p.value.as_str().unicode_len() > 0 {
                token = concat3(token.as_str(), separator.as_str(), p.value.as_str());
            }
            proof {
                assert(token@ =~= option_token(p@, separator@));
            }
            let ghost before = crate::text::texts(tokens@);
            tokens.push(token);
            proof {
                assert(crate::text::texts(tokens@) =~= before.push(token@));
                assert(wanted.take(i + 1) =~= wanted.take(i as int).push(option_token(p@, separator@)));
            }
            i += 1;
        }
        proof {
            assert(wanted.take(params.len() as int) == wanted);
        }
        join(&tokens, " ")
    }
}

/// The lines of a profile hold every stored parameter, whatever the
/// configurable option is.
pub proof fn lemma_profile_holds_everything(b: BuilderView, option: Option<Seq<char>>)
    ensures
        (BuilderView { options: OptionsView { configurable: option, ..b.options }, ..b }).to_toml()
            == b.to_toml(),
{
}

/// Among the parameters with a given name, each has that name, and there
/// are no more of them than there are parameters.
pub proof fn lemma_named_have_the_name(params: Seq<ParamView>, name: Seq<char>)
    ensures
        forall|i: int|
            0 <= i < named(params, name).len() ==> (#[trigger] named(params, name)[i]).name
                == name,
        named(params, name).len() <= params.len(),
    decreases params.len(),
{
    if params.len() > 0 {
        lemma_named_have_the_name(params.drop_last(), name);
        let head = named(params.drop_last(), name);
        assert forall|i: int| 0 <= i < named(params, name).len() implies (#[trigger] named(
            params,
            name,
        )[i]).name == name by {
            if i < head.len() {
                assert(named(params, name)[i] == head[i]);
            }
        }
    }
}

/// With a configurable option set, nothing but parameters stored under its
/// name is submitted; without one, everything is.
pub proof fn lemma_only_the_configurable_is_submitted(b: BuilderView)
    ensures
        match b.options.configurable {
            Some(name) => forall|i: int|
                0 <= i < b.to_params().len() ==> (#[trigger] b.to_params()[i]).name
                    == option_name(b.options, name),
            None => b.to_params() == b.params,
        },
{
    match b.options.configurable {
        Some(name) => {
            lemma_named_have_the_name(b.params, option_name(b.options, name));
        },
        None => {},
    }
}

/// With a configurable option set, a parameter that is added under the name
/// of the option is submitted, whatever the case of the options is, unless
/// its name is stored negated; one that is stored under another name is
/// not.
pub proof fn lemma_the_configurable_is_submitted(b: BuilderView, p: ParamView)
    requires
        b.options.configurable is Some,
    ensures
        p.name == b.options.configurable->0 && (b.options.pass_boolean || p.value != "false"@)
            ==> b.with_param(p).to_params() == b.to_params().push(stored(b.options, p)),
        stored_name(b.options, p) != option_name(b.options, b.options.configurable->0)
            ==> b.with_param(p).to_params() == b.to_params(),
{
    let after = b.params.push(stored(b.options, p));
    assert(after.drop_last() == b.params);
    assert(after.last() == stored(b.options, p));
}

/// A yes/no parameter that is not passed as a value becomes a bare flag: its
/// option is two dashes and its stored name, without separator and value,
/// and the stored name of one that says `false` is made from `no-` and its
/// name.
pub proof fn lemma_boolean_becomes_a_flag(o: OptionsView, p: ParamView, separator: Seq<char>)
    requires
        !o.pass_boolean,
        p.kind.is_boolean(),
    ensures
        option_token(stored(o, p), separator) == "--"@ + stored_name(o, p),
        p.value == "false"@ ==> stored_name(o, p) == case_converted("no-"@ + p.name, o.option_case),
        p.value != "false"@ ==> stored_name(o, p) == case_converted(p.name, o.option_case),
{
}

} // verus!
