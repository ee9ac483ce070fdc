//! The schema of a schematic: its properties, their prompts and the widgets
//! that a property can ask for.
//!
//! A schema is read from a JSON document. The document itself and each
//! property must have the expected shape, or reading fails; inside a widget
//! configuration everything is read leniently.

use crate::json::{all_texts, opt_text, parse_json, json_document, JsonValue, JsonView};
use crate::pattern::{find_pattern, pattern_found};
use crate::primitive::{opt_primitive, Primitive, PrimitiveView};
use crate::schema_parsing::{
    copy_opt_text, read_text, text_or, ChoiceEntry, ChoiceEntryView, ColorEntry, ColorEntryView,
    DateEntry, DateEntryView, FsEntry, FsEntryView, MenuEntry, NumericEntry, NumericEntryView,
    TextEntry, TextEntryView,
};
use crate::text::{join, joined, lemma_empty_literal, same_text, texts};
use vstd::prelude::*;

verus! {

/// Why a schema could not be read.
#[derive(Debug, Clone, Copy, PartialEq, Eq, Structural)]
pub enum ParseError {
    /// The text is not a JSON document.
    Json,
    /// The document has not the shape of a schema.
    Document,
    /// A property has not the shape of a property.
    Property,
}

/// One choice of a prompt: what is shown and what is submitted.
#[derive(Debug, Clone, PartialEq)]
pub struct SchemaItem {
    pub label: String,
    pub value: Primitive,
}

pub struct SchemaItemView {
    pub label: Seq<char>,
    pub value: PrimitiveView,
}

impl View for SchemaItem {
    type V = SchemaItemView;

    open spec fn view(&self) -> SchemaItemView {
        SchemaItemView { label: self.label@, value: self.value@ }
    }
}

/// The views of a list of choices, element by element.
pub open spec fn item_views(v: Seq<SchemaItem>) -> Seq<SchemaItemView> {
    Seq::new(v.len(), |i: int| v[i]@)
}

impl SchemaItemView {
    /// A choice is an object with the members `label` and `value`.
    pub open spec fn read(v: JsonView) -> Option<SchemaItemView> {
        match (v.member("label"@), v.member("value"@)) {
            (Some(_), Some(x)) => Some(
                SchemaItemView {
                    label: text_or(v, "label"@, Seq::empty()),
                    value: PrimitiveView::of(x),
                },
            ),
            _ => None,
        }
    }

    /// The choices of a list, if every element is a choice.
    pub open spec fn read_all(items: Seq<JsonView>) -> Option<Seq<SchemaItemView>>
        decreases items.len(),
    {
        if items.len() == 0 {
            Some(Seq::empty())
        } else {
            match (SchemaItemView::read_all(items.drop_last()), SchemaItemView::read(items.last())) {
                (Some(head), Some(m)) => Some(head.push(m)),
                _ => None,
            }
        }
    }
}

/// What the choices submit, as texts.
pub open spec fn shown_values(items: Seq<SchemaItemView>) -> Seq<Seq<char>> {
    Seq::new(items.len(), |i: int| items[i].value.shown())
}

/// A list is not made of choices where one of its beginnings is not.
pub proof fn lemma_items_prefix(items: Seq<JsonView>, n: int)
    requires
        0 <= n <= items.len(),
        SchemaItemView::read_all(items.take(n)) is None,
    ensures
        SchemaItemView::read_all(items) is None,
    decreases items.len() - n,
{
    if n < items.len() {
        assert(items.take(n + 1).drop_last() == items.take(n));
        lemma_items_prefix(items, n + 1);
    } else {
        assert(items.take(n) == items);
    }
}

impl SchemaItem {
    pub fn from_json(v: &JsonValue) -> (r: Option<SchemaItem>)
        ensures
            match SchemaItemView::read(v@) {
                Some(e) => r is Some && r->0@ == e,
                None => r is None,
            },
    {
        proof {
            lemma_empty_literal();
        }
        match (v.get("label"), v.get("value")) {
            (Some(_), Some(x)) => Some(
                SchemaItem { label: read_text(v, "label", ""), value: Primitive::from_json(x) },
            ),
            _ => None,
        }
    }

    /// A copy with the same content.
    pub fn duplicate(&self) -> (r: SchemaItem)
        ensures
            r@ == self@,
    {
        SchemaItem { label: self.label.clone(), value: self.value.duplicate() }
    }
}

/// The choices of a prompt: a single text (which may be a directive), a list
/// of texts, or a list of labelled values.
#[derive(Debug, Clone, PartialEq)]
pub enum VecOrString {
    Str(String),
    StringVec(Vec<String>),
    ItemVec(Vec<SchemaItem>),
}

pub enum VecOrStringView {
    Str(Seq<char>),
    StringVec(Seq<Seq<char>>),
    ItemVec(Seq<SchemaItemView>),
}

impl View for VecOrString {
    type V = VecOrStringView;

    open spec fn view(&self) -> VecOrStringView {
        match self {
            VecOrString::Str(s) => VecOrStringView::Str(s@),
            VecOrString::StringVec(v) => VecOrStringView::StringVec(texts(v@)),
            VecOrString::ItemVec(v) => VecOrStringView::ItemVec(item_views(v@)),
        }
    }
}

impl VecOrStringView {
    pub open spec fn read(v: JsonView) -> Option<VecOrStringView> {
        match v {
            JsonView::Text(s) => Some(VecOrStringView::Str(s)),
            JsonView::Array(items) => match all_texts(items) {
                Some(l) => Some(VecOrStringView::StringVec(l)),
                None => match SchemaItemView::read_all(items) {
                    Some(l) => Some(VecOrStringView::ItemVec(l)),
                    None => None,
                },
            },
            _ => None,
        }
    }

    /// The choices as a list of texts.
    pub open spec fn list(self) -> Seq<Seq<char>> {
        match self {
            VecOrStringView::Str(s) => seq![s],
            VecOrStringView::StringVec(l) => l,
            VecOrStringView::ItemVec(l) => shown_values(l),
        }
    }

    /// The choices as one text, commas between them.
    pub open spec fn text(self) -> Seq<char> {
        joined(self.list(), ","@)
    }
}

impl VecOrString {
    pub fn from_json(v: &JsonValue) -> (r: Option<VecOrString>)
        ensures
            match VecOrStringView::read(v@) {
                Some(e) => r is Some && r->0@ == e,
                None => r is None,
            },
    {
        match v {
            JsonValue::Text(s) => Some(VecOrString::Str(s.clone())),
            JsonValue::Array(a) => {
                match v.as_texts() {
                    Some(l) => Some(VecOrString::StringVec(l)),
                    None => {
                        let ghost items = v@->Array_0;
                        let mut out: Vec<SchemaItem> = Vec::new();
                        let mut i: usize = 0;
                        assert(item_views(out@) =~= Seq::empty());
                        while i < a.len()
                            invariant
                                i <= a.len(),
                                items.len() == a@.len(),
                                v@ == JsonView::Array(items),
                                all_texts(items) is None,
                                forall|j: int| 0 <= j < a@.len() ==> items[j] == a@[j]@,
                                SchemaItemView::read_all(items.take(i as int)) == Some(
                                    item_views(out@),
                                ),
                            decreases a.len() - i,
                        {
                            proof {
                                assert(items.take(i + 1).drop_last() == items.take(i as int));
                            }
                            match SchemaItem::from_json(&a[i]) {
                                Some(m) => {
                                    let ghost before = item_views(out@);
                                    out.push(m);
                                    assert(item_views(out@) =~= before.push(m@));
                                },
                                None => {
                                    proof {
                                        lemma_items_prefix(items, i + 1);
                                    }
                                    return None;
                                },
                            }
                            i += 1;
                        }
                        proof {
                            assert(items.take(a.len() as int) == items);
                        }
                        Some(VecOrString::ItemVec(out))
                    },
                }
            },
            _ => None,
        }
    }

    /// The choices as a list of texts.
    pub fn to_strings(&self) -> (r: Vec<String>)
        ensures
            texts(r@) == self@.list(),
    {
        match self {
            VecOrString::Str(s) => {
                let mut out: Vec<String> = Vec::new();
                out.push(s.clone());
                assert(texts(out@) =~= seq![s@]);
                out
            },
            VecOrString::StringVec(v) => crate::primitive::copy_texts(v),
            VecOrString::ItemVec(v) => {
                let mut out: Vec<String> = Vec::new();
                let mut i: usize = 0;
                while i < v.len()
                    invariant
                        i <= v.len(),
                        texts(out@) =~= shown_values(item_views(v@)).take(i as int),
                    decreases v.len() - i,
                {
                    let ghost before = texts(out@);
                    let shown = v[i].value.to_string();
                    out.push(shown);
                    proof {
                        assert(texts(out@) =~= before.push(shown@));
                        assert(item_views(v@)[i as int] == v@[i as int]@);
                        assert(shown_values(item_views(v@)).take(i + 1) =~= shown_values(
                            item_views(v@),
                        ).take(i as int).push(shown@));
                    }
                    i += 1;
                }
                proof {
                    assert(shown_values(item_views(v@)).take(v.len() as int) == shown_values(
                        item_views(v@),
                    ));
                }
                out
            },
        }
    }

    /// The choices as one text, commas between them.
    pub fn to_string(&self) -> (r: String)
        ensures
            r@ == self@.text(),
    {
        let list = self.to_strings();
        join(&list, ",")
    }

    /// A copy with the same content.
    pub fn duplicate(&self) -> (r: VecOrString)
        ensures
            r@ == self@,
    {
        match self {
            VecOrString::Str(s) => VecOrString::Str(s.clone()),
            VecOrString::StringVec(v) => VecOrString::StringVec(crate::primitive::copy_texts(v)),
            VecOrString::ItemVec(v) => {
                let mut out: Vec<SchemaItem> = Vec::new();
                let mut i: usize = 0;
                while i < v.len()
                    invariant
                        i <= v.len(),
                        item_views(out@) =~= item_views(v@).take(i as int),
                    decreases v.len() - i,
                {
                    let ghost before = item_views(out@);
                    let item = v[i].duplicate();
                    out.push(item);
                    proof {
                        assert(item_views(out@) =~= before.push(item@));
                        assert(item_views(v@).take(i + 1) =~= item_views(v@).take(i as int).push(
                            v@[i as int]@,
                        ));
                    }
                    i += 1;
                }
                proof {
                    assert(item_views(v@).take(v.len() as int) == item_views(v@));
                }
                VecOrString::ItemVec(out)
            },
        }
    }
}

/// A prompt in its long form.
#[derive(Debug, Clone, PartialEq)]
pub struct XPrompt {
    pub kind: String,
    pub message: String,
    pub multiselect: Option<bool>,
    pub items: Option<VecOrString>,
}

pub struct XPromptView {
    pub kind: Seq<char>,
    pub message: Seq<char>,
    pub multiselect: Option<bool>,
    pub items: Option<VecOrStringView>,
}

/// The view of choices that may not be there.
pub open spec fn opt_items(i: Option<VecOrString>) -> Option<VecOrStringView> {
    match i {
        Some(x) => Some(x@),
        None => None,
    }
}

impl View for XPrompt {
    type V = XPromptView;

    open spec fn view(&self) -> XPromptView {
        XPromptView {
            kind: self.kind@,
            message: self.message@,
            multiselect: self.multiselect,
            items: opt_items(self.items),
        }
    }
}

impl XPromptView {
    /// A prompt is an object with the texts `type` and `message`; `multiselect`
    /// is a truth value where it is there, and `items` are choices where they
    /// are there.
    pub open spec fn read(v: JsonView) -> Option<XPromptView> {
        match (v.member("type"@), v.member("message"@)) {
            (Some(JsonView::Text(kind)), Some(JsonView::Text(message))) => {
                let multiselect = match v.present("multiselect"@) {
                    None => Some(None),
                    Some(JsonView::Bool(b)) => Some(Some(b)),
                    Some(_) => None,
                };
                let items = match v.present("items"@) {
                    None => Some(None),
                    Some(x) => match VecOrStringView::read(x) {
                        Some(i) => Some(Some(i)),
                        None => None,
                    },
                };
                match (multiselect, items) {
                    (Some(m), Some(i)) => Some(
                        XPromptView { kind, message, multiselect: m, items: i },
                    ),
                    _ => None,
                }
            },
            _ => None,
        }
    }

    /// Whether the prompt asks for a list of which several items can be
    /// chosen.
    pub open spec fn has_multiselect(self) -> bool {
        self.multiselect == Some(true)
    }

    pub open spec fn has_items(self) -> bool {
        self.items is Some
    }
}

impl XPrompt {
    pub fn from_json(v: &JsonValue) -> (r: Option<XPrompt>)
        ensures
            match XPromptView::read(v@) {
                Some(e) => r is Some && r->0@ == e,
                None => r is None,
            },
    {
        match (v.get("type"), v.get("message")) {
            (Some(JsonValue::Text(kind)), Some(JsonValue::Text(message))) => {
                let multiselect = match v.get_present("multiselect") {
                    None => None,
                    Some(JsonValue::Bool(b)) => Some(*b),
                    Some(_) => {
                        return None;
                    },
                };
                let items = match v.get_present("items") {
                    None => None,
                    Some(x) => match VecOrString::from_json(x) {
                        Some(i) => Some(i),
                        None => {
                            return None;
                        },
                    },
                };
                Some(XPrompt { kind: kind.clone(), message: message.clone(), multiselect, items })
            },
            _ => None,
        }
    }

    /// Whether the prompt asks for a list of which several items can be
    /// chosen.
    pub fn has_multiselect(&self) -> (r: bool)
        ensures
            r == self@.has_multiselect(),
    {
        match self.multiselect {
            Some(several) => several,
            None => false,
        }
    }

    /// Whether the prompt brings choices.
    pub fn has_items(&self) -> (r: bool)
        ensures
            r == self@.has_items(),
    {
        self.items.is_some()
    }

    /// A copy with the same content.
    pub fn duplicate(&self) -> (r: XPrompt)
        ensures
            r@ == self@,
    {
        XPrompt {
            kind: self.kind.clone(),
            message: self.message.clone(),
            multiselect: self.multiselect,
            items: match &self.items {
                Some(i) => Some(i.duplicate()),
                None => None,
            },
        }
    }
}

/// The expression that finds a directory directive and its path.
pub open spec fn dir_pattern() -> Seq<char> {
    "\\$dir:([a-zA-Z0-9\\/\\-]+)"@
}

/// The expression that finds a file directive and its path.
pub open spec fn files_pattern() -> Seq<char> {
    "\\$files:([a-zA-Z0-9\\/\\-]+)"@
}

/// A prompt: a bare message, or the long form.
#[derive(Debug, Clone, PartialEq)]
pub enum StringOrPrompt {
    Str(String),
    Prompt(XPrompt),
}

pub enum StringOrPromptView {
    Str(Seq<char>),
    Prompt(XPromptView),
}

impl View for StringOrPrompt {
    type V = StringOrPromptView;

    open spec fn view(&self) -> StringOrPromptView {
        match self {
            StringOrPrompt::Str(s) => StringOrPromptView::Str(s@),
            StringOrPrompt::Prompt(p) => StringOrPromptView::Prompt(p@),
        }
    }
}

impl StringOrPromptView {
    pub open spec fn read(v: JsonView) -> Option<StringOrPromptView> {
        match v {
            JsonView::Text(s) => Some(StringOrPromptView::Str(s)),
            _ => match XPromptView::read(v) {
                Some(p) => Some(StringOrPromptView::Prompt(p)),
                None => None,
            },
        }
    }

    /// The choices of the long form, where it brings any.
    pub open spec fn items(self) -> Option<VecOrStringView> {
        match self {
            StringOrPromptView::Prompt(p) => p.items,
            _ => None,
        }
    }

    /// Whether the choices are the directive `directive` itself or, where
    /// `found` tells of a search in their text, the search found something.
    pub open spec fn names_directive(self, directive: Seq<char>, found: Option<bool>) -> bool {
        match self.items() {
            Some(i) => i == VecOrStringView::Str(directive) || found == Some(true),
            None => false,
        }
    }

    /// The text in which a directive with a path is searched.
    pub open spec fn searched(self) -> Seq<char> {
        match self.items() {
            Some(i) => i.text(),
            None => Seq::empty(),
        }
    }

    pub open spec fn has_multiselect(self) -> bool {
        match self {
            StringOrPromptView::Prompt(p) => p.has_multiselect(),
            _ => false,
        }
    }

    pub open spec fn has_items(self) -> bool {
        self.items() is Some
    }

    pub open spec fn has_modules(self) -> bool {
        self.names_directive("$modules"@, None)
    }

    pub open spec fn has_models(self) -> bool {
        self.names_directive("$models"@, None)
    }

    pub open spec fn has_dirs(self) -> bool {
        self.names_directive("$dir"@, pattern_found(dir_pattern(), self.searched()))
    }

    pub open spec fn has_files(self) -> bool {
        self.names_directive("$files"@, pattern_found(files_pattern(), self.searched()))
    }

    /// The choices as a list of texts; none for a bare message.
    pub open spec fn list(self) -> Seq<Seq<char>> {
        match self.items() {
            Some(i) => i.list(),
            None => Seq::empty(),
        }
    }

    /// What the label of the property says.
    pub open spec fn message(self) -> Seq<char> {
        match self {
            StringOrPromptView::Str(s) => s,
            StringOrPromptView::Prompt(p) => p.message,
        }
    }
}

/// The view of a prompt that may not be there.
pub open spec fn opt_prompt(p: Option<StringOrPrompt>) -> Option<StringOrPromptView> {
    match p {
        Some(x) => Some(x@),
        None => None,
    }
}

impl StringOrPrompt {
    pub fn from_json(v: &JsonValue) -> (r: Option<StringOrPrompt>)
        ensures
            match StringOrPromptView::read(v@) {
                Some(e) => r is Some && r->0@ == e,
                None => r is None,
            },
    {
        match v {
            JsonValue::Text(s) => Some(StringOrPrompt::Str(s.clone())),
            _ => match XPrompt::from_json(v) {
                Some(p) => Some(StringOrPrompt::Prompt(p)),
                None => None,
            },
        }
    }

    /// Whether the choices are the directive `directive` itself or the search
    /// of which `found` tells found something.
    pub fn names_directive(&self, directive: &str, found: Option<bool>) -> (r: bool)
        ensures
            r == self@.names_directive(directive@, found),
    {
        match self {
            StringOrPrompt::Prompt(x) => match &x.items {
                Some(items) => {
                    let exact = match items {
                        VecOrString::Str(s) => same_text(s.as_str(), directive),
                        _ => false,
                    };
                    exact || match found {
                        Some(b) => b,
                        None => false,
                    }
                },
                None => false,
            },
            _ => false,
        }
    }

    /// The text in which a directive with a path is searched.
    pub fn searched(&self) -> (r: String)
        ensures
            r@ == self@.searched(),
    {
        match self {
            StringOrPrompt::Prompt(x) => match &x.items {
                Some(items) => items.to_string(),
                None => String::new(),
            },
            _ => String::new(),
        }
    }

    /// Whether the choices are the directive `directive` itself or hold a
    /// match of the expression `pattern`.
    fn has_directive(&self, directive: &str, pattern: Option<&str>) -> (r: bool)
        ensures
            r == self@.names_directive(
                directive@,
                match pattern {
                    Some(p) => pattern_found(p@, self@.searched()),
                    None => None,
                },
            ),
    {
        let found = match pattern {
            Some(p) => {
                let text = self.searched();
                find_pattern(p, text.as_str())
            },
            None => None,
        };
        self.names_directive(directive, found)
    }

    pub fn has_multiselect(&self) -> (r: bool)
        ensures
            r == self@.has_multiselect(),
    {
        match self {
            StringOrPrompt::Prompt(x) => x.has_multiselect(),
            _ => false,
        }
    }

    /// Whether the choices are the modules of the project.
    pub fn has_modules(&self) -> (r: bool)
        ensures
            r == self@.has_modules(),
    {
        self.has_directive("$modules", None)
    }

    /// Whether the choices are the models of the project.
    pub fn has_models(&self) -> (r: bool)
        ensures
            r == self@.has_models(),
    {
        self.has_directive("$models", None)
    }

    /// Whether the choices are the directories under some path.
    pub fn has_dirs(&self) -> (r: bool)
        ensures
            r == self@.has_dirs(),
    {
        self.has_directive("$dir", Some("\\$dir:([a-zA-Z0-9\\/\\-]+)"))
    }

    /// Whether the choices are the files under some path.
    pub fn has_files(&self) -> (r: bool)
        ensures
            r == self@.has_files(),
    {
        self.has_directive("$files", Some("\\$files:([a-zA-Z0-9\\/\\-]+)"))
    }

    pub fn has_items(&self) -> (r: bool)
        ensures
            r == self@.has_items(),
    {
        match self {
            StringOrPrompt::Prompt(x) => x.has_items(),
            _ => false,
        }
    }

    /// What stands in for choices that cannot be listed yet.
    pub fn get_items_placeholder(&self) -> (r: Vec<String>)
        ensures
            texts(r@) == seq!["Select current working directory!"@],
    {
        let mut out: Vec<String> = Vec::new();
        out.push("Select current working directory!".to_owned());
        assert(texts(out@) =~= seq!["Select current working directory!"@]);
        out
    }

    /// The choices as a list of texts; none for a bare message or a prompt
    /// without choices.
    pub fn get_items(&self) -> (r: Vec<String>)
        ensures
            texts(r@) == self@.list(),
    {
        match self {
            StringOrPrompt::Prompt(x) => match &x.items {
                Some(items) => items.to_strings(),
                None => {
                    let none: Vec<String> = Vec::new();
                    assert(texts(none@) =~= Seq::empty());
                    none
                },
            },
            _ => {
                let none: Vec<String> = Vec::new();
                assert(texts(none@) =~= Seq::empty());
                none
            },
        }
    }

    /// A copy with the same content.
    pub fn duplicate(&self) -> (r: StringOrPrompt)
        ensures
            r@ == self@,
    {
        match self {
            StringOrPrompt::Str(s) => StringOrPrompt::Str(s.clone()),
            StringOrPrompt::Prompt(p) => StringOrPrompt::Prompt(p.duplicate()),
        }
    }
}

/// What the elements of an array property may be.
#[derive(Debug, Clone, PartialEq)]
pub struct SchemaPropItem {
    pub enum_values: Vec<String>,
    pub kind: String,
}

pub struct SchemaPropItemView {
    pub enum_values: Seq<Seq<char>>,
    pub kind: Seq<char>,
}

impl View for SchemaPropItem {
    type V = SchemaPropItemView;

    open spec fn view(&self) -> SchemaPropItemView {
        SchemaPropItemView { enum_values: texts(self.enum_values@), kind: self.kind@ }
    }
}

impl SchemaPropItemView {
    /// An object with the members `enum` and `type`; an `enum` that is not a
    /// list of texts counts as empty, a `type` that is not a text as empty.
    pub open spec fn read(v: JsonView) -> Option<SchemaPropItemView> {
        match (v.member("enum"@), v.member("type"@)) {
            (Some(e), Some(_)) => Some(
                SchemaPropItemView {
                    enum_values: match e.text_list() {
                        Some(l) => l,
                        None => Seq::empty(),
                    },
                    kind: text_or(v, "type"@, Seq::empty()),
                },
            ),
            _ => None,
        }
    }
}

impl SchemaPropItem {
    pub fn from_json(v: &JsonValue) -> (r: Option<SchemaPropItem>)
        ensures
            match SchemaPropItemView::read(v@) {
                Some(e) => r is Some && r->0@ == e,
                None => r is None,
            },
    {
        proof {
            lemma_empty_literal();
        }
        match (v.get("enum"), v.get("type")) {
            (Some(e), Some(_)) => {
                let enum_values = match e.as_texts() {
                    Some(l) => l,
                    None => {
                        let none: Vec<String> = Vec::new();
                        assert(texts(none@) =~= Seq::empty());
                        none
                    },
                };
                Some(SchemaPropItem { enum_values, kind: read_text(v, "type", "") })
            },
            _ => None,
        }
    }

    /// A copy with the same content.
    pub fn duplicate(&self) -> (r: SchemaPropItem)
        ensures
            r@ == self@,
    {
        SchemaPropItem {
            enum_values: crate::primitive::copy_texts(&self.enum_values),
            kind: self.kind.clone(),
        }
    }
}

/// The widget that a property asks for, with its configuration.
#[derive(Debug, Clone, PartialEq)]
pub enum XWidgetType {
    Text(TextEntry),
    Numeric(NumericEntry),
    Date(DateEntry),
    Color(ColorEntry),
    File(FsEntry),
    Dir(FsEntry),
    Choice(ChoiceEntry),
    Menu(MenuEntry),
}

pub enum XWidgetTypeView {
    Text(TextEntryView),
    Numeric(NumericEntryView),
    Date(DateEntryView),
    Color(ColorEntryView),
    File(FsEntryView),
    Dir(FsEntryView),
    Choice(ChoiceEntryView),
    Menu(MenuEntry),
}

impl View for XWidgetType {
    type V = XWidgetTypeView;

    open spec fn view(&self) -> XWidgetTypeView {
        match self {
            XWidgetType::Text(e) => XWidgetTypeView::Text(e@),
            XWidgetType::Numeric(e) => XWidgetTypeView::Numeric(e@),
            XWidgetType::Date(e) => XWidgetTypeView::Date(e@),
            XWidgetType::Color(e) => XWidgetTypeView::Color(e@),
            XWidgetType::File(e) => XWidgetTypeView::File(e@),
            XWidgetType::Dir(e) => XWidgetTypeView::Dir(e@),
            XWidgetType::Choice(e) => XWidgetTypeView::Choice(e@),
            XWidgetType::Menu(e) => XWidgetTypeView::Menu(*e),
        }
    }
}

impl XWidgetTypeView {
    /// A one-line text with the default configuration.
    pub open spec fn initial() -> XWidgetTypeView {
        XWidgetTypeView::Text(TextEntryView::initial())
    }

    /// The widget that the single member `kind` with the value `config` asks
    /// for.
    pub open spec fn of_member(kind: Seq<char>, config: JsonView) -> Option<XWidgetTypeView> {
        if kind == "text"@ {
            match TextEntryView::read(config) {
                Some(e) => Some(XWidgetTypeView::Text(e)),
                None => None,
            }
        } else if kind == "numeric"@ {
            match NumericEntryView::read(config) {
                Some(e) => Some(XWidgetTypeView::Numeric(e)),
                None => None,
            }
        } else if kind == "date"@ {
            match DateEntryView::read(config) {
                Some(e) => Some(XWidgetTypeView::Date(e)),
                None => None,
            }
        } else if kind == "color"@ {
            match ColorEntryView::read(config) {
                Some(e) => Some(XWidgetTypeView::Color(e)),
                None => None,
            }
        } else if kind == "file"@ {
            match FsEntryView::read(config) {
                Some(e) => Some(XWidgetTypeView::File(e)),
                None => None,
            }
        } else if kind == "dir"@ {
            match FsEntryView::read(config) {
                Some(e) => Some(XWidgetTypeView::Dir(e)),
                None => None,
            }
        } else if kind == "choice"@ {
            match ChoiceEntryView::read(config) {
                Some(e) => Some(XWidgetTypeView::Choice(e)),
                None => None,
            }
        } else if kind == "menu"@ {
            match MenuEntry::read(config) {
                Some(e) => Some(XWidgetTypeView::Menu(e)),
                None => None,
            }
        } else {
            None
        }
    }

    /// An object with a single member, which names the kind of widget and
    /// holds its configuration.
    pub open spec fn read(v: JsonView) -> Option<XWidgetTypeView> {
        match v {
            JsonView::Object(members) => if members.len() == 1 {
                XWidgetTypeView::of_member(members[0].0, members[0].1)
            } else {
                None
            },
            _ => None,
        }
    }
}

impl Default for XWidgetType {
    fn default() -> (r: Self)
        ensures
            r@ == XWidgetTypeView::initial(),
    {
        XWidgetType::Text(TextEntry::default())
    }
}

impl XWidgetType {
    pub fn from_json(v: &JsonValue) -> (r: Option<XWidgetType>)
        ensures
            match XWidgetTypeView::read(v@) {
                Some(e) => r is Some && r->0@ == e,
                None => r is None,
            },
    {
        match v {
            JsonValue::Object(o) => {
                if o.len() != 1 {
                    return None;
                }
                let kind = o[0].0.as_str();
                let config = &o[0].1;
                assert(v@->Object_0[0] == (o@[0].0@, o@[0].1@));
                if same_text(kind, "text") {
                    match TextEntry::from_json(config) {
                        Some(e) => Some(XWidgetType::Text(e)),
                        None => None,
                    }
                } else if same_text(kind, "numeric") {
                    match NumericEntry::from_json(config) {
                        Some(e) => Some(XWidgetType::Numeric(e)),
                        None => None,
                    }
                } else if same_text(kind, "date") {
                    match DateEntry::from_json(config) {
                        Some(e) => Some(XWidgetType::Date(e)),
                        None => None,
                    }
                } else if same_text(kind, "color") {
                    match ColorEntry::from_json(config) {
                        Some(e) => Some(XWidgetType::Color(e)),
                        None => None,
                    }
                } else if same_text(kind, "file") {
                    match FsEntry::from_json(config) {
                        Some(e) => Some(XWidgetType::File(e)),
                        None => None,
                    }
                } else if same_text(kind, "dir") {
                    match FsEntry::from_json(config) {
                        Some(e) => Some(XWidgetType::Dir(e)),
                        None => None,
                    }
                } else if same_text(kind, "choice") {
                    match ChoiceEntry::from_json(config) {
                        Some(e) => Some(XWidgetType::Choice(e)),
                        None => None,
                    }
                } else if same_text(kind, "menu") {
                    match MenuEntry::from_json(config) {
                        Some(e) => Some(XWidgetType::Menu(e)),
                        None => None,
                    }
                } else {
                    None
                }
            },
            _ => None,
        }
    }

    /// A copy with the same content.
    pub fn duplicate(&self) -> (r: XWidgetType)
        ensures
            r@ == self@,
    {
        match self {
            XWidgetType::Text(e) => XWidgetType::Text(e.duplicate()),
            XWidgetType::Numeric(e) => XWidgetType::Numeric(e.duplicate()),
            XWidgetType::Date(e) => XWidgetType::Date(e.duplicate()),
            XWidgetType::Color(e) => XWidgetType::Color(e.duplicate()),
            XWidgetType::File(e) => XWidgetType::File(e.duplicate()),
            XWidgetType::Dir(e) => XWidgetType::Dir(e.duplicate()),
            XWidgetType::Choice(e) => XWidgetType::Choice(e.duplicate()),
            XWidgetType::Menu(e) => XWidgetType::Menu(*e),
        }
    }
}

/// The widget that a property asks for in place of the one its type would
/// give it.
#[derive(Debug, Clone, PartialEq)]
pub struct XWidget {
    pub options: XWidgetType,
}

pub struct XWidgetView {
    pub options: XWidgetTypeView,
}

impl View for XWidget {
    type V = XWidgetView;

    open spec fn view(&self) -> XWidgetView {
        XWidgetView { options: self.options@ }
    }
}

impl XWidgetView {
    /// What a schema asks for; a one-line text where it cannot be read.
    pub open spec fn read(v: JsonView) -> XWidgetView {
        match XWidgetTypeView::read(v) {
            Some(options) => XWidgetView { options },
            None => XWidgetView { options: XWidgetTypeView::initial() },
        }
    }
}

/// The view of a widget that may not be there.
pub open spec fn opt_widget(w: Option<XWidget>) -> Option<XWidgetView> {
    match w {
        Some(x) => Some(x@),
        None => None,
    }
}

impl XWidget {
    pub fn from_json(v: &JsonValue) -> (r: XWidget)
        ensures
            r@ == XWidgetView::read(v@),
    {
        match XWidgetType::from_json(v) {
            Some(options) => XWidget { options },
            None => XWidget { options: XWidgetType::default() },
        }
    }

    /// A copy with the same content.
    pub fn duplicate(&self) -> (r: XWidget)
        ensures
            r@ == self@,
    {
        XWidget { options: self.options.duplicate() }
    }
}

/// One property of a schema.
#[derive(Debug, Clone, PartialEq)]
pub struct SchemaProp {
    pub kind: String,
    pub description: Option<String>,
    pub default: Option<Primitive>,
    pub alias: Option<String>,
    pub enum_values: Option<Vec<String>>,
    pub items: Option<SchemaPropItem>,
    pub format: Option<String>,
    pub x_prompt: Option<StringOrPrompt>,
    pub x_widget: Option<XWidget>,
}

pub struct SchemaPropView {
    pub kind: Seq<char>,
    pub description: Option<Seq<char>>,
    pub default: Option<PrimitiveView>,
    pub alias: Option<Seq<char>>,
    pub enum_values: Option<Seq<Seq<char>>>,
    pub items: Option<SchemaPropItemView>,
    pub format: Option<Seq<char>>,
    pub x_prompt: Option<StringOrPromptView>,
    pub x_widget: Option<XWidgetView>,
}

/// The view of a list of texts that may not be there.
pub open spec fn opt_texts(v: Option<Vec<String>>) -> Option<Seq<Seq<char>>> {
    match v {
        Some(x) => Some(texts(x@)),
        None => None,
    }
}

/// The view of element rules that may not be there.
pub open spec fn opt_prop_item(v: Option<SchemaPropItem>) -> Option<SchemaPropItemView> {
    match v {
        Some(x) => Some(x@),
        None => None,
    }
}

impl View for SchemaProp {
    type V = SchemaPropView;

    open spec fn view(&self) -> SchemaPropView {
        SchemaPropView {
            kind: self.kind@,
            description: opt_text(self.description),
            default: opt_primitive(self.default),
            alias: opt_text(self.alias),
            enum_values: opt_texts(self.enum_values),
            items: opt_prop_item(self.items),
            format: opt_text(self.format),
            x_prompt: opt_prompt(self.x_prompt),
            x_widget: opt_widget(self.x_widget),
        }
    }
}

/// A member that holds a text where it is there: the outer result is nothing
/// where the member holds something else.
pub open spec fn optional_text(o: JsonView, key: Seq<char>) -> Option<Option<Seq<char>>> {
    match o.present(key) {
        None => Some(None),
        Some(JsonView::Text(s)) => Some(Some(s)),
        Some(_) => None,
    }
}

/// Reads a member that holds a text where it is there.
pub fn read_optional_text(o: &JsonValue, key: &str) -> (r: Option<Option<String>>)
    ensures
        match optional_text(o@, key@) {
            Some(t) => r is Some && opt_text(r->0) == t,
            None => r is None,
        },
{
    match o.get_present(key) {
        None => Some(None),
        Some(JsonValue::Text(s)) => Some(Some(s.clone())),
        Some(_) => None,
    }
}

impl SchemaPropView {
    /// A property without anything but an empty type.
    pub open spec fn initial() -> SchemaPropView {
        SchemaPropView {
            kind: Seq::empty(),
            description: None,
            default: None,
            alias: None,
            enum_values: None,
            items: None,
            format: None,
            x_prompt: None,
            x_widget: None,
        }
    }

    /// A property is an object with a text `type`. Each of `description`,
    /// `alias` and `format` is a text where it is there, `enum` a list of
    /// texts, `items` the rules for elements, `x-prompt` a prompt; `default`
    /// may be any value, and `x-widget` is read leniently. A member that is
    /// `null` counts as missing.
    pub open spec fn read(v: JsonView) -> Option<SchemaPropView> {
        match v.member("type"@) {
            Some(JsonView::Text(kind)) => {
                let enum_values = match v.present("enum"@) {
                    None => Some(None),
                    Some(x) => match x.text_list() {
                        Some(l) => Some(Some(l)),
                        None => None,
                    },
                };
                let items = match v.present("items"@) {
                    None => Some(None),
                    Some(x) => match SchemaPropItemView::read(x) {
                        Some(i) => Some(Some(i)),
                        None => None,
                    },
                };
                let x_prompt = match v.present("x-prompt"@) {
                    None => Some(None),
                    Some(x) => match StringOrPromptView::read(x) {
                        Some(p) => Some(Some(p)),
                        None => None,
                    },
                };
                match (
                    optional_text(v, "description"@),
                    optional_text(v, "alias"@),
                    optional_text(v, "format"@),
                    enum_values,
                    items,
                    x_prompt,
                ) {
                    (Some(description), Some(alias), Some(format), Some(e), Some(i), Some(p)) => Some(
                        SchemaPropView {
                            kind,
                            description,
                            default: match v.present("default"@) {
                                Some(x) => Some(PrimitiveView::of(x)),
                                None => None,
                            },
                            alias,
                            enum_values: e,
                            items: i,
                            format,
                            x_prompt: p,
                            x_widget: match v.present("x-widget"@) {
                                Some(x) => Some(XWidgetView::read(x)),
                                None => None,
                            },
                        },
                    ),
                    _ => None,
                }
            },
            _ => None,
        }
    }

    /// What the label of the property says: the message of its prompt, or
    /// else its description.
    pub open spec fn label_text(self) -> Seq<char> {
        match self.x_prompt {
            Some(p) => p.message(),
            None => match self.description {
                Some(d) => d,
                None => Seq::empty(),
            },
        }
    }
}

impl Default for SchemaProp {
    fn default() -> (r: Self)
        ensures
            r@ == SchemaPropView::initial(),
    {
        SchemaProp {
            kind: String::new(),
            description: None,
            default: None,
            alias: None,
            enum_values: None,
            items: None,
            format: None,
            x_prompt: None,
            x_widget: None,
        }
    }
}

impl SchemaProp {
    pub fn from_json(v: &JsonValue) -> (r: Option<SchemaProp>)
        ensures
            match SchemaPropView::read(v@) {
                Some(e) => r is Some && r->0@ == e,
                None => r is None,
            },
    {
        match v.get("type") {
            Some(JsonValue::Text(kind)) => {
                let description = match read_optional_text(v, "description") {
                    Some(t) => t,
                    None => {
                        return None;
                    },
                };
                let alias = match read_optional_text(v, "alias") {
                    Some(t) => t,
                    None => {
                        return None;
                    },
                };
                let format = match read_optional_text(v, "format") {
                    Some(t) => t,
                    None => {
                        return None;
                    },
                };
                let enum_values = match v.get_present("enum") {
                    None => None,
                    Some(x) => match x.as_texts() {
                        Some(l) => Some(l),
                        None => {
                            return None;
                        },
                    },
                };
                let items = match v.get_present("items") {
                    None => None,
                    Some(x) => match SchemaPropItem::from_json(x) {
                        Some(i) => Some(i),
                        None => {
                            return None;
                        },
                    },
                };
                let x_prompt = match v.get_present("x-prompt") {
                    None => None,
                    Some(x) => match StringOrPrompt::from_json(x) {
                        Some(p) => Some(p),
                        None => {
                            return None;
                        },
                    },
                };
                let default = match v.get_present("default") {
                    Some(x) => Some(Primitive::from_json(x)),
                    None => None,
                };
                let x_widget = match v.get_present("x-widget") {
                    Some(x) => Some(XWidget::from_json(x)),
                    None => None,
                };
                Some(
                    SchemaProp {
                        kind: kind.clone(),
                        description,
                        default,
                        alias,
                        enum_values,
                        items,
                        format,
                        x_prompt,
                        x_widget,
                    },
                )
            },
            _ => None,
        }
    }

    /// What the label of the property says.
    pub fn get_label_text(&self) -> (r: String)
        ensures
            r@ == self@.label_text(),
    {
        match &self.x_prompt {
            Some(StringOrPrompt::Str(s)) => s.clone(),
            Some(StringOrPrompt::Prompt(p)) => p.message.clone(),
            None => match &self.description {
                Some(d) => d.clone(),
                None => String::new(),
            },
        }
    }

    /// A copy with the same content.
    pub fn duplicate(&self) -> (r: SchemaProp)
        ensures
            r@ == self@,
    {
        SchemaProp {
            kind: self.kind.clone(),
            description: copy_opt_text(&self.description),
            default: match &self.default {
                Some(d) => Some(d.duplicate()),
                None => None,
            },
            alias: copy_opt_text(&self.alias),
            enum_values: match &self.enum_values {
                Some(e) => Some(crate::primitive::copy_texts(e)),
                None => None,
            },
            items: match &self.items {
                Some(i) => Some(i.duplicate()),
                None => None,
            },
            format: copy_opt_text(&self.format),
            x_prompt: match &self.x_prompt {
                Some(p) => Some(p.duplicate()),
                None => None,
            },
            x_widget: match &self.x_widget {
                Some(w) => Some(w.duplicate()),
                None => None,
            },
        }
    }
}

/// A schema: what a schematic is called and which properties it takes. The
/// properties are kept as they stand in the document, in its order, and are
/// read one by one when they are asked for.
#[derive(Debug, PartialEq)]
pub struct Schema {
    pub schema: String,
    pub id: String,
    pub title: String,
    pub description: Option<String>,
    pub configurable: Option<String>,
    pub kind: String,
    pub properties: Vec<(String, JsonValue)>,
}

pub struct SchemaView {
    pub schema: Seq<char>,
    pub id: Seq<char>,
    pub title: Seq<char>,
    pub description: Option<Seq<char>>,
    pub configurable: Option<Seq<char>>,
    pub kind: Seq<char>,
    pub properties: Seq<(Seq<char>, JsonView)>,
}

/// The views of named values, element by element.
pub open spec fn member_views(v: Seq<(String, JsonValue)>) -> Seq<(Seq<char>, JsonView)> {
    Seq::new(v.len(), |i: int| (v[i].0@, v[i].1@))
}

impl View for Schema {
    type V = SchemaView;

    open spec fn view(&self) -> SchemaView {
        SchemaView {
            schema: self.schema@,
            id: self.id@,
            title: self.title@,
            description: opt_text(self.description),
            configurable: opt_text(self.configurable),
            kind: self.kind@,
            properties: member_views(self.properties@),
        }
    }
}

/// Whether a property has a prompt in the long form whose choices are a
/// single text that begins with a dollar sign.
pub open spec fn asks_directive(p: JsonView) -> bool {
    match p.member("x-prompt"@) {
        Some(x) => x is Object && match x.member("items"@) {
            Some(JsonView::Text(s)) => s.len() > 0 && s[0] == '$',
            _ => false,
        },
        None => false,
    }
}

impl SchemaView {
    /// A schema is an object with the texts `$schema`, `$id`, `title` and
    /// `type` and the object `properties`; `description` and `configurable`
    /// are texts where they are there.
    pub open spec fn read(v: JsonView) -> Option<SchemaView> {
        match (
            v.member("$schema"@),
            v.member("$id"@),
            v.member("title"@),
            v.member("type"@),
            v.member("properties"@),
            optional_text(v, "description"@),
            optional_text(v, "configurable"@),
        ) {
            (
                Some(JsonView::Text(schema)),
                Some(JsonView::Text(id)),
                Some(JsonView::Text(title)),
                Some(JsonView::Text(kind)),
                Some(JsonView::Object(properties)),
                Some(description),
                Some(configurable),
            ) => Some(
                SchemaView { schema, id, title, description, configurable, kind, properties },
            ),
            _ => None,
        }
    }

    /// What reading a document gives.
    pub open spec fn parsed(text: Seq<char>) -> Result<SchemaView, ParseError> {
        match json_document(text) {
            None => Err(ParseError::Json),
            Some(v) => match SchemaView::read(v) {
                Some(s) => Ok(s),
                None => Err(ParseError::Document),
            },
        }
    }

    /// Whether any property asks for choices through a directive.
    pub open spec fn has_directives(self) -> bool {
        exists|i: int| 0 <= i < self.properties.len() && asks_directive(#[trigger] self.properties[i].1)
    }

    /// The property `key`, where there is one and it can be read.
    pub open spec fn property(self, key: Seq<char>) -> Option<SchemaPropView> {
        match crate::json::lookup(self.properties, key) {
            Some(p) => SchemaPropView::read(p),
            None => None,
        }
    }
}

/// Whether a property asks for choices through a directive.
pub fn property_asks_directive(p: &JsonValue) -> (r: bool)
    ensures
        r == asks_directive(p@),
{
    match p.get("x-prompt") {
        Some(x) => {
            if !x.is_object() {
                return false;
            }
            match x.get("items") {
                Some(JsonValue::Text(s)) => {
                    let s = s.as_str();
                    s.unicode_len() > 0 && s.get_char(0) == '$'
                },
                _ => false,
            }
        },
        None => false,
    }
}

impl Schema {
    /// Reads a schema from a document that was parsed already.
    pub fn from_json(v: &JsonValue) -> (r: Result<Schema, ParseError>)
        ensures
            match SchemaView::read(v@) {
                Some(s) => r is Ok && r->Ok_0@ == s,
                None => r == Err::<Schema, ParseError>(ParseError::Document),
            },
    {
        let description = match read_optional_text(v, "description") {
            Some(t) => t,
            None => {
                return Err(ParseError::Document);
            },
        };
        let configurable = match read_optional_text(v, "configurable") {
            Some(t) => t,
            None => {
                return Err(ParseError::Document);
            },
        };
        match (v.get("$schema"), v.get("$id"), v.get("title"), v.get("type"), v.get("properties")) {
            (
                Some(JsonValue::Text(schema)),
                Some(JsonValue::Text(id)),
                Some(JsonValue::Text(title)),
                Some(JsonValue::Text(kind)),
                Some(JsonValue::Object(members)),
            ) => {
                let ghost wanted = v@.member("properties"@)->0->Object_0;
                assert(JsonValue::Object(*members)@ == JsonView::Object(wanted));
                let mut properties: Vec<(String, JsonValue)> = Vec::new();
                let mut i: usize = 0;
                while i < members.len()
                    invariant
                        i <= members.len(),
                        wanted.len() == members@.len(),
                        forall|j: int|
                            0 <= j < members@.len() ==> wanted[j] == (
                                members@[j].0@,
                                members@[j].1@,
                            ),
                        member_views(properties@) =~= wanted.take(i as int),
                    decreases members.len() - i,
                {
                    let ghost before = member_views(properties@);
                    let value = members[i].1.duplicate();
                    let name = members[i].0.clone();
                    properties.push((name, value));
                    proof {
                        assert(member_views(properties@) =~= before.push((name@, value@)));
                        assert(wanted.take(i + 1) =~= wanted.take(i as int).push(wanted[i as int]));
                    }
                    i += 1;
                }
                proof {
                    assert(wanted.take(members.len() as int) == wanted);
                }
                Ok(
                    Schema {
                        schema: schema.clone(),
                        id: id.clone(),
                        title: title.clone(),
                        description,
                        configurable,
                        kind: kind.clone(),
                        properties,
                    },
                )
            },
            _ => Err(ParseError::Document),
        }
    }

    /// Reads a schema from the text of a document.
    pub fn parse(text: &str) -> (r: Result<Schema, ParseError>)
        ensures
            match SchemaView::parsed(text@) {
                Ok(s) => r is Ok && r->Ok_0@ == s,
                Err(e) => r == Err::<Schema, ParseError>(e),
            },
    {
        match parse_json(text) {
            None => Err(ParseError::Json),
            Some(v) => Schema::from_json(&v),
        }
    }

    /// The property `key`, where there is one and it can be read.
    pub fn get_property(&self, key: &str) -> (r: Option<SchemaProp>)
        ensures
            match self@.property(key@) {
                Some(p) => r is Some && r->0@ == p,
                None => r is None,
            },
    {
        let ghost members = member_views(self.properties@);
        let mut i: usize = 0;
        while i < self.properties.len()
            invariant
                i <= self.properties.len(),
                members == member_views(self.properties@),
                crate::json::lookup(members.take(i as int), key@) is None,
            decreases self.properties.len() - i,
        {
            proof {
                assert(members.take(i + 1).drop_last() == members.take(i as int));
            }
            if same_text(self.properties[i].0.as_str(), key) {
                proof {
                    crate::json::lemma_lookup_extends(members, key@, i + 1);
                }
                return SchemaProp::from_json(&self.properties[i].1);
            }
            i += 1;
        }
        proof {
            assert(members.take(self.properties.len() as int) == members);
        }
        None
    }

    /// Whether any property asks for choices through a directive, so that the
    /// form needs a working directory before it can list them.
    pub fn has_directives(&self) -> (r: bool)
        ensures
            r == self@.has_directives(),
    {
        let mut i: usize = 0;
        while i < self.properties.len()
            invariant
                i <= self.properties.len(),
                forall|j: int| 0 <= j < i ==> !asks_directive(#[trigger] self@.properties[j].1),
            decreases self.properties.len() - i,
        {
            assert(self@.properties[i as int].1 == self.properties@[i as int].1@);
            if property_asks_directive(&self.properties[i].1) {
                return true;
            }
            i += 1;
        }
        false
    }
}

} // verus!
