//! Decides which widget a property of a schema gets.
//!
//! A widget that the property asks for itself is taken as it is asked for.
//! Otherwise the type of the property decides. A text or an array that
//! brings choices gets a menu, whatever its format says. A text without
//! choices gets a picker where its format names one, and a plain entry
//! where it does not. An array without choices, like any type that is not
//! known, gets an empty container.

use crate::schema::{SchemaProp, SchemaPropView, XWidgetType, XWidgetTypeView};
use crate::schema_enums::{
    ChoiceType, ColorEntryType, DateEntryType, MenuType, NumericType,
};
use crate::schema_parsing::{
    ChoiceEntry, ChoiceEntryView, ColorEntry, ColorEntryView, DateEntry, DateEntryView, FsEntry,
    FsEntryView, MenuEntry, NumericEntry, NumericEntryView, TextEntry, TextEntryView,
};
use crate::text::same_text;
use vstd::prelude::*;

verus! {

/// A widget to build: its kind and its configuration.
#[derive(Debug, Clone, PartialEq)]
pub enum WidgetSpec {
    Text(TextEntry),
    TextArea(TextEntry),
    Numeric(NumericEntry),
    Slider(NumericEntry),
    Date(DateEntry),
    Time(DateEntry),
    DateTime(DateEntry),
    ColorButton(ColorEntry),
    ColorInput(ColorEntry),
    File(FsEntry),
    Dir(FsEntry),
    Checkbox(ChoiceEntry),
    Switch(ChoiceEntry),
    Toggle(ChoiceEntry),
    DropDown(MenuEntry),
    Combobox(MenuEntry),
    RadioGroup(MenuEntry),
    ToggleGroup(MenuEntry),
    Multiselect(MenuEntry),
    /// An empty container, for a property of a type that has no widget.
    Empty,
}

pub enum WidgetSpecView {
    Text(TextEntryView),
    TextArea(TextEntryView),
    Numeric(NumericEntryView),
    Slider(NumericEntryView),
    Date(DateEntryView),
    Time(DateEntryView),
    DateTime(DateEntryView),
    ColorButton(ColorEntryView),
    ColorInput(ColorEntryView),
    File(FsEntryView),
    Dir(FsEntryView),
    Checkbox(ChoiceEntryView),
    Switch(ChoiceEntryView),
    Toggle(ChoiceEntryView),
    DropDown(MenuEntry),
    Combobox(MenuEntry),
    RadioGroup(MenuEntry),
    ToggleGroup(MenuEntry),
    Multiselect(MenuEntry),
    Empty,
}

impl View for WidgetSpec {
    type V = WidgetSpecView;

    open spec fn view(&self) -> WidgetSpecView {
        match self {
            WidgetSpec::Text(e) => WidgetSpecView::Text(e@),
            WidgetSpec::TextArea(e) => WidgetSpecView::TextArea(e@),
            WidgetSpec::Numeric(e) => WidgetSpecView::Numeric(e@),
            WidgetSpec::Slider(e) => WidgetSpecView::Slider(e@),
            WidgetSpec::Date(e) => WidgetSpecView::Date(e@),
            WidgetSpec::Time(e) => WidgetSpecView::Time(e@),
            WidgetSpec::DateTime(e) => WidgetSpecView::DateTime(e@),
            WidgetSpec::ColorButton(e) => WidgetSpecView::ColorButton(e@),
            WidgetSpec::ColorInput(e) => WidgetSpecView::ColorInput(e@),
            WidgetSpec::File(e) => WidgetSpecView::File(e@),
            WidgetSpec::Dir(e) => WidgetSpecView::Dir(e@),
            WidgetSpec::Checkbox(e) => WidgetSpecView::Checkbox(e@),
            WidgetSpec::Switch(e) => WidgetSpecView::Switch(e@),
            WidgetSpec::Toggle(e) => WidgetSpecView::Toggle(e@),
            WidgetSpec::DropDown(e) => WidgetSpecView::DropDown(*e),
            WidgetSpec::Combobox(e) => WidgetSpecView::Combobox(*e),
            WidgetSpec::RadioGroup(e) => WidgetSpecView::RadioGroup(*e),
            WidgetSpec::ToggleGroup(e) => WidgetSpecView::ToggleGroup(*e),
            WidgetSpec::Multiselect(e) => WidgetSpecView::Multiselect(*e),
            WidgetSpec::Empty => WidgetSpecView::Empty,
        }
    }
}

impl WidgetSpecView {
    /// Whether the widget offers a list of choices.
    pub open spec fn is_menu(self) -> bool {
        self is DropDown || self is Combobox || self is RadioGroup || self is ToggleGroup
            || self is Multiselect
    }

    /// Whether the widget picks a file or a directory.
    pub open spec fn is_picker(self) -> bool {
        self is File || self is Dir
    }

    /// The widget that a property asks for itself. A directory picker always
    /// picks directories.
    pub open spec fn asked_for(x: XWidgetTypeView) -> WidgetSpecView {
        match x {
            XWidgetTypeView::Color(c) => if c.kind == ColorEntryType::Button {
                WidgetSpecView::ColorButton(c)
            } else {
                WidgetSpecView::ColorInput(c)
            },
            XWidgetTypeView::Date(c) => if c.kind == DateEntryType::Date {
                WidgetSpecView::Date(c)
            } else if c.kind == DateEntryType::Time {
                WidgetSpecView::Time(c)
            } else {
                WidgetSpecView::DateTime(c)
            },
            XWidgetTypeView::File(c) => WidgetSpecView::File(c),
            XWidgetTypeView::Dir(c) => WidgetSpecView::Dir(FsEntryView { is_dir: true, ..c }),
            XWidgetTypeView::Text(c) => if c.multiline {
                WidgetSpecView::TextArea(c)
            } else {
                WidgetSpecView::Text(c)
            },
            XWidgetTypeView::Numeric(c) => if c.kind == NumericType::Input {
                WidgetSpecView::Numeric(c)
            } else {
                WidgetSpecView::Slider(c)
            },
            XWidgetTypeView::Choice(c) => if c.kind == ChoiceType::Switch {
                WidgetSpecView::Switch(c)
            } else if c.kind == ChoiceType::Toggle {
                WidgetSpecView::Toggle(c)
            } else {
                WidgetSpecView::Checkbox(c)
            },
            XWidgetTypeView::Menu(c) => if c.kind == MenuType::Combobox {
                WidgetSpecView::Combobox(c)
            } else if c.kind == MenuType::Radio {
                WidgetSpecView::RadioGroup(c)
            } else if c.kind == MenuType::Toggle {
                WidgetSpecView::ToggleGroup(c)
            } else if c.kind == MenuType::Multiselect {
                WidgetSpecView::Multiselect(c)
            } else {
                WidgetSpecView::DropDown(c)
            },
        }
    }

    /// The widget that the type of a property gives it.
    pub open spec fn by_type(p: SchemaPropView) -> WidgetSpecView {
        if (p.kind == "string"@ || p.kind == "array"@) && p.has_choices() {
            if p.x_prompt is Some && p.x_prompt->0.has_multiselect() {
                WidgetSpecView::Multiselect(MenuEntry::initial())
            } else {
                WidgetSpecView::DropDown(MenuEntry::initial())
            }
        } else if p.kind == "string"@ {
            if p.format == Some("path"@) {
                WidgetSpecView::File(FsEntryView { is_dir: true, ..FsEntryView::initial() })
            } else if p.format == Some("date"@) {
                WidgetSpecView::Date(DateEntryView::initial())
            } else {
                WidgetSpecView::Text(TextEntryView::initial())
            }
        } else if p.kind == "boolean"@ {
            WidgetSpecView::Switch(ChoiceEntryView::initial())
        } else if p.kind == "number"@ {
            WidgetSpecView::Numeric(NumericEntryView::initial())
        } else {
            WidgetSpecView::Empty
        }
    }

    /// The widget that a property gets: the one it asks for, or else the one
    /// that its type gives it.
    pub open spec fn resolved(p: SchemaPropView) -> WidgetSpecView {
        match p.x_widget {
            Some(w) => WidgetSpecView::asked_for(w.options),
            None => WidgetSpecView::by_type(p),
        }
    }
}

impl SchemaPropView {
    /// Whether the property brings a list of choices: an `enum` that is not
    /// empty, or a prompt with items.
    pub open spec fn has_choices(self) -> bool {
        (self.enum_values is Some && self.enum_values->0.len() > 0) || (self.x_prompt is Some
            && self.x_prompt->0.has_items())
    }
}

impl SchemaProp {
    /// Whether the property brings a list of choices.
    pub fn has_choices(&self) -> (r: bool)
        ensures
            r == self@.has_choices(),
    {
        let listed = match &self.enum_values {
            Some(e) => e.len() > 0,
            None => false,
        };
        let prompted = match &self.x_prompt {
            Some(p) => p.has_items(),
            None => false,
        };
        listed || prompted
    }
}

/// The widget that a property asks for itself.
pub fn asked_for(x: &XWidgetType) -> (r: WidgetSpec)
    ensures
        r@ == WidgetSpecView::asked_for(x@),
{
    match x {
        XWidgetType::Color(c) => match c.kind {
            ColorEntryType::Button => WidgetSpec::ColorButton(c.duplicate()),
            _ => WidgetSpec::ColorInput(c.duplicate()),
        },
        XWidgetType::Date(c) => match c.kind {
            DateEntryType::Date => WidgetSpec::Date(c.duplicate()),
            DateEntryType::Time => WidgetSpec::Time(c.duplicate()),
            _ => WidgetSpec::DateTime(c.duplicate()),
        },
        XWidgetType::File(c) => WidgetSpec::File(c.duplicate()),
        XWidgetType::Dir(c) => {
            let mut options = c.duplicate();
            options.is_dir = true;
            WidgetSpec::Dir(options)
        },
        XWidgetType::Text(c) => if c.multiline {
            WidgetSpec::TextArea(c.duplicate())
        } else {
            WidgetSpec::Text(c.duplicate())
        },
        XWidgetType::Numeric(c) => match c.kind {
            NumericType::Input => WidgetSpec::Numeric(c.duplicate()),
            _ => WidgetSpec::Slider(c.duplicate()),
        },
        XWidgetType::Choice(c) => match c.kind {
            ChoiceType::Switch => WidgetSpec::Switch(c.duplicate()),
            ChoiceType::Toggle => WidgetSpec::Toggle(c.duplicate()),
            _ => WidgetSpec::Checkbox(c.duplicate()),
        },
        XWidgetType::Menu(c) => match c.kind {
            MenuType::Combobox => WidgetSpec::Combobox(*c),
            MenuType::Radio => WidgetSpec::RadioGroup(*c),
            MenuType::Toggle => WidgetSpec::ToggleGroup(*c),
            MenuType::Multiselect => WidgetSpec::Multiselect(*c),
            _ => WidgetSpec::DropDown(*c),
        },
    }
}

/// Whether an optional text is `wanted`.
pub fn is_text(s: &Option<String>, wanted: &str) -> (r: bool)
    ensures
        r == (crate::json::opt_text(*s) == Some(wanted@)),
{
    match s {
        Some(x) => same_text(x.as_str(), wanted),
        None => false,
    }
}

/// The widget that the type of a property gives it.
pub fn by_type(prop: &SchemaProp) -> (r: WidgetSpec)
    ensures
        r@ == WidgetSpecView::by_type(prop@),
{
    let kind = prop.kind.as_str();
    let listed = same_text(kind, "string") || same_text(kind, "array");
    if listed && prop.has_choices() {
        let several = match &prop.x_prompt {
            Some(p) => p.has_multiselect(),
            None => false,
        };
        if several {
            return WidgetSpec::Multiselect(MenuEntry::default());
        }
        WidgetSpec::DropDown(MenuEntry::default())
    } else if same_text(kind, "string") {
        if is_text(&prop.format, "path") {
            let mut options = FsEntry::default();
            options.is_dir = true;
            return WidgetSpec::File(options);
        } else if is_text(&prop.format, "date") {
            return WidgetSpec::Date(DateEntry::default());
        }
        WidgetSpec::Text(TextEntry::default())
    } else if same_text(kind, "boolean") {
        WidgetSpec::Switch(ChoiceEntry::default())
    } else if same_text(kind, "number") {
        WidgetSpec::Numeric(NumericEntry::default())
    } else {
        WidgetSpec::Empty
    }
}

/// The widget that a property gets. The working directory plays no part in
/// the choice of the widget, only in the list of its items.
pub fn resolve(prop: &SchemaProp, _field: &str, _cwd: &Option<String>) -> (r: WidgetSpec)
    ensures
        r@ == WidgetSpecView::resolved(prop@),
{
    match &prop.x_widget {
        Some(w) => asked_for(&w.options),
        None => by_type(prop),
    }
}

/// Resolving a property twice gives the same widget: what `resolve` hands
/// back is determined by the property alone.
pub proof fn lemma_resolve_is_repeatable(p: SchemaPropView, first: WidgetSpecView, second: WidgetSpecView)
    requires
        first == WidgetSpecView::resolved(p),
        second == WidgetSpecView::resolved(p),
    ensures
        first == second,
{
}

/// A list of choices wins over a format: a text or an array that has an
/// `enum` with entries, asks for no widget itself and is marked as a path
/// gets a menu, not a file picker.
pub proof fn lemma_choices_win_over_format(p: SchemaPropView)
    requires
        p.x_widget is None,
        p.kind == "string"@ || p.kind == "array"@,
        p.enum_values is Some,
        p.enum_values->0.len() > 0,
        p.format == Some("path"@),
    ensures
        WidgetSpecView::resolved(p).is_menu(),
        !WidgetSpecView::resolved(p).is_picker(),
{
}

/// A widget that a property asks for is taken whatever its type says.
pub proof fn lemma_asked_widget_wins(p: SchemaPropView)
    requires
        p.x_widget is Some,
    ensures
        WidgetSpecView::resolved(p) == WidgetSpecView::asked_for(p.x_widget->0.options),
{
}

} // verus!
