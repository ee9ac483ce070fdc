//! The closed sets of names that a widget configuration chooses from.
//!
//! Each set has a default, which stands in for a name that is not one of the
//! set; a member that is missing altogether takes the value that the
//! surrounding configuration gives it.

use crate::json::{JsonValue, JsonView};
use crate::text::same_text;
use vstd::prelude::*;

verus! {

/// Whether a date control asks for a day, a time of day, or both.
#[derive(Debug, Clone, Copy, PartialEq, Eq, Structural)]
pub enum DateEntryType {
    Date,
    Time,
    DateTime,
}

impl Default for DateEntryType {
    fn default() -> (r: Self)
        ensures
            r == DateEntryType::Date,
    {
        DateEntryType::Date
    }
}

impl DateEntryType {
    /// The variant that a schema writes as `s`.
    pub open spec fn named(s: Seq<char>) -> Option<DateEntryType> {
        if s == "date"@ {
            Some(DateEntryType::Date)
        } else if s == "time"@ {
            Some(DateEntryType::Time)
        } else if s == "date_time"@ {
            Some(DateEntryType::DateTime)
        } else {
            None
        }
    }

    /// Reads a variant as a schema writes it.
    pub fn from_name(s: &str) -> (r: Option<DateEntryType>)
        ensures
            r == DateEntryType::named(s@),
    {
        if same_text(s, "date") {
            Some(DateEntryType::Date)
        } else if same_text(s, "time") {
            Some(DateEntryType::Time)
        } else if same_text(s, "date_time") {
            Some(DateEntryType::DateTime)
        } else {
            None
        }
    }

    /// The member `key` of `o`: `missing` where there is none, the variant it
    /// names where it names one, and `Date` for anything else.
    pub open spec fn member_or(o: JsonView, key: Seq<char>, missing: DateEntryType) -> DateEntryType {
        match o.member(key) {
            None => missing,
            Some(JsonView::Text(s)) => match DateEntryType::named(s) {
                Some(e) => e,
                None => DateEntryType::Date,
            },
            Some(_) => DateEntryType::Date,
        }
    }

    /// Reads the member `key` of `o`.
    pub fn read_member(o: &JsonValue, key: &str, missing: DateEntryType) -> (r: DateEntryType)
        ensures
            r == DateEntryType::member_or(o@, key@, missing),
    {
        match o.get(key) {
            None => missing,
            Some(JsonValue::Text(s)) => match DateEntryType::from_name(s.as_str()) {
                Some(e) => e,
                None => DateEntryType::Date,
            },
            Some(_) => DateEntryType::Date,
        }
    }
}

/// The notation in which a colour is written.
#[derive(Debug, Clone, Copy, PartialEq, Eq, Structural)]
pub enum ColorEntryFormat {
    Hex,
    RGB,
    HSL,
}

impl Default for ColorEntryFormat {
    fn default() -> (r: Self)
        ensures
            r == ColorEntryFormat::RGB,
    {
        ColorEntryFormat::RGB
    }
}

impl ColorEntryFormat {
    /// The variant that a schema writes as `s`.
    pub open spec fn named(s: Seq<char>) -> Option<ColorEntryFormat> {
        if s == "hex"@ {
            Some(ColorEntryFormat::Hex)
        } else if s == "rgb"@ {
            Some(ColorEntryFormat::RGB)
        } else if s == "hsl"@ {
            Some(ColorEntryFormat::HSL)
        } else {
            None
        }
    }

    /// Reads a variant as a schema writes it.
    pub fn from_name(s: &str) -> (r: Option<ColorEntryFormat>)
        ensures
            r == ColorEntryFormat::named(s@),
    {
        if same_text(s, "hex") {
            Some(ColorEntryFormat::Hex)
        } else if same_text(s, "rgb") {
            Some(ColorEntryFormat::RGB)
        } else if same_text(s, "hsl") {
            Some(ColorEntryFormat::HSL)
        } else {
            None
        }
    }

    /// The member `key` of `o`: `missing` where there is none, the variant it
    /// names where it names one, and `RGB` for anything else.
    pub open spec fn member_or(o: JsonView, key: Seq<char>, missing: ColorEntryFormat) -> ColorEntryFormat {
        match o.member(key) {
            None => missing,
            Some(JsonView::Text(s)) => match ColorEntryFormat::named(s) {
                Some(e) => e,
                None => ColorEntryFormat::RGB,
            },
            Some(_) => ColorEntryFormat::RGB,
        }
    }

    /// Reads the member `key` of `o`.
    pub fn read_member(o: &JsonValue, key: &str, missing: ColorEntryFormat) -> (r: ColorEntryFormat)
        ensures
            r == ColorEntryFormat::member_or(o@, key@, missing),
    {
        match o.get(key) {
            None => missing,
            Some(JsonValue::Text(s)) => match ColorEntryFormat::from_name(s.as_str()) {
                Some(e) => e,
                None => ColorEntryFormat::RGB,
            },
            Some(_) => ColorEntryFormat::RGB,
        }
    }
}

/// Whether a colour is picked with a button alone or shown in an entry.
#[derive(Debug, Clone, Copy, PartialEq, Eq, Structural)]
pub enum ColorEntryType {
    Button,
    Input,
}

impl Default for ColorEntryType {
    fn default() -> (r: Self)
        ensures
            r == ColorEntryType::Input,
    {
        ColorEntryType::Input
    }
}

impl ColorEntryType {
    /// The variant that a schema writes as `s`.
    pub open spec fn named(s: Seq<char>) -> Option<ColorEntryType> {
        if s == "button"@ {
            Some(ColorEntryType::Button)
        } else if s == "input"@ {
            Some(ColorEntryType::Input)
        } else {
            None
        }
    }

    /// Reads a variant as a schema writes it.
    pub fn from_name(s: &str) -> (r: Option<ColorEntryType>)
        ensures
            r == ColorEntryType::named(s@),
    {
        if same_text(s, "button") {
            Some(ColorEntryType::Button)
        } else if same_text(s, "input") {
            Some(ColorEntryType::Input)
        } else {
            None
        }
    }

    /// The member `key` of `o`: `missing` where there is none, the variant it
    /// names where it names one, and `Input` for anything else.
    pub open spec fn member_or(o: JsonView, key: Seq<char>, missing: ColorEntryType) -> ColorEntryType {
        match o.member(key) {
            None => missing,
            Some(JsonView::Text(s)) => match ColorEntryType::named(s) {
                Some(e) => e,
                None => ColorEntryType::Input,
            },
            Some(_) => ColorEntryType::Input,
        }
    }

    /// Reads the member `key` of `o`.
    pub fn read_member(o: &JsonValue, key: &str, missing: ColorEntryType) -> (r: ColorEntryType)
        ensures
            r == ColorEntryType::member_or(o@, key@, missing),
    {
        match o.get(key) {
            None => missing,
            Some(JsonValue::Text(s)) => match ColorEntryType::from_name(s.as_str()) {
                Some(e) => e,
                None => ColorEntryType::Input,
            },
            Some(_) => ColorEntryType::Input,
        }
    }
}

/// The control that holds a yes/no state.
#[derive(Debug, Clone, Copy, PartialEq, Eq, Structural)]
pub enum ChoiceType {
    Checkbox,
    Switch,
    Toggle,
}

impl Default for ChoiceType {
    fn default() -> (r: Self)
        ensures
            r == ChoiceType::Checkbox,
    {
        ChoiceType::Checkbox
    }
}

impl ChoiceType {
    /// The variant that a schema writes as `s`.
    pub open spec fn named(s: Seq<char>) -> Option<ChoiceType> {
        if s == "checkbox"@ {
            Some(ChoiceType::Checkbox)
        } else if s == "switch"@ {
            Some(ChoiceType::Switch)
        } else if s == "toggle"@ {
            Some(ChoiceType::Toggle)
        } else {
            None
        }
    }

    /// Reads a variant as a schema writes it.
    pub fn from_name(s: &str) -> (r: Option<ChoiceType>)
        ensures
            r == ChoiceType::named(s@),
    {
        if same_text(s, "checkbox") {
            Some(ChoiceType::Checkbox)
        } else if same_text(s, "switch") {
            Some(ChoiceType::Switch)
        } else if same_text(s, "toggle") {
            Some(ChoiceType::Toggle)
        } else {
            None
        }
    }

    /// The member `key` of `o`: `missing` where there is none, the variant it
    /// names where it names one, and `Checkbox` for anything else.
    pub open spec fn member_or(o: JsonView, key: Seq<char>, missing: ChoiceType) -> ChoiceType {
        match o.member(key) {
            None => missing,
            Some(JsonView::Text(s)) => match ChoiceType::named(s) {
                Some(e) => e,
                None => ChoiceType::Checkbox,
            },
            Some(_) => ChoiceType::Checkbox,
        }
    }

    /// Reads the member `key` of `o`.
    pub fn read_member(o: &JsonValue, key: &str, missing: ChoiceType) -> (r: ChoiceType)
        ensures
            r == ChoiceType::member_or(o@, key@, missing),
    {
        match o.get(key) {
            None => missing,
            Some(JsonValue::Text(s)) => match ChoiceType::from_name(s.as_str()) {
                Some(e) => e,
                None => ChoiceType::Checkbox,
            },
            Some(_) => ChoiceType::Checkbox,
        }
    }
}

/// The control that offers a list of choices.
#[derive(Debug, Clone, Copy, PartialEq, Eq, Structural)]
pub enum MenuType {
    DropDown,
    Combobox,
    Multiselect,
    Radio,
    Toggle,
}

impl Default for MenuType {
    fn default() -> (r: Self)
        ensures
            r == MenuType::DropDown,
    {
        MenuType::DropDown
    }
}

impl MenuType {
    /// The variant that a schema writes as `s`.
    pub open spec fn named(s: Seq<char>) -> Option<MenuType> {
        if s == "dropdown"@ {
            Some(MenuType::DropDown)
        } else if s == "combobox"@ {
            Some(MenuType::Combobox)
        } else if s == "multiselect"@ {
            Some(MenuType::Multiselect)
        } else if s == "radio"@ {
            Some(MenuType::Radio)
        } else if s == "toggle"@ {
            Some(MenuType::Toggle)
        } else {
            None
        }
    }

    /// Reads a variant as a schema writes it.
    pub fn from_name(s: &str) -> (r: Option<MenuType>)
        ensures
            r == MenuType::named(s@),
    {
        if same_text(s, "dropdown") {
            Some(MenuType::DropDown)
        } else if same_text(s, "combobox") {
            Some(MenuType::Combobox)
        } else if same_text(s, "multiselect") {
            Some(MenuType::Multiselect)
        } else if same_text(s, "radio") {
            Some(MenuType::Radio)
        } else if same_text(s, "toggle") {
            Some(MenuType::Toggle)
        } else {
            None
        }
    }

    /// The member `key` of `o`: `missing` where there is none, the variant it
    /// names where it names one, and `DropDown` for anything else.
    pub open spec fn member_or(o: JsonView, key: Seq<char>, missing: MenuType) -> MenuType {
        match o.member(key) {
            None => missing,
            Some(JsonView::Text(s)) => match MenuType::named(s) {
                Some(e) => e,
                None => MenuType::DropDown,
            },
            Some(_) => MenuType::DropDown,
        }
    }

    /// Reads the member `key` of `o`.
    pub fn read_member(o: &JsonValue, key: &str, missing: MenuType) -> (r: MenuType)
        ensures
            r == MenuType::member_or(o@, key@, missing),
    {
        match o.get(key) {
            None => missing,
            Some(JsonValue::Text(s)) => match MenuType::from_name(s.as_str()) {
                Some(e) => e,
                None => MenuType::DropDown,
            },
            Some(_) => MenuType::DropDown,
        }
    }
}

/// The direction in which a control is laid out.
#[derive(Debug, Clone, Copy, PartialEq, Eq, Structural)]
pub enum OrientationType {
    Horizontal,
    Vertical,
}

impl Default for OrientationType {
    fn default() -> (r: Self)
        ensures
            r == OrientationType::Vertical,
    {
        OrientationType::Vertical
    }
}

impl OrientationType {
    /// The variant that a schema writes as `s`.
    pub open spec fn named(s: Seq<char>) -> Option<OrientationType> {
        if s == "horizontal"@ {
            Some(OrientationType::Horizontal)
        } else if s == "vertical"@ {
            Some(OrientationType::Vertical)
        } else {
            None
        }
    }

    /// Reads a variant as a schema writes it.
    pub fn from_name(s: &str) -> (r: Option<OrientationType>)
        ensures
            r == OrientationType::named(s@),
    {
        if same_text(s, "horizontal") {
            Some(OrientationType::Horizontal)
        } else if same_text(s, "vertical") {
            Some(OrientationType::Vertical)
        } else {
            None
        }
    }

    /// The member `key` of `o`: `missing` where there is none, the variant it
    /// names where it names one, and `Vertical` for anything else.
    pub open spec fn member_or(o: JsonView, key: Seq<char>, missing: OrientationType) -> OrientationType {
        match o.member(key) {
            None => missing,
            Some(JsonView::Text(s)) => match OrientationType::named(s) {
                Some(e) => e,
                None => OrientationType::Vertical,
            },
            Some(_) => OrientationType::Vertical,
        }
    }

    /// Reads the member `key` of `o`.
    pub fn read_member(o: &JsonValue, key: &str, missing: OrientationType) -> (r: OrientationType)
        ensures
            r == OrientationType::member_or(o@, key@, missing),
    {
        match o.get(key) {
            None => missing,
            Some(JsonValue::Text(s)) => match OrientationType::from_name(s.as_str()) {
                Some(e) => e,
                None => OrientationType::Vertical,
            },
            Some(_) => OrientationType::Vertical,
        }
    }
}

/// Where the icon of an entry stands.
#[derive(Debug, Clone, Copy, PartialEq, Eq, Structural)]
pub enum IconPositionType {
    Start,
    Unset,
    End,
}

impl Default for IconPositionType {
    fn default() -> (r: Self)
        ensures
            r == IconPositionType::Unset,
    {
        IconPositionType::Unset
    }
}

impl IconPositionType {
    /// The variant that a schema writes as `s`.
    pub open spec fn named(s: Seq<char>) -> Option<IconPositionType> {
        if s == "start"@ {
            Some(IconPositionType::Start)
        } else if s == "none"@ {
            Some(IconPositionType::Unset)
        } else if s == "end"@ {
            Some(IconPositionType::End)
        } else {
            None
        }
    }

    /// Reads a variant as a schema writes it.
    pub fn from_name(s: &str) -> (r: Option<IconPositionType>)
        ensures
            r == IconPositionType::named(s@),
    {
        if same_text(s, "start") {
            Some(IconPositionType::Start)
        } else if same_text(s, "none") {
            Some(IconPositionType::Unset)
        } else if same_text(s, "end") {
            Some(IconPositionType::End)
        } else {
            None
        }
    }

    /// The member `key` of `o`: `missing` where there is none, the variant it
    /// names where it names one, and `Unset` for anything else.
    pub open spec fn member_or(o: JsonView, key: Seq<char>, missing: IconPositionType) -> IconPositionType {
        match o.member(key) {
            None => missing,
            Some(JsonView::Text(s)) => match IconPositionType::named(s) {
                Some(e) => e,
                None => IconPositionType::Unset,
            },
            Some(_) => IconPositionType::Unset,
        }
    }

    /// Reads the member `key` of `o`.
    pub fn read_member(o: &JsonValue, key: &str, missing: IconPositionType) -> (r: IconPositionType)
        ensures
            r == IconPositionType::member_or(o@, key@, missing),
    {
        match o.get(key) {
            None => missing,
            Some(JsonValue::Text(s)) => match IconPositionType::from_name(s.as_str()) {
                Some(e) => e,
                None => IconPositionType::Unset,
            },
            Some(_) => IconPositionType::Unset,
        }
    }
}

/// The side to which the text of an entry is aligned.
#[derive(Debug, Clone, Copy, PartialEq, Eq, Structural)]
pub enum TextAlignmentType {
    Left,
    Right,
}

impl Default for TextAlignmentType {
    fn default() -> (r: Self)
        ensures
            r == TextAlignmentType::Left,
    {
        TextAlignmentType::Left
    }
}

impl TextAlignmentType {
    /// The variant that a schema writes as `s`.
    pub open spec fn named(s: Seq<char>) -> Option<TextAlignmentType> {
        if s == "left"@ {
            Some(TextAlignmentType::Left)
        } else if s == "right"@ {
            Some(TextAlignmentType::Right)
        } else {
            None
        }
    }

    /// Reads a variant as a schema writes it.
    pub fn from_name(s: &str) -> (r: Option<TextAlignmentType>)
        ensures
            r == TextAlignmentType::named(s@),
    {
        if same_text(s, "left") {
            Some(TextAlignmentType::Left)
        } else if same_text(s, "right") {
            Some(TextAlignmentType::Right)
        } else {
            None
        }
    }

    /// The member `key` of `o`: `missing` where there is none, the variant it
    /// names where it names one, and `Left` for anything else.
    pub open spec fn member_or(o: JsonView, key: Seq<char>, missing: TextAlignmentType) -> TextAlignmentType {
        match o.member(key) {
            None => missing,
            Some(JsonView::Text(s)) => match TextAlignmentType::named(s) {
                Some(e) => e,
                None => TextAlignmentType::Left,
            },
            Some(_) => TextAlignmentType::Left,
        }
    }

    /// Reads the member `key` of `o`.
    pub fn read_member(o: &JsonValue, key: &str, missing: TextAlignmentType) -> (r: TextAlignmentType)
        ensures
            r == TextAlignmentType::member_or(o@, key@, missing),
    {
        match o.get(key) {
            None => missing,
            Some(JsonValue::Text(s)) => match TextAlignmentType::from_name(s.as_str()) {
                Some(e) => e,
                None => TextAlignmentType::Left,
            },
            Some(_) => TextAlignmentType::Left,
        }
    }
}

/// What an entry is meant to hold, as a hint to input methods.
#[derive(Debug, Clone, Copy, PartialEq, Eq, Structural)]
pub enum PurposeType {
    FreeForm,
    Alpha,
    Digits,
    Number,
    Phone,
    Url,
    Email,
    Name,
    Terminal,
}

impl Default for PurposeType {
    fn default() -> (r: Self)
        ensures
            r == PurposeType::FreeForm,
    {
        PurposeType::FreeForm
    }
}

impl PurposeType {
    /// The variant that a schema writes as `s`.
    pub open spec fn named(s: Seq<char>) -> Option<PurposeType> {
        if s == "free_form"@ {
            Some(PurposeType::FreeForm)
        } else if s == "alpha"@ {
            Some(PurposeType::Alpha)
        } else if s == "digits"@ {
            Some(PurposeType::Digits)
        } else if s == "number"@ {
            Some(PurposeType::Number)
        } else if s == "phone"@ {
            Some(PurposeType::Phone)
        } else if s == "url"@ {
            Some(PurposeType::Url)
        } else if s == "email"@ {
            Some(PurposeType::Email)
        } else if s == "name"@ {
            Some(PurposeType::Name)
        } else if s == "terminal"@ {
            Some(PurposeType::Terminal)
        } else {
            None
        }
    }

    /// Reads a variant as a schema writes it.
    pub fn from_name(s: &str) -> (r: Option<PurposeType>)
        ensures
            r == PurposeType::named(s@),
    {
        if same_text(s, "free_form") {
            Some(PurposeType::FreeForm)
        } else if same_text(s, "alpha") {
            Some(PurposeType::Alpha)
        } else if same_text(s, "digits") {
            Some(PurposeType::Digits)
        } else if same_text(s, "number") {
            Some(PurposeType::Number)
        } else if same_text(s, "phone") {
            Some(PurposeType::Phone)
        } else if same_text(s, "url") {
            Some(PurposeType::Url)
        } else if same_text(s, "email") {
            Some(PurposeType::Email)
        } else if same_text(s, "name") {
            Some(PurposeType::Name)
        } else if same_text(s, "terminal") {
            Some(PurposeType::Terminal)
        } else {
            None
        }
    }

    /// The member `key` of `o`: `missing` where there is none, the variant it
    /// names where it names one, and `FreeForm` for anything else.
    pub open spec fn member_or(o: JsonView, key: Seq<char>, missing: PurposeType) -> PurposeType {
        match o.member(key) {
            None => missing,
            Some(JsonView::Text(s)) => match PurposeType::named(s) {
                Some(e) => e,
                None => PurposeType::FreeForm,
            },
            Some(_) => PurposeType::FreeForm,
        }
    }

    /// Reads the member `key` of `o`.
    pub fn read_member(o: &JsonValue, key: &str, missing: PurposeType) -> (r: PurposeType)
        ensures
            r == PurposeType::member_or(o@, key@, missing),
    {
        match o.get(key) {
            None => missing,
            Some(JsonValue::Text(s)) => match PurposeType::from_name(s.as_str()) {
                Some(e) => e,
                None => PurposeType::FreeForm,
            },
            Some(_) => PurposeType::FreeForm,
        }
    }
}

/// A hint to input methods on how text is entered.
#[derive(Debug, Clone, Copy, PartialEq, Eq, Structural)]
pub enum HintType {
    Lowercase,
    UppercaseChars,
    UppercaseWords,
    UppercaseSentences,
    InhibitOsk,
    VerticalWriting,
    Private,
    Spellcheck,
    NoSpellcheck,
    WordCompletion,
    Unset,
}

impl Default for HintType {
    fn default() -> (r: Self)
        ensures
            r == HintType::Unset,
    {
        HintType::Unset
    }
}

impl HintType {
    /// The variant that a schema writes as `s`.
    pub open spec fn named(s: Seq<char>) -> Option<HintType> {
        if s == "lowercase"@ {
            Some(HintType::Lowercase)
        } else if s == "uppercase_chars"@ {
            Some(HintType::UppercaseChars)
        } else if s == "uppercase_words"@ {
            Some(HintType::UppercaseWords)
        } else if s == "uppercase_sentences"@ {
            Some(HintType::UppercaseSentences)
        } else if s == "inhibit_osk"@ {
            Some(HintType::InhibitOsk)
        } else if s == "vertical_writing"@ {
            Some(HintType::VerticalWriting)
        } else if s == "private"@ {
            Some(HintType::Private)
        } else if s == "spellcheck"@ {
            Some(HintType::Spellcheck)
        } else if s == "no_spellcheck"@ {
            Some(HintType::NoSpellcheck)
        } else if s == "word_completion"@ {
            Some(HintType::WordCompletion)
        } else if s == "none"@ {
            Some(HintType::Unset)
        } else {
            None
        }
    }

    /// Reads a variant as a schema writes it.
    pub fn from_name(s: &str) -> (r: Option<HintType>)
        ensures
            r == HintType::named(s@),
    {
        if same_text(s, "lowercase") {
            Some(HintType::Lowercase)
        } else if same_text(s, "uppercase_chars") {
            Some(HintType::UppercaseChars)
        } else if same_text(s, "uppercase_words") {
            Some(HintType::UppercaseWords)
        } else if same_text(s, "uppercase_sentences") {
            Some(HintType::UppercaseSentences)
        } else if same_text(s, "inhibit_osk") {
            Some(HintType::InhibitOsk)
        } else if same_text(s, "vertical_writing") {
            Some(HintType::VerticalWriting)
        } else if same_text(s, "private") {
            Some(HintType::Private)
        } else if same_text(s, "spellcheck") {
            Some(HintType::Spellcheck)
        } else if same_text(s, "no_spellcheck") {
            Some(HintType::NoSpellcheck)
        } else if same_text(s, "word_completion") {
            Some(HintType::WordCompletion)
        } else if same_text(s, "none") {
            Some(HintType::Unset)
        } else {
            None
        }
    }

    /// The member `key` of `o`: `missing` where there is none, the variant it
    /// names where it names one, and `Unset` for anything else.
    pub open spec fn member_or(o: JsonView, key: Seq<char>, missing: HintType) -> HintType {
        match o.member(key) {
            None => missing,
            Some(JsonView::Text(s)) => match HintType::named(s) {
                Some(e) => e,
                None => HintType::Unset,
            },
            Some(_) => HintType::Unset,
        }
    }

    /// Reads the member `key` of `o`.
    pub fn read_member(o: &JsonValue, key: &str, missing: HintType) -> (r: HintType)
        ensures
            r == HintType::member_or(o@, key@, missing),
    {
        match o.get(key) {
            None => missing,
            Some(JsonValue::Text(s)) => match HintType::from_name(s.as_str()) {
                Some(e) => e,
                None => HintType::Unset,
            },
            Some(_) => HintType::Unset,
        }
    }
}

/// How the lines of a text area are justified.
#[derive(Debug, Clone, Copy, PartialEq, Eq, Structural)]
pub enum JustificationType {
    Left,
    Right,
    Center,
    Fill,
    Unset,
}

impl Default for JustificationType {
    fn default() -> (r: Self)
        ensures
            r == JustificationType::Fill,
    {
        JustificationType::Fill
    }
}

impl JustificationType {
    /// The variant that a schema writes as `s`.
    pub open spec fn named(s: Seq<char>) -> Option<JustificationType> {
        if s == "left"@ {
            Some(JustificationType::Left)
        } else if s == "right"@ {
            Some(JustificationType::Right)
        } else if s == "center"@ {
            Some(JustificationType::Center)
        } else if s == "fill"@ {
            Some(JustificationType::Fill)
        } else if s == "none"@ {
            Some(JustificationType::Unset)
        } else {
            None
        }
    }

    /// Reads a variant as a schema writes it.
    pub fn from_name(s: &str) -> (r: Option<JustificationType>)
        ensures
            r == JustificationType::named(s@),
    {
        if same_text(s, "left") {
            Some(JustificationType::Left)
        } else if same_text(s, "right") {
            Some(JustificationType::Right)
        } else if same_text(s, "center") {
            Some(JustificationType::Center)
        } else if same_text(s, "fill") {
            Some(JustificationType::Fill)
        } else if same_text(s, "none") {
            Some(JustificationType::Unset)
        } else {
            None
        }
    }

    /// The member `key` of `o`: `missing` where there is none, the variant it
    /// names where it names one, and `Fill` for anything else.
    pub open spec fn member_or(o: JsonView, key: Seq<char>, missing: JustificationType) -> JustificationType {
        match o.member(key) {
            None => missing,
            Some(JsonView::Text(s)) => match JustificationType::named(s) {
                Some(e) => e,
                None => JustificationType::Fill,
            },
            Some(_) => JustificationType::Fill,
        }
    }

    /// Reads the member `key` of `o`.
    pub fn read_member(o: &JsonValue, key: &str, missing: JustificationType) -> (r: JustificationType)
        ensures
            r == JustificationType::member_or(o@, key@, missing),
    {
        match o.get(key) {
            None => missing,
            Some(JsonValue::Text(s)) => match JustificationType::from_name(s.as_str()) {
                Some(e) => e,
                None => JustificationType::Fill,
            },
            Some(_) => JustificationType::Fill,
        }
    }
}

/// Where a slider shows its current value.
#[derive(Debug, Clone, Copy, PartialEq, Eq, Structural)]
pub enum CurrentValuePosType {
    Top,
    Bottom,
    Right,
    Left,
    Unset,
}

impl Default for CurrentValuePosType {
    fn default() -> (r: Self)
        ensures
            r == CurrentValuePosType::Top,
    {
        CurrentValuePosType::Top
    }
}

impl CurrentValuePosType {
    /// The variant that a schema writes as `s`.
    pub open spec fn named(s: Seq<char>) -> Option<CurrentValuePosType> {
        if s == "top"@ {
            Some(CurrentValuePosType::Top)
        } else if s == "bottom"@ {
            Some(CurrentValuePosType::Bottom)
        } else if s == "right"@ {
            Some(CurrentValuePosType::Right)
        } else if s == "left"@ {
            Some(CurrentValuePosType::Left)
        } else if s == "none"@ {
            Some(CurrentValuePosType::Unset)
        } else {
            None
        }
    }

    /// Reads a variant as a schema writes it.
    pub fn from_name(s: &str) -> (r: Option<CurrentValuePosType>)
        ensures
            r == CurrentValuePosType::named(s@),
    {
        if same_text(s, "top") {
            Some(CurrentValuePosType::Top)
        } else if same_text(s, "bottom") {
            Some(CurrentValuePosType::Bottom)
        } else if same_text(s, "right") {
            Some(CurrentValuePosType::Right)
        } else if same_text(s, "left") {
            Some(CurrentValuePosType::Left)
        } else if same_text(s, "none") {
            Some(CurrentValuePosType::Unset)
        } else {
            None
        }
    }

    /// The member `key` of `o`: `missing` where there is none, the variant it
    /// names where it names one, and `Top` for anything else.
    pub open spec fn member_or(o: JsonView, key: Seq<char>, missing: CurrentValuePosType) -> CurrentValuePosType {
        match o.member(key) {
            None => missing,
            Some(JsonView::Text(s)) => match CurrentValuePosType::named(s) {
                Some(e) => e,
                None => CurrentValuePosType::Top,
            },
            Some(_) => CurrentValuePosType::Top,
        }
    }

    /// Reads the member `key` of `o`.
    pub fn read_member(o: &JsonValue, key: &str, missing: CurrentValuePosType) -> (r: CurrentValuePosType)
        ensures
            r == CurrentValuePosType::member_or(o@, key@, missing),
    {
        match o.get(key) {
            None => missing,
            Some(JsonValue::Text(s)) => match CurrentValuePosType::from_name(s.as_str()) {
                Some(e) => e,
                None => CurrentValuePosType::Top,
            },
            Some(_) => CurrentValuePosType::Top,
        }
    }
}

/// Whether a number is typed or set with a slider.
#[derive(Debug, Clone, Copy, PartialEq, Eq, Structural)]
pub enum NumericType {
    Input,
    Slider,
}

impl Default for NumericType {
    fn default() -> (r: Self)
        ensures
            r == NumericType::Input,
    {
        NumericType::Input
    }
}

impl NumericType {
    /// The variant that a schema writes as `s`.
    pub open spec fn named(s: Seq<char>) -> Option<NumericType> {
        if s == "input"@ {
            Some(NumericType::Input)
        } else if s == "slider"@ {
            Some(NumericType::Slider)
        } else {
            None
        }
    }

    /// Reads a variant as a schema writes it.
    pub fn from_name(s: &str) -> (r: Option<NumericType>)
        ensures
            r == NumericType::named(s@),
    {
        if same_text(s, "input") {
            Some(NumericType::Input)
        } else if same_text(s, "slider") {
            Some(NumericType::Slider)
        } else {
            None
        }
    }

    /// The member `key` of `o`: `missing` where there is none, the variant it
    /// names where it names one, and `Input` for anything else.
    pub open spec fn member_or(o: JsonView, key: Seq<char>, missing: NumericType) -> NumericType {
        match o.member(key) {
            None => missing,
            Some(JsonView::Text(s)) => match NumericType::named(s) {
                Some(e) => e,
                None => NumericType::Input,
            },
            Some(_) => NumericType::Input,
        }
    }

    /// Reads the member `key` of `o`.
    pub fn read_member(o: &JsonValue, key: &str, missing: NumericType) -> (r: NumericType)
        ensures
            r == NumericType::member_or(o@, key@, missing),
    {
        match o.get(key) {
            None => missing,
            Some(JsonValue::Text(s)) => match NumericType::from_name(s.as_str()) {
                Some(e) => e,
                None => NumericType::Input,
            },
            Some(_) => NumericType::Input,
        }
    }
}

/// Whether a number is whole or has decimals.
#[derive(Debug, Clone, Copy, PartialEq, Eq, Structural)]
pub enum NumericValueType {
    Int,
    Float,
}

impl Default for NumericValueType {
    fn default() -> (r: Self)
        ensures
            r == NumericValueType::Float,
    {
        NumericValueType::Float
    }
}

impl NumericValueType {
    /// The variant that a schema writes as `s`.
    pub open spec fn named(s: Seq<char>) -> Option<NumericValueType> {
        if s == "int"@ {
            Some(NumericValueType::Int)
        } else if s == "float"@ {
            Some(NumericValueType::Float)
        } else {
            None
        }
    }

    /// Reads a variant as a schema writes it.
    pub fn from_name(s: &str) -> (r: Option<NumericValueType>)
        ensures
            r == NumericValueType::named(s@),
    {
        if same_text(s, "int") {
            Some(NumericValueType::Int)
        } else if same_text(s, "float") {
            Some(NumericValueType::Float)
        } else {
            None
        }
    }

    /// The member `key` of `o`: `missing` where there is none, the variant it
    /// names where it names one, and `Float` for anything else.
    pub open spec fn member_or(o: JsonView, key: Seq<char>, missing: NumericValueType) -> NumericValueType {
        match o.member(key) {
            None => missing,
            Some(JsonView::Text(s)) => match NumericValueType::named(s) {
                Some(e) => e,
                None => NumericValueType::Float,
            },
            Some(_) => NumericValueType::Float,
        }
    }

    /// Reads the member `key` of `o`.
    pub fn read_member(o: &JsonValue, key: &str, missing: NumericValueType) -> (r: NumericValueType)
        ensures
            r == NumericValueType::member_or(o@, key@, missing),
    {
        match o.get(key) {
            None => missing,
            Some(JsonValue::Text(s)) => match NumericValueType::from_name(s.as_str()) {
                Some(e) => e,
                None => NumericValueType::Float,
            },
            Some(_) => NumericValueType::Float,
        }
    }
}

} // verus!
