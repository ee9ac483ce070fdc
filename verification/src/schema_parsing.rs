//! The configuration that a schema can give to each kind of widget.
//!
//! A configuration is read leniently: a member that is missing takes the
//! value of the default configuration; a member that does not hold what is
//! expected of it takes the plain default of its type (zero, the empty text,
//! `false`, nothing, or the default variant). Only a configuration that is not
//! a JSON object at all is unreadable.

use crate::json::{opt_text, JsonValue, JsonView};
use crate::schema_enums::{
    ChoiceType, ColorEntryFormat, ColorEntryType, CurrentValuePosType, DateEntryType, HintType,
    IconPositionType, JustificationType, MenuType, NumericType, NumericValueType, OrientationType,
    PurposeType, TextAlignmentType,
};
use crate::text::parsed_i32;
use vstd::prelude::*;

verus! {

/// The text of member `key`: `missing` where there is none, empty where it is
/// not a text.
pub open spec fn text_or(o: JsonView, key: Seq<char>, missing: Seq<char>) -> Seq<char> {
    match o.member(key) {
        None => missing,
        Some(JsonView::Text(s)) => s,
        Some(_) => Seq::empty(),
    }
}

/// The truth value of member `key`: `missing` where there is none, `false`
/// where it is not a truth value.
pub open spec fn bool_or(o: JsonView, key: Seq<char>, missing: bool) -> bool {
    match o.member(key) {
        None => missing,
        Some(JsonView::Bool(b)) => b,
        Some(_) => false,
    }
}

/// The whole number of member `key`: `missing` where there is none, zero
/// where it is not a whole number of 32 bits.
pub open spec fn i32_or(o: JsonView, key: Seq<char>, missing: i32) -> i32 {
    match o.member(key) {
        None => missing,
        Some(v) => match v.int32() {
            Some(i) => i,
            None => 0,
        },
    }
}

/// The text of member `key`, where it is a text.
pub open spec fn text_at(o: JsonView, key: Seq<char>) -> Option<Seq<char>> {
    match o.member(key) {
        Some(JsonView::Text(s)) => Some(s),
        _ => None,
    }
}

/// Reads the text of member `key`.
pub fn read_text(o: &JsonValue, key: &str, missing: &str) -> (r: String)
    ensures
        r@ == text_or(o@, key@, missing@),
{
    match o.get(key) {
        None => missing.to_owned(),
        Some(JsonValue::Text(s)) => s.clone(),
        Some(_) => String::new(),
    }
}

/// Reads the truth value of member `key`.
pub fn read_bool(o: &JsonValue, key: &str, missing: bool) -> (r: bool)
    ensures
        r == bool_or(o@, key@, missing),
{
    match o.get(key) {
        None => missing,
        Some(JsonValue::Bool(b)) => *b,
        Some(_) => false,
    }
}

/// Reads the whole number of member `key`.
pub fn read_i32(o: &JsonValue, key: &str, missing: i32) -> (r: i32)
    ensures
        r == i32_or(o@, key@, missing),
{
    match o.get(key) {
        None => missing,
        Some(v) => match v.as_i32() {
            Some(i) => i,
            None => 0,
        },
    }
}

/// Reads the text of member `key`, where it is a text.
pub fn read_opt_text(o: &JsonValue, key: &str) -> (r: Option<String>)
    ensures
        opt_text(r) == text_at(o@, key@),
{
    match o.get(key) {
        Some(JsonValue::Text(s)) => Some(s.clone()),
        _ => None,
    }
}

/// How a file or a directory is asked for.
#[derive(Debug, Clone, PartialEq)]
pub struct FsEntry {
    pub mask: String,
    pub relative: Option<String>,
    pub is_new: bool,
    pub current_folder: Option<String>,
    pub multiple: bool,
    pub default_name: Option<String>,
    pub is_dir: bool,
    pub title: Option<String>,
}

pub struct FsEntryView {
    pub mask: Seq<char>,
    pub relative: Option<Seq<char>>,
    pub is_new: bool,
    pub current_folder: Option<Seq<char>>,
    pub multiple: bool,
    pub default_name: Option<Seq<char>>,
    pub is_dir: bool,
    pub title: Option<Seq<char>>,
}

impl View for FsEntry {
    type V = FsEntryView;

    open spec fn view(&self) -> FsEntryView {
        FsEntryView {
            mask: self.mask@,
            relative: opt_text(self.relative),
            is_new: self.is_new,
            current_folder: opt_text(self.current_folder),
            multiple: self.multiple,
            default_name: opt_text(self.default_name),
            is_dir: self.is_dir,
            title: opt_text(self.title),
        }
    }
}

impl FsEntryView {
    /// Any existing file, one at a time.
    pub open spec fn initial() -> FsEntryView {
        FsEntryView {
            mask: "*"@,
            relative: None,
            is_new: false,
            current_folder: None,
            multiple: false,
            default_name: None,
            is_dir: false,
            title: None,
        }
    }

    /// What a schema configures. A mask that is missing or is not a text is
    /// `*`.
    pub open spec fn read(v: JsonView) -> Option<FsEntryView> {
        if v is Object {
            Some(
                FsEntryView {
                    mask: match v.member("mask"@) {
                        Some(JsonView::Text(s)) => s,
                        _ => "*"@,
                    },
                    relative: text_at(v, "relative"@),
                    is_new: bool_or(v, "is_new"@, false),
                    current_folder: text_at(v, "current_folder"@),
                    multiple: bool_or(v, "multiple"@, false),
                    default_name: text_at(v, "default_name"@),
                    is_dir: bool_or(v, "is_dir"@, false),
                    title: text_at(v, "title"@),
                },
            )
        } else {
            None
        }
    }
}

impl Default for FsEntry {
    fn default() -> (r: Self)
        ensures
            r@ == FsEntryView::initial(),
    {
        FsEntry {
            mask: "*".to_owned(),
            relative: None,
            is_new: false,
            current_folder: None,
            multiple: false,
            default_name: None,
            is_dir: false,
            title: None,
        }
    }
}

impl FsEntry {
    pub fn from_json(v: &JsonValue) -> (r: Option<FsEntry>)
        ensures
            match FsEntryView::read(v@) {
                Some(e) => r is Some && r->0@ == e,
                None => r is None,
            },
    {
        if !v.is_object() {
            return None;
        }
        let mask = match v.get("mask") {
            Some(JsonValue::Text(s)) => s.clone(),
            _ => "*".to_owned(),
        };
        Some(
            FsEntry {
                mask,
                relative: read_opt_text(v, "relative"),
                is_new: read_bool(v, "is_new", false),
                current_folder: read_opt_text(v, "current_folder"),
                multiple: read_bool(v, "multiple", false),
                default_name: read_opt_text(v, "default_name"),
                is_dir: read_bool(v, "is_dir", false),
                title: read_opt_text(v, "title"),
            },
        )
    }

    /// A copy with the same content.
    pub fn duplicate(&self) -> (r: FsEntry)
        ensures
            r@ == self@,
    {
        FsEntry {
            mask: self.mask.clone(),
            relative: copy_opt_text(&self.relative),
            is_new: self.is_new,
            current_folder: copy_opt_text(&self.current_folder),
            multiple: self.multiple,
            default_name: copy_opt_text(&self.default_name),
            is_dir: self.is_dir,
            title: copy_opt_text(&self.title),
        }
    }
}

/// A copy of an optional text.
pub fn copy_opt_text(s: &Option<String>) -> (r: Option<String>)
    ensures
        opt_text(r) == opt_text(*s),
{
    match s {
        Some(x) => Some(x.clone()),
        None => None,
    }
}

/// How a day or a time of day is asked for.
#[derive(Debug, Clone, PartialEq)]
pub struct DateEntry {
    pub format: String,
    pub kind: DateEntryType,
}

pub struct DateEntryView {
    pub format: Seq<char>,
    pub kind: DateEntryType,
}

impl View for DateEntry {
    type V = DateEntryView;

    open spec fn view(&self) -> DateEntryView {
        DateEntryView { format: self.format@, kind: self.kind }
    }
}

impl DateEntryView {
    /// A day, in no particular format.
    pub open spec fn initial() -> DateEntryView {
        DateEntryView { format: Seq::empty(), kind: DateEntryType::Date }
    }

    pub open spec fn read(v: JsonView) -> Option<DateEntryView> {
        if v is Object {
            Some(
                DateEntryView {
                    format: text_or(v, "format"@, Seq::empty()),
                    kind: DateEntryType::member_or(v, "type"@, DateEntryType::Date),
                },
            )
        } else {
            None
        }
    }
}

impl Default for DateEntry {
    fn default() -> (r: Self)
        ensures
            r@ == DateEntryView::initial(),
    {
        DateEntry { format: String::new(), kind: DateEntryType::Date }
    }
}

impl DateEntry {
    pub fn from_json(v: &JsonValue) -> (r: Option<DateEntry>)
        ensures
            match DateEntryView::read(v@) {
                Some(e) => r is Some && r->0@ == e,
                None => r is None,
            },
    {
        if !v.is_object() {
            return None;
        }
        proof {
            reveal_strlit("");
            assert(""@ =~= Seq::<char>::empty());
        }
        Some(
            DateEntry {
                format: read_text(v, "format", ""),
                kind: DateEntryType::read_member(v, "type", DateEntryType::Date),
            },
        )
    }

    /// A copy with the same content.
    pub fn duplicate(&self) -> (r: DateEntry)
        ensures
            r@ == self@,
    {
        DateEntry { format: self.format.clone(), kind: self.kind }
    }
}

/// Hours, minutes and seconds.
#[derive(Debug, Clone, Copy, PartialEq, Eq, Structural)]
pub struct TimeInput(pub i32, pub i32, pub i32);

impl Default for TimeInput {
    fn default() -> (r: Self)
        ensures
            r == TimeInput(0, 0, 0),
    {
        TimeInput(0, 0, 0)
    }
}

/// How a colour is asked for.
#[derive(Debug, Clone, PartialEq)]
pub struct ColorEntry {
    pub kind: ColorEntryType,
    pub format: ColorEntryFormat,
    pub alpha: bool,
    pub title: String,
}

pub struct ColorEntryView {
    pub kind: ColorEntryType,
    pub format: ColorEntryFormat,
    pub alpha: bool,
    pub title: Seq<char>,
}

impl View for ColorEntry {
    type V = ColorEntryView;

    open spec fn view(&self) -> ColorEntryView {
        ColorEntryView {
            kind: self.kind,
            format: self.format,
            alpha: self.alpha,
            title: self.title@,
        }
    }
}

impl ColorEntryView {
    /// A button that opens a chooser titled "Choose a color".
    pub open spec fn initial() -> ColorEntryView {
        ColorEntryView {
            kind: ColorEntryType::Button,
            format: ColorEntryFormat::RGB,
            alpha: false,
            title: "Choose a color"@,
        }
    }

    pub open spec fn read(v: JsonView) -> Option<ColorEntryView> {
        if v is Object {
            Some(
                ColorEntryView {
                    kind: ColorEntryType::member_or(v, "type"@, ColorEntryType::Button),
                    format: ColorEntryFormat::member_or(v, "format"@, ColorEntryFormat::RGB),
                    alpha: bool_or(v, "alpha"@, false),
                    title: text_or(v, "title"@, "Choose a color"@),
                },
            )
        } else {
            None
        }
    }
}

impl Default for ColorEntry {
    fn default() -> (r: Self)
        ensures
            r@ == ColorEntryView::initial(),
    {
        ColorEntry {
            kind: ColorEntryType::Button,
            format: ColorEntryFormat::RGB,
            alpha: false,
            title: "Choose a color".to_owned(),
        }
    }
}

impl ColorEntry {
    pub fn from_json(v: &JsonValue) -> (r: Option<ColorEntry>)
        ensures
            match ColorEntryView::read(v@) {
                Some(e) => r is Some && r->0@ == e,
                None => r is None,
            },
    {
        if !v.is_object() {
            return None;
        }
        Some(
            ColorEntry {
                kind: ColorEntryType::read_member(v, "type", ColorEntryType::Button),
                format: ColorEntryFormat::read_member(v, "format", ColorEntryFormat::RGB),
                alpha: read_bool(v, "alpha", false),
                title: read_text(v, "title", "Choose a color"),
            },
        )
    }

    /// A copy with the same content.
    pub fn duplicate(&self) -> (r: ColorEntry)
        ensures
            r@ == self@,
    {
        ColorEntry {
            kind: self.kind,
            format: self.format,
            alpha: self.alpha,
            title: self.title.clone(),
        }
    }
}

/// How a yes/no state is asked for.
#[derive(Debug, Clone, PartialEq)]
pub struct ChoiceEntry {
    pub kind: ChoiceType,
    pub label: String,
}

pub struct ChoiceEntryView {
    pub kind: ChoiceType,
    pub label: Seq<char>,
}

impl View for ChoiceEntry {
    type V = ChoiceEntryView;

    open spec fn view(&self) -> ChoiceEntryView {
        ChoiceEntryView { kind: self.kind, label: self.label@ }
    }
}

impl ChoiceEntryView {
    /// A checkbox without a label.
    pub open spec fn initial() -> ChoiceEntryView {
        ChoiceEntryView { kind: ChoiceType::Checkbox, label: Seq::empty() }
    }

    pub open spec fn read(v: JsonView) -> Option<ChoiceEntryView> {
        if v is Object {
            Some(
                ChoiceEntryView {
                    kind: ChoiceType::member_or(v, "type"@, ChoiceType::Checkbox),
                    label: text_or(v, "label"@, Seq::empty()),
                },
            )
        } else {
            None
        }
    }
}

impl Default for ChoiceEntry {
    fn default() -> (r: Self)
        ensures
            r@ == ChoiceEntryView::initial(),
    {
        ChoiceEntry { kind: ChoiceType::Checkbox, label: String::new() }
    }
}

impl ChoiceEntry {
    pub fn from_json(v: &JsonValue) -> (r: Option<ChoiceEntry>)
        ensures
            match ChoiceEntryView::read(v@) {
                Some(e) => r is Some && r->0@ == e,
                None => r is None,
            },
    {
        if !v.is_object() {
            return None;
        }
        proof {
            reveal_strlit("");
            assert(""@ =~= Seq::<char>::empty());
        }
        Some(
            ChoiceEntry {
                kind: ChoiceType::read_member(v, "type", ChoiceType::Checkbox),
                label: read_text(v, "label", ""),
            },
        )
    }

    /// A copy with the same content.
    pub fn duplicate(&self) -> (r: ChoiceEntry)
        ensures
            r@ == self@,
    {
        ChoiceEntry { kind: self.kind, label: self.label.clone() }
    }
}

/// How one of several choices is asked for.
#[derive(Debug, Clone, Copy, PartialEq, Eq, Structural)]
pub struct MenuEntry {
    pub kind: MenuType,
    pub searchable: bool,
    pub multichoice: bool,
    pub orientation: OrientationType,
}

impl MenuEntry {
    /// A drop-down list, laid out vertically.
    pub open spec fn initial() -> MenuEntry {
        MenuEntry {
            kind: MenuType::DropDown,
            searchable: false,
            multichoice: false,
            orientation: OrientationType::Vertical,
        }
    }

    pub open spec fn read(v: JsonView) -> Option<MenuEntry> {
        if v is Object {
            Some(
                MenuEntry {
                    kind: MenuType::member_or(v, "type"@, MenuType::DropDown),
                    searchable: bool_or(v, "searchable"@, false),
                    multichoice: bool_or(v, "multichoice"@, false),
                    orientation: OrientationType::member_or(
                        v,
                        "orientation"@,
                        OrientationType::Vertical,
                    ),
                },
            )
        } else {
            None
        }
    }

    pub fn from_json(v: &JsonValue) -> (r: Option<MenuEntry>)
        ensures
            r == MenuEntry::read(v@),
    {
        if !v.is_object() {
            return None;
        }
        Some(
            MenuEntry {
                kind: MenuType::read_member(v, "type", MenuType::DropDown),
                searchable: read_bool(v, "searchable", false),
                multichoice: read_bool(v, "multichoice", false),
                orientation: OrientationType::read_member(
                    v,
                    "orientation",
                    OrientationType::Vertical,
                ),
            },
        )
    }
}

impl Default for MenuEntry {
    fn default() -> (r: Self)
        ensures
            r == MenuEntry::initial(),
    {
        MenuEntry {
            kind: MenuType::DropDown,
            multichoice: false,
            searchable: false,
            orientation: OrientationType::Vertical,
        }
    }
}

/// How a text is asked for.
#[derive(Debug, Clone, PartialEq)]
pub struct TextEntry {
    pub max_len: i32,
    pub height: i32,
    pub placeholder: String,
    pub icon: String,
    pub icon_position: IconPositionType,
    pub tooltip: String,
    pub hint_text: String,
    pub multiline: bool,
    pub direction: TextAlignmentType,
    pub overwrite: bool,
    pub purpose: PurposeType,
    pub hint: HintType,
    pub justify: JustificationType,
}

pub struct TextEntryView {
    pub max_len: i32,
    pub height: i32,
    pub placeholder: Seq<char>,
    pub icon: Seq<char>,
    pub icon_position: IconPositionType,
    pub tooltip: Seq<char>,
    pub hint_text: Seq<char>,
    pub multiline: bool,
    pub direction: TextAlignmentType,
    pub overwrite: bool,
    pub purpose: PurposeType,
    pub hint: HintType,
    pub justify: JustificationType,
}

impl View for TextEntry {
    type V = TextEntryView;

    open spec fn view(&self) -> TextEntryView {
        TextEntryView {
            max_len: self.max_len,
            height: self.height,
            placeholder: self.placeholder@,
            icon: self.icon@,
            icon_position: self.icon_position,
            tooltip: self.tooltip@,
            hint_text: self.hint_text@,
            multiline: self.multiline,
            direction: self.direction,
            overwrite: self.overwrite,
            purpose: self.purpose,
            hint: self.hint,
            justify: self.justify,
        }
    }
}

impl TextEntryView {
    /// One line of free text of any length; a text area would be 50 high.
    pub open spec fn initial() -> TextEntryView {
        TextEntryView {
            max_len: 0,
            height: 50,
            placeholder: Seq::empty(),
            icon: Seq::empty(),
            icon_position: IconPositionType::Unset,
            tooltip: Seq::empty(),
            hint_text: Seq::empty(),
            multiline: false,
            direction: TextAlignmentType::Left,
            overwrite: false,
            purpose: PurposeType::FreeForm,
            hint: HintType::Unset,
            justify: JustificationType::Unset,
        }
    }

    pub open spec fn read(v: JsonView) -> Option<TextEntryView> {
        if v is Object {
            Some(
                TextEntryView {
                    max_len: i32_or(v, "max_len"@, 0),
                    height: i32_or(v, "height"@, 50),
                    placeholder: text_or(v, "placeholder"@, Seq::empty()),
                    icon: text_or(v, "icon"@, Seq::empty()),
                    icon_position: IconPositionType::member_or(
                        v,
                        "icon_position"@,
                        IconPositionType::Unset,
                    ),
                    tooltip: text_or(v, "tooltip"@, Seq::empty()),
                    hint_text: text_or(v, "hint_text"@, Seq::empty()),
                    multiline: bool_or(v, "multiline"@, false),
                    direction: TextAlignmentType::member_or(
                        v,
                        "direction"@,
                        TextAlignmentType::Left,
                    ),
                    overwrite: bool_or(v, "overwrite"@, false),
                    purpose: PurposeType::member_or(v, "purpose"@, PurposeType::FreeForm),
                    hint: HintType::member_or(v, "hint"@, HintType::Unset),
                    justify: JustificationType::member_or(
                        v,
                        "justify"@,
                        JustificationType::Unset,
                    ),
                },
            )
        } else {
            None
        }
    }
}

impl Default for TextEntry {
    fn default() -> (r: Self)
        ensures
            r@ == TextEntryView::initial(),
    {
        TextEntry {
            hint_text: String::new(),
            max_len: 0,
            height: 50,
            placeholder: String::new(),
            tooltip: String::new(),
            icon: String::new(),
            icon_position: IconPositionType::Unset,
            multiline: false,
            overwrite: false,
            direction: TextAlignmentType::Left,
            purpose: PurposeType::FreeForm,
            hint: HintType::Unset,
            justify: JustificationType::Unset,
        }
    }
}

impl TextEntry {
    pub fn from_json(v: &JsonValue) -> (r: Option<TextEntry>)
        ensures
            match TextEntryView::read(v@) {
                Some(e) => r is Some && r->0@ == e,
                None => r is None,
            },
    {
        if !v.is_object() {
            return None;
        }
        proof {
            reveal_strlit("");
            assert(""@ =~= Seq::<char>::empty());
        }
        Some(
            TextEntry {
                max_len: read_i32(v, "max_len", 0),
                height: read_i32(v, "height", 50),
                placeholder: read_text(v, "placeholder", ""),
                icon: read_text(v, "icon", ""),
                icon_position: IconPositionType::read_member(
                    v,
                    "icon_position",
                    IconPositionType::Unset,
                ),
                tooltip: read_text(v, "tooltip", ""),
                hint_text: read_text(v, "hint_text", ""),
                multiline: read_bool(v, "multiline", false),
                direction: TextAlignmentType::read_member(v, "direction", TextAlignmentType::Left),
                overwrite: read_bool(v, "overwrite", false),
                purpose: PurposeType::read_member(v, "purpose", PurposeType::FreeForm),
                hint: HintType::read_member(v, "hint", HintType::Unset),
                justify: JustificationType::read_member(v, "justify", JustificationType::Unset),
            },
        )
    }

    /// A copy with the same content.
    pub fn duplicate(&self) -> (r: TextEntry)
        ensures
            r@ == self@,
    {
        TextEntry {
            max_len: self.max_len,
            height: self.height,
            placeholder: self.placeholder.clone(),
            icon: self.icon.clone(),
            icon_position: self.icon_position,
            tooltip: self.tooltip.clone(),
            hint_text: self.hint_text.clone(),
            multiline: self.multiline,
            direction: self.direction,
            overwrite: self.overwrite,
            purpose: self.purpose,
            hint: self.hint,
            justify: self.justify,
        }
    }
}

/// A number of a schema: a whole number of 32 bits, or any other number, of
/// which the text is kept as the document writes it.
#[derive(Debug, Clone, PartialEq)]
pub enum IntOrFloat {
    Int(i32),
    Float(String),
}

pub enum IntOrFloatView {
    Int(i32),
    Float(Seq<char>),
}

impl View for IntOrFloat {
    type V = IntOrFloatView;

    open spec fn view(&self) -> IntOrFloatView {
        match self {
            IntOrFloat::Int(i) => IntOrFloatView::Int(*i),
            IntOrFloat::Float(f) => IntOrFloatView::Float(f@),
        }
    }
}

impl IntOrFloatView {
    /// The number that a document writes as `n`.
    pub open spec fn of_number(n: Seq<char>) -> IntOrFloatView {
        match parsed_i32(n) {
            Some(i) => IntOrFloatView::Int(i),
            None => IntOrFloatView::Float(n),
        }
    }

    /// The number of member `key`: `missing` where there is none, zero where
    /// it is not a number.
    pub open spec fn member_or(o: JsonView, key: Seq<char>, missing: IntOrFloatView)
        -> IntOrFloatView {
        match o.member(key) {
            None => missing,
            Some(JsonView::Number(n)) => IntOrFloatView::of_number(n),
            Some(_) => IntOrFloatView::Float("0"@),
        }
    }

    /// The whole number that stands for this number where one is needed:
    /// itself, or zero for a number that is not one.
    pub open spec fn whole(self) -> i32 {
        match self {
            IntOrFloatView::Int(i) => i,
            IntOrFloatView::Float(_) => 0,
        }
    }
}

impl Default for IntOrFloat {
    fn default() -> (r: Self)
        ensures
            r@ == IntOrFloatView::Float("0"@),
    {
        IntOrFloat::Float("0".to_owned())
    }
}

impl IntOrFloat {
    /// The number that a document writes as `n`.
    pub fn from_number(n: &str) -> (r: IntOrFloat)
        ensures
            r@ == IntOrFloatView::of_number(n@),
    {
        match crate::text::parse_i32(n) {
            Some(i) => IntOrFloat::Int(i),
            None => IntOrFloat::Float(n.to_owned()),
        }
    }

    /// Reads the number of member `key`, or hands back `missing` where there
    /// is no such member.
    pub fn read_member(o: &JsonValue, key: &str, missing: IntOrFloat) -> (r: IntOrFloat)
        ensures
            r@ == IntOrFloatView::member_or(o@, key@, missing@),
    {
        match o.get(key) {
            None => missing,
            Some(JsonValue::Number(n)) => IntOrFloat::from_number(n.as_str()),
            Some(_) => IntOrFloat::Float("0".to_owned()),
        }
    }

    /// A copy with the same content.
    pub fn duplicate(&self) -> (r: IntOrFloat)
        ensures
            r@ == self@,
    {
        match self {
            IntOrFloat::Int(i) => IntOrFloat::Int(*i),
            IntOrFloat::Float(f) => IntOrFloat::Float(f.clone()),
        }
    }

    /// The number as text.
    pub fn to_string(&self) -> (r: String)
        ensures
            r@ == match self@ {
                IntOrFloatView::Int(i) => crate::text::signed_decimal(i as int),
                IntOrFloatView::Float(f) => f,
            },
    {
        match self {
            IntOrFloat::Int(i) => crate::text::signed_text(*i),
            IntOrFloat::Float(f) => f.clone(),
        }
    }
}

/// A mark on a slider: where it stands and what is written beside it.
#[derive(Debug, Clone, PartialEq)]
pub struct MarkData {
    pub value: String,
    pub text: Option<String>,
}

pub struct MarkDataView {
    pub value: Seq<char>,
    pub text: Option<Seq<char>>,
}

impl View for MarkData {
    type V = MarkDataView;

    open spec fn view(&self) -> MarkDataView {
        MarkDataView { value: self.value@, text: opt_text(self.text) }
    }
}

/// The views of a list of marks, element by element.
pub open spec fn mark_views(v: Seq<MarkData>) -> Seq<MarkDataView> {
    Seq::new(v.len(), |i: int| v[i]@)
}

impl MarkDataView {
    /// A mark is an object with a member `value`; a value that is not a
    /// number counts as zero.
    pub open spec fn read(v: JsonView) -> Option<MarkDataView> {
        match v.member("value"@) {
            Some(JsonView::Number(n)) => Some(MarkDataView { value: n, text: text_at(v, "text"@) }),
            Some(_) => Some(MarkDataView { value: "0"@, text: text_at(v, "text"@) }),
            None => None,
        }
    }

    /// The marks of a list, if every element is a mark.
    pub open spec fn read_all(items: Seq<JsonView>) -> Option<Seq<MarkDataView>>
        decreases items.len(),
    {
        if items.len() == 0 {
            Some(Seq::empty())
        } else {
            match (MarkDataView::read_all(items.drop_last()), MarkDataView::read(items.last())) {
                (Some(head), Some(m)) => Some(head.push(m)),
                _ => None,
            }
        }
    }

    /// The marks of member `key`: none where the member is missing or is not
    /// a list of marks.
    pub open spec fn member_or_empty(o: JsonView, key: Seq<char>) -> Seq<MarkDataView> {
        match o.member(key) {
            Some(JsonView::Array(items)) => match MarkDataView::read_all(items) {
                Some(marks) => marks,
                None => Seq::empty(),
            },
            _ => Seq::empty(),
        }
    }
}

impl MarkData {
    pub fn from_json(v: &JsonValue) -> (r: Option<MarkData>)
        ensures
            match MarkDataView::read(v@) {
                Some(e) => r is Some && r->0@ == e,
                None => r is None,
            },
    {
        match v.get("value") {
            Some(JsonValue::Number(n)) => Some(
                MarkData { value: n.clone(), text: read_opt_text(v, "text") },
            ),
            Some(_) => Some(MarkData { value: "0".to_owned(), text: read_opt_text(v, "text") }),
            None => None,
        }
    }

    /// Reads the marks of member `key`.
    pub fn read_member(o: &JsonValue, key: &str) -> (r: Vec<MarkData>)
        ensures
            mark_views(r@) == MarkDataView::member_or_empty(o@, key@),
    {
        let mut out: Vec<MarkData> = Vec::new();
        assert(mark_views(out@) =~= Seq::empty());
        match o.get(key) {
            Some(JsonValue::Array(a)) => {
                let ghost whole = o@.member(key@)->0;
                let ghost items = whole->Array_0;
                assert(whole == JsonValue::Array(*a)@);
                let mut i: usize = 0;
                while i < a.len()
                    invariant
                        i <= a.len(),
                        items.len() == a@.len(),
                        o@.member(key@) == Some(JsonView::Array(items)),
                        forall|j: int| 0 <= j < a@.len() ==> items[j] == a@[j]@,
                        MarkDataView::read_all(items.take(i as int)) == Some(mark_views(out@)),
                    decreases a.len() - i,
                {
                    proof {
                        assert(items.take(i + 1).drop_last() == items.take(i as int));
                    }
                    match MarkData::from_json(&a[i]) {
                        Some(m) => {
                            let ghost before = mark_views(out@);
                            out.push(m);
                            assert(mark_views(out@) =~= before.push(m@));
                        },
                        None => {
                            proof {
                                lemma_marks_prefix(items, i + 1);
                            }
                            let none: Vec<MarkData> = Vec::new();
                            assert(mark_views(none@) =~= Seq::empty());
                            return none;
                        },
                    }
                    i += 1;
                }
                proof {
                    assert(items.take(a.len() as int) == items);
                }
                out
            },
            _ => out,
        }
    }

    /// A copy with the same content.
    pub fn duplicate(&self) -> (r: MarkData)
        ensures
            r@ == self@,
    {
        MarkData { value: self.value.clone(), text: copy_opt_text(&self.text) }
    }
}

/// A list is not made of marks where one of its beginnings is not.
pub proof fn lemma_marks_prefix(items: Seq<JsonView>, n: int)
    requires
        0 <= n <= items.len(),
        MarkDataView::read_all(items.take(n)) is None,
    ensures
        MarkDataView::read_all(items) is None,
    decreases items.len() - n,
{
    if n < items.len() {
        assert(items.take(n + 1).drop_last() == items.take(n));
        lemma_marks_prefix(items, n + 1);
    } else {
        assert(items.take(n) == items);
    }
}

/// How a number is asked for.
#[derive(Debug, Clone, PartialEq)]
pub struct NumericEntry {
    pub kind: NumericType,
    pub value_type: NumericValueType,
    pub stepping: IntOrFloat,
    pub max: IntOrFloat,
    pub min: IntOrFloat,
    pub initial_value: IntOrFloat,
    pub page_increment: IntOrFloat,
    pub page_size: IntOrFloat,
    pub orientation: OrientationType,
    pub precision: IntOrFloat,
    pub wrap: bool,
    pub show_current: CurrentValuePosType,
    pub marks: Vec<MarkData>,
    pub slider_height: i32,
}

pub struct NumericEntryView {
    pub kind: NumericType,
    pub value_type: NumericValueType,
    pub stepping: IntOrFloatView,
    pub max: IntOrFloatView,
    pub min: IntOrFloatView,
    pub initial_value: IntOrFloatView,
    pub page_increment: IntOrFloatView,
    pub page_size: IntOrFloatView,
    pub orientation: OrientationType,
    pub precision: IntOrFloatView,
    pub wrap: bool,
    pub show_current: CurrentValuePosType,
    pub marks: Seq<MarkDataView>,
    pub slider_height: i32,
}

impl View for NumericEntry {
    type V = NumericEntryView;

    open spec fn view(&self) -> NumericEntryView {
        NumericEntryView {
            kind: self.kind,
            value_type: self.value_type,
            stepping: self.stepping@,
            max: self.max@,
            min: self.min@,
            initial_value: self.initial_value@,
            page_increment: self.page_increment@,
            page_size: self.page_size@,
            orientation: self.orientation,
            precision: self.precision@,
            wrap: self.wrap,
            show_current: self.show_current,
            marks: mark_views(self.marks@),
            slider_height: self.slider_height,
        }
    }
}

impl NumericEntryView {
    /// A typed number with decimals, from zero up to the largest number that
    /// 64 bits of floating point hold, in steps of one, two decimals shown.
    pub open spec fn initial() -> NumericEntryView {
        NumericEntryView {
            kind: NumericType::Input,
            value_type: NumericValueType::Float,
            stepping: IntOrFloatView::Float("1"@),
            max: IntOrFloatView::Float("1.7976931348623157e308"@),
            min: IntOrFloatView::Float("0"@),
            initial_value: IntOrFloatView::Float("0"@),
            page_increment: IntOrFloatView::Float("5"@),
            page_size: IntOrFloatView::Float("1"@),
            orientation: OrientationType::Horizontal,
            precision: IntOrFloatView::Int(2),
            wrap: false,
            show_current: CurrentValuePosType::Top,
            marks: Seq::empty(),
            slider_height: 100,
        }
    }

    pub open spec fn read(v: JsonView) -> Option<NumericEntryView> {
        if v is Object {
            let d = NumericEntryView::initial();
            Some(
                NumericEntryView {
                    kind: NumericType::member_or(v, "type"@, d.kind),
                    value_type: NumericValueType::member_or(v, "value_type"@, d.value_type),
                    stepping: IntOrFloatView::member_or(v, "stepping"@, d.stepping),
                    max: IntOrFloatView::member_or(v, "max"@, d.max),
                    min: IntOrFloatView::member_or(v, "min"@, d.min),
                    initial_value: IntOrFloatView::member_or(v, "initial_value"@, d.initial_value),
                    page_increment: IntOrFloatView::member_or(
                        v,
                        "page_increment"@,
                        d.page_increment,
                    ),
                    page_size: IntOrFloatView::member_or(v, "page_size"@, d.page_size),
                    orientation: OrientationType::member_or(v, "orientation"@, d.orientation),
                    precision: IntOrFloatView::member_or(v, "precision"@, d.precision),
                    wrap: bool_or(v, "wrap"@, false),
                    show_current: CurrentValuePosType::member_or(v, "show_current"@, d.show_current),
                    marks: MarkDataView::member_or_empty(v, "marks"@),
                    slider_height: i32_or(v, "slider_height"@, 100),
                },
            )
        } else {
            None
        }
    }
}

impl Default for NumericEntry {
    fn default() -> (r: Self)
        ensures
            r@ == NumericEntryView::initial(),
    {
        let r = NumericEntry {
            kind: NumericType::Input,
            value_type: NumericValueType::Float,
            stepping: IntOrFloat::Float("1".to_owned()),
            max: IntOrFloat::Float("1.7976931348623157e308".to_owned()),
            min: IntOrFloat::Float("0".to_owned()),
            initial_value: IntOrFloat::Float("0".to_owned()),
            page_increment: IntOrFloat::Float("5".to_owned()),
            page_size: IntOrFloat::Float("1".to_owned()),
            orientation: OrientationType::Horizontal,
            precision: IntOrFloat::Int(2),
            slider_height: 100,
            wrap: false,
            show_current: CurrentValuePosType::Top,
            marks: Vec::new(),
        };
        assert(mark_views(r.marks@) =~= Seq::empty());
        r
    }
}

impl NumericEntry {
    pub fn from_json(v: &JsonValue) -> (r: Option<NumericEntry>)
        ensures
            match NumericEntryView::read(v@) {
                Some(e) => r is Some && r->0@ == e,
                None => r is None,
            },
    {
        if !v.is_object() {
            return None;
        }
        let d = NumericEntry::default();
        Some(
            NumericEntry {
                kind: NumericType::read_member(v, "type", d.kind),
                value_type: NumericValueType::read_member(v, "value_type", d.value_type),
                stepping: IntOrFloat::read_member(v, "stepping", d.stepping),
                max: IntOrFloat::read_member(v, "max", d.max),
                min: IntOrFloat::read_member(v, "min", d.min),
                initial_value: IntOrFloat::read_member(v, "initial_value", d.initial_value),
                page_increment: IntOrFloat::read_member(v, "page_increment", d.page_increment),
                page_size: IntOrFloat::read_member(v, "page_size", d.page_size),
                orientation: OrientationType::read_member(v, "orientation", d.orientation),
                precision: IntOrFloat::read_member(v, "precision", d.precision),
                wrap: read_bool(v, "wrap", false),
                show_current: CurrentValuePosType::read_member(v, "show_current", d.show_current),
                marks: MarkData::read_member(v, "marks"),
                slider_height: read_i32(v, "slider_height", 100),
            },
        )
    }

    /// A copy with the same content.
    pub fn duplicate(&self) -> (r: NumericEntry)
        ensures
            r@ == self@,
    {
        let mut marks: Vec<MarkData> = Vec::new();
        let mut i: usize = 0;
        while i < self.marks.len()
            invariant
                i <= self.marks.len(),
                mark_views(marks@) =~= mark_views(self.marks@).take(i as int),
            decreases self.marks.len() - i,
        {
            let m = self.marks[i].duplicate();
            let ghost before = mark_views(marks@);
            marks.push(m);
            proof {
                assert(mark_views(marks@) =~= before.push(m@));
                assert(mark_views(self.marks@).take(i + 1) =~= mark_views(self.marks@).take(
                    i as int,
                ).push(self.marks@[i as int]@));
            }
            i += 1;
        }
        assert(mark_views(self.marks@).take(self.marks.len() as int) == mark_views(self.marks@));
        NumericEntry {
            kind: self.kind,
            value_type: self.value_type,
            stepping: self.stepping.duplicate(),
            max: self.max.duplicate(),
            min: self.min.duplicate(),
            initial_value: self.initial_value.duplicate(),
            page_increment: self.page_increment.duplicate(),
            page_size: self.page_size.duplicate(),
            orientation: self.orientation,
            precision: self.precision.duplicate(),
            wrap: self.wrap,
            show_current: self.show_current,
            marks,
            slider_height: self.slider_height,
        }
    }
}

} // verus!
