//! Puts each kind of widget into its first state.
//!
//! The first state of a widget follows from the default of its property:
//! the text to show, the item to select, the button to press, the day and the
//! time. Building the widget on screen is left to the toolkit.


use crate::primitive::{number_or_zero, opt_primitive, Primitive, PrimitiveView};
use crate::schema_enums::NumericValueType;
use crate::schema_parsing::{
    ChoiceEntry, ColorEntry, DateEntry, FsEntry, IntOrFloat, IntOrFloatView, MenuEntry,
    NumericEntry, NumericEntryView, TextEntry, TimeInput,
};
use crate::text::{
    contains_char, first_index, lemma_pieces_nonempty, pieces, position, same_text,
    signed_decimal, signed_text, split, texts,
};
use crate::value_loader::{load_date, loaded_date};
use crate::widget::{
    button_views, CalendarDate, Control, ControlView, GroupButton, GroupButtonView, SpinTime,
    Widget, WidgetView,
};
use vstd::prelude::*;

verus! {

/// A name and a value of a form, both borrowed.
#[derive(Debug)]
pub struct FormValue<'l> {
    pub name: &'l str,
    pub value: &'l str,
}

impl<'l> FormValue<'l> {
    pub fn new(name: &'l str, value: &'l str) -> (r: FormValue<'l>)
        ensures
            r.name@ == name@,
            r.value@ == value@,
    {
        FormValue { name, value }
    }
}

/// What a file chooser is opened for.
#[derive(Debug, Clone, Copy, PartialEq, Eq, Structural)]
pub enum FileChooserAction {
    Open,
    Save,
    SelectFolder,
}

/// The notation in which a colour is written, as far as its text tells.
#[derive(Debug, Clone, Copy, PartialEq, Eq, Structural)]
pub enum ColorNotation {
    Hex,
    Rgb,
    Hsl,
    Unknown,
}

/// The notation of a colour: hexadecimal where the text begins with `#`,
/// red-green-blue where it begins with `rgb`, hue-saturation-lightness where
/// it holds a percent sign.
pub open spec fn notation_of(color: Seq<char>) -> ColorNotation {
    if "#"@.is_prefix_of(color) {
        ColorNotation::Hex
    } else if "rgb"@.is_prefix_of(color) {
        ColorNotation::Rgb
    } else if color.contains('%') {
        ColorNotation::Hsl
    } else {
        ColorNotation::Unknown
    }
}

/// The text that a default gives; empty where there is none.
pub open spec fn default_text(default: Option<PrimitiveView>) -> Seq<char> {
    match default {
        Some(d) => d.text(),
        None => Seq::empty(),
    }
}

/// The number that a numeric widget shows at first: the default where it is
/// a number, zero where it is something else, and the configured first value
/// where there is no default.
pub open spec fn default_number(default: Option<PrimitiveView>, initial: IntOrFloatView) -> Seq<
    char,
> {
    match default {
        Some(PrimitiveView::Int(i)) => signed_decimal(i as int),
        Some(PrimitiveView::Float(f)) => f,
        Some(_) => "0"@,
        None => match initial {
            IntOrFloatView::Int(i) => signed_decimal(i as int),
            IntOrFloatView::Float(f) => f,
        },
    }
}

/// A number brought into the range of a spinner that starts at zero.
pub open spec fn clamped(v: i32, limit: u32) -> u32 {
    if v < 0 {
        0
    } else if v > limit {
        limit
    } else {
        v as u32
    }
}

/// The spinners for a time.
pub open spec fn spin_time(t: TimeInput) -> SpinTime {
    SpinTime { hour: clamped(t.0, 23), minute: clamped(t.1, 59), second: clamped(t.2, 59) }
}

/// The time that a default gives; midnight where there is none.
pub open spec fn default_time(default: Option<PrimitiveView>) -> SpinTime {
    match default {
        Some(d) => spin_time(d.time()),
        None => SpinTime { hour: 0, minute: 0, second: 0 },
    }
}

/// The day of a date and time written as `YYYY-MM-DDT...`.
pub open spec fn iso_day(text: Seq<char>) -> Option<CalendarDate> {
    let parts = pieces(text, 'T');
    if parts.len() >= 2 {
        loaded_date(parts[0])
    } else {
        None
    }
}

/// The day that a default gives; today where it gives none.
pub open spec fn default_day(default: Option<PrimitiveView>, today: CalendarDate) -> CalendarDate {
    match default {
        Some(d) => match iso_day(d.text()) {
            Some(day) => day,
            None => today,
        },
        None => today,
    }
}

/// The position of `needle` in `items`, the first position where it is not
/// there.
pub open spec fn index_or_first(items: Seq<Seq<char>>, needle: Seq<char>) -> nat {
    match first_index(items, needle) {
        Some(i) => i as nat,
        None => 0,
    }
}

/// The item that a menu selects at first.
pub open spec fn menu_default(items: Seq<Seq<char>>, default: Option<PrimitiveView>) -> nat {
    match default {
        Some(d) => index_or_first(items, d.text()),
        None => 0,
    }
}

/// The last position at which `needle` stands in `items`.
pub open spec fn last_index(items: Seq<Seq<char>>, needle: Seq<char>) -> Option<int>
    decreases items.len(),
{
    if items.len() == 0 {
        None
    } else if items.last() == needle {
        Some(items.len() - 1)
    } else {
        last_index(items.drop_last(), needle)
    }
}

/// The buttons of a group: one for each item, and pressed the last one whose
/// label is `pressed`.
pub open spec fn group_buttons(items: Seq<Seq<char>>, pressed: Seq<char>) -> Seq<GroupButtonView> {
    Seq::new(
        items.len(),
        |i: int| GroupButtonView { label: items[i], active: last_index(items, pressed) == Some(i) },
    )
}

/// The selection of a list with several choices: for each default, the item
/// that equals it, or the first item where none does.
pub open spec fn preselected(items: Seq<Seq<char>>, defaults: Seq<Seq<char>>) -> Seq<bool>
    decreases defaults.len(),
{
    if defaults.len() == 0 {
        Seq::new(items.len(), |i: int| false)
    } else {
        let before = preselected(items, defaults.drop_last());
        let at = index_or_first(items, defaults.last());
        if at < items.len() {
            before.update(at as int, true)
        } else {
            before
        }
    }
}

/// The list of texts that a default gives.
pub open spec fn default_list(default: Option<PrimitiveView>) -> Seq<Seq<char>> {
    match default {
        Some(d) => d.list(),
        None => Seq::empty(),
    }
}

/// The whole number before the decimal point of a number; zero where none is
/// written there.
pub open spec fn whole_part(n: IntOrFloatView) -> i32 {
    match n {
        IntOrFloatView::Int(i) => i,
        IntOrFloatView::Float(f) => number_or_zero(pieces(f, '.')[0]),
    }
}

/// The length of a text, as far as 32 bits with a sign count.
pub open spec fn short_len(s: Seq<char>) -> i32 {
    if s.len() > i32::MAX {
        i32::MAX
    } else {
        s.len() as i32
    }
}

/// How many decimals a numeric widget shows: none for whole numbers;
/// otherwise as many as the default writes, or, without a default, as the
/// configuration asks for.
pub open spec fn digits(options: NumericEntryView, default: Option<PrimitiveView>) -> i32 {
    if options.value_type == NumericValueType::Float {
        match default {
            Some(d) => if d.text().contains('.') {
                short_len(pieces(d.text(), '.').last())
            } else {
                0
            },
            None => whole_part(options.precision),
        }
    } else {
        0
    }
}

/// A number brought into the range of a spinner.
pub fn clamp(v: i32, limit: u32) -> (r: u32)
    requires
        limit <= i32::MAX,
    ensures
        r == clamped(v, limit),
{
    if v < 0 {
        0
    } else if v as u32 > limit {
        limit
    } else {
        v as u32
    }
}

/// The last position at which `needle` stands in `items`.
pub fn find_last(items: &Vec<String>, needle: &str) -> (r: Option<usize>)
    ensures
        match last_index(texts(items@), needle@) {
            Some(i) => r == Some(i as usize) && 0 <= i < items.len(),
            None => r is None,
        },
{
    let mut found: Option<usize> = None;
    let mut i: usize = 0;
    while i < items.len()
        invariant
            i <= items.len(),
            match last_index(texts(items@).take(i as int), needle@) {
                Some(k) => found == Some(k as usize) && 0 <= k < i,
                None => found is None,
            },
        decreases items.len() - i,
    {
        proof {
            let next = texts(items@).take(i + 1);
            assert(next.drop_last() == texts(items@).take(i as int));
            assert(next.last() == items@[i as int]@);
        }
        if same_text(items[i].as_str(), needle) {
            found = Some(i);
        }
        i += 1;
    }
    proof {
        assert(texts(items@).take(items.len() as int) == texts(items@));
    }
    found
}

/// Builds the widgets of a form in their first state.
#[derive(Debug)]
pub struct FormUtils;

impl Default for FormUtils {
    fn default() -> Self {
        FormUtils {  }
    }
}

impl FormUtils {
    pub fn new() -> Self {
        FormUtils {  }
    }

    /// The item that a menu selects at first.
    pub fn get_menu_default(items: &Vec<String>, default: Option<Primitive>) -> (r: usize)
        ensures
            r == menu_default(texts(items@), opt_primitive(default)),
    {
        match default {
            Some(d) => {
                let wanted = d.into_string();
                match position(items, wanted.as_str()) {
                    Some(i) => i,
                    None => 0,
                }
            },
            None => 0,
        }
    }

    /// The text that a default gives.
    pub fn get_string_default(default: Option<Primitive>) -> (r: String)
        ensures
            r@ == default_text(opt_primitive(default)),
    {
        match default {
            Some(d) => d.into_string(),
            None => String::new(),
        }
    }

    /// How many decimals a numeric widget shows.
    pub fn get_digits(options: &NumericEntry, default: &Option<Primitive>) -> (r: i32)
        ensures
            r == digits(options@, opt_primitive(*default)),
    {
        match options.value_type {
            NumericValueType::Float => {
                match default {
                    Some(d) => {
                        let text = d.duplicate().into_string();
                        if contains_char(text.as_str(), '.') {
                            let parts = split(text.as_str(), '.');
                            proof {
                                lemma_pieces_nonempty(text@, '.');
                            }
                            let last = &parts[parts.len() - 1];
                            assert(texts(parts@).last() == last@);
                            let len = last.as_str().unicode_len();
                            if len > 2147483647 {
                                2147483647
                            } else {
                                len as i32
                            }
                        } else {
                            0
                        }
                    },
                    None => match &options.precision {
                        IntOrFloat::Int(i) => *i,
                        IntOrFloat::Float(f) => {
                            let parts = split(f.as_str(), '.');
                            proof {
                                lemma_pieces_nonempty(f@, '.');
                            }
                            assert(texts(parts@)[0] == parts@[0]@);
                            crate::primitive::parse_or_zero(parts[0].as_str())
                        },
                    },
                }
            },
            _ => 0,
        }
    }

    /// The notation in which a colour is written.
    pub fn color_notation(color: &str) -> (r: ColorNotation)
        ensures
            r == notation_of(color@),
    {
        if crate::text::starts_with(color, "#") {
            ColorNotation::Hex
        } else if crate::text::starts_with(color, "rgb") {
            ColorNotation::Rgb
        } else if contains_char(color, '%') {
            ColorNotation::Hsl
        } else {
            ColorNotation::Unknown
        }
    }

    /// What a file chooser is opened for: a directory, a file to be written,
    /// or a file that exists.
    pub fn file_action(options: &FsEntry) -> (r: FileChooserAction)
        ensures
            r == if options.is_dir {
                FileChooserAction::SelectFolder
            } else if options.is_new {
                FileChooserAction::Save
            } else {
                FileChooserAction::Open
            },
    {
        if !options.is_dir {
            if options.is_new {
                FileChooserAction::Save
            } else {
                FileChooserAction::Open
            }
        } else {
            FileChooserAction::SelectFolder
        }
    }

    /// The title of a file chooser: the configured one, or one that says what
    /// is chosen.
    pub fn file_title(options: &FsEntry) -> (r: String)
        ensures
            r@ == match options@.title {
                Some(title) => title,
                None => if options.is_dir {
                    "Choose a directory"@
                } else {
                    "Choose a file"@
                },
            },
    {
        match &options.title {
            Some(title) => title.clone(),
            None => if options.is_dir {
                "Choose a directory".to_owned()
            } else {
                "Choose a file".to_owned()
            },
        }
    }

    /// A label beside a control.
    pub fn label(&self, text: &str, name: &str) -> (r: Widget)
        ensures
            r@ == (WidgetView { name: name@, control: ControlView::Label { text: text@ } }),
    {
        Widget { name: name.to_owned(), control: Control::Label { text: text.to_owned() } }
    }

    /// The number that a numeric widget shows at first.
    pub fn first_number(options: &NumericEntry, default: Option<Primitive>) -> (r: String)
        ensures
            r@ == default_number(opt_primitive(default), options@.initial_value),
    {
        match default {
            Some(Primitive::Int(i)) => signed_text(i),
            Some(Primitive::Float(f)) => f,
            Some(_) => "0".to_owned(),
            None => options.initial_value.to_string(),
        }
    }

    pub fn slider(&self, name: &str, options: Option<NumericEntry>, default: Option<Primitive>) -> (r:
        Widget)
        ensures
            r@.name == name@,
            r@.control == (ControlView::Slider {
                value: default_number(
                    opt_primitive(default),
                    match options {
                        Some(o) => o@.initial_value,
                        None => NumericEntryView::initial().initial_value,
                    },
                ),
            }),
    {
        let options = match options {
            Some(o) => o,
            None => NumericEntry::default(),
        };
        Widget {
            name: name.to_owned(),
            control: Control::Slider { value: FormUtils::first_number(&options, default) },
        }
    }

    pub fn numeric_input(
        &self,
        name: &str,
        options: Option<NumericEntry>,
        default: Option<Primitive>,
    ) -> (r: Widget)
        ensures
            r@.name == name@,
            r@.control == (ControlView::SpinButton {
                value: default_number(
                    opt_primitive(default),
                    match options {
                        Some(o) => o@.initial_value,
                        None => NumericEntryView::initial().initial_value,
                    },
                ),
            }),
    {
        let options = match options {
            Some(o) => o,
            None => NumericEntry::default(),
        };
        Widget {
            name: name.to_owned(),
            control: Control::SpinButton { value: FormUtils::first_number(&options, default) },
        }
    }

    /// An entry with a button that opens a file chooser; empty at first.
    pub fn file_input(&self, name: &str, _options: Option<FsEntry>) -> (r: Widget)
        ensures
            r@ == (WidgetView { name: name@, control: ControlView::FileInput { text: Seq::empty() } }),
    {
        Widget { name: name.to_owned(), control: Control::FileInput { text: String::new() } }
    }

    pub fn color_button(&self, name: &str, _options: Option<ColorEntry>, default: Option<Primitive>) -> (r:
        Widget)
        ensures
            r@ == (WidgetView {
                name: name@,
                control: ControlView::ColorButton { color: default_text(opt_primitive(default)) },
            }),
    {
        Widget {
            name: name.to_owned(),
            control: Control::ColorButton { color: FormUtils::get_string_default(default) },
        }
    }

    pub fn color_input(&self, name: &str, _options: Option<ColorEntry>, default: Option<Primitive>) -> (r:
        Widget)
        ensures
            r@ == (WidgetView {
                name: name@,
                control: ControlView::ColorInput { text: default_text(opt_primitive(default)) },
            }),
    {
        Widget {
            name: name.to_owned(),
            control: Control::ColorInput { text: FormUtils::get_string_default(default) },
        }
    }

    pub fn text_input(&self, name: &str, _options: Option<TextEntry>, default: Option<Primitive>) -> (r:
        Widget)
        ensures
            r@ == (WidgetView {
                name: name@,
                control: ControlView::Entry { text: default_text(opt_primitive(default)) },
            }),
    {
        Widget {
            name: name.to_owned(),
            control: Control::Entry { text: FormUtils::get_string_default(default) },
        }
    }

    pub fn textarea_input(
        &self,
        name: &str,
        _options: Option<TextEntry>,
        default: Option<Primitive>,
    ) -> (r: Widget)
        ensures
            r@ == (WidgetView {
                name: name@,
                control: ControlView::TextView { text: default_text(opt_primitive(default)) },
            }),
    {
        Widget {
            name: name.to_owned(),
            control: Control::TextView { text: FormUtils::get_string_default(default) },
        }
    }

    /// The buttons of a group.
    pub fn buttons(items: &Vec<String>, default: Option<Primitive>) -> (r: Vec<GroupButton>)
        ensures
            button_views(r@) == group_buttons(texts(items@), default_text(opt_primitive(default))),
    {
        let pressed = FormUtils::get_string_default(default);
        let last = find_last(items, pressed.as_str());
        let mut out: Vec<GroupButton> = Vec::new();
        let mut i: usize = 0;
        while i < items.len()
            invariant
                i <= items.len(),
                out@.len() == i,
                match last_index(texts(items@), pressed@) {
                    Some(k) => last == Some(k as usize) && 0 <= k < items.len(),
                    None => last is None,
                },
                forall|j: int|
                    0 <= j < i ==> out@[j]@ == (GroupButtonView {
                        label: texts(items@)[j],
                        active: last_index(texts(items@), pressed@) == Some(j),
                    }),
            decreases items.len() - i,
        {
            let active = match last {
                Some(k) => k == i,
                None => false,
            };
            assert(texts(items@)[i as int] == items@[i as int]@);
            out.push(GroupButton { label: items[i].clone(), active });
            i += 1;
        }
        assert(button_views(out@) =~= group_buttons(texts(items@), pressed@));
        out
    }

    pub fn radio_group(
        &self,
        name: &str,
        items: &Vec<String>,
        _options: Option<MenuEntry>,
        default: Option<Primitive>,
    ) -> (r: Widget)
        ensures
            r@ == (WidgetView {
                name: name@,
                control: ControlView::RadioGroup {
                    buttons: group_buttons(texts(items@), default_text(opt_primitive(default))),
                },
            }),
    {
        Widget {
            name: name.to_owned(),
            control: Control::RadioGroup { buttons: FormUtils::buttons(items, default) },
        }
    }

    pub fn toggle_group(
        &self,
        name: &str,
        items: &Vec<String>,
        _options: Option<MenuEntry>,
        default: Option<Primitive>,
    ) -> (r: Widget)
        ensures
            r@ == (WidgetView {
                name: name@,
                control: ControlView::ToggleGroup {
                    buttons: group_buttons(texts(items@), default_text(opt_primitive(default))),
                },
            }),
    {
        Widget {
            name: name.to_owned(),
            control: Control::ToggleGroup { buttons: FormUtils::buttons(items, default) },
        }
    }

    /// Whether a yes/no control is on at first.
    pub fn first_state(default: Option<Primitive>) -> (r: bool)
        ensures
            r == match opt_primitive(default) {
                Some(d) => d.truth(),
                None => false,
            },
    {
        match default {
            Some(d) => d.into_bool(),
            None => false,
        }
    }

    pub fn checkbox_or_radio(
        &self,
        name: &str,
        _options: Option<ChoiceEntry>,
        default: Option<Primitive>,
    ) -> (r: Widget)
        ensures
            r@ == (WidgetView {
                name: name@,
                control: ControlView::CheckButton {
                    active: match opt_primitive(default) {
                        Some(d) => d.truth(),
                        None => false,
                    },
                },
            }),
    {
        Widget {
            name: name.to_owned(),
            control: Control::CheckButton { active: FormUtils::first_state(default) },
        }
    }

    pub fn toggle_button(
        &self,
        name: &str,
        _options: Option<ChoiceEntry>,
        default: Option<Primitive>,
    ) -> (r: Widget)
        ensures
            r@ == (WidgetView {
                name: name@,
                control: ControlView::ToggleButton {
                    active: match opt_primitive(default) {
                        Some(d) => d.truth(),
                        None => false,
                    },
                },
            }),
    {
        Widget {
            name: name.to_owned(),
            control: Control::ToggleButton { active: FormUtils::first_state(default) },
        }
    }

    pub fn switch(&self, name: &str, _options: Option<ChoiceEntry>, default: Option<Primitive>) -> (r:
        Widget)
        ensures
            r@ == (WidgetView {
                name: name@,
                control: ControlView::Switch {
                    active: match opt_primitive(default) {
                        Some(d) => d.truth(),
                        None => false,
                    },
                },
            }),
    {
        Widget {
            name: name.to_owned(),
            control: Control::Switch { active: FormUtils::first_state(default) },
        }
    }

    /// The day that a calendar shows at first.
    pub fn first_day(default: Option<Primitive>, today: CalendarDate) -> (r: CalendarDate)
        ensures
            r == default_day(opt_primitive(default), today),
    {
        match default {
            Some(d) => {
                let text = d.into_string();
                let parts = split(text.as_str(), 'T');
                if parts.len() >= 2 {
                    assert(texts(parts@)[0] == parts@[0]@);
                    match load_date(parts[0].as_str()) {
                        Some(day) => day,
                        None => today,
                    }
                } else {
                    today
                }
            },
            None => today,
        }
    }

    /// The time that the spinners show at first.
    pub fn first_time(default: Option<Primitive>) -> (r: SpinTime)
        ensures
            r == default_time(opt_primitive(default)),
    {
        match default {
            Some(d) => {
                let t = d.into_time();
                SpinTime { hour: clamp(t.0, 23), minute: clamp(t.1, 59), second: clamp(t.2, 59) }
            },
            None => SpinTime { hour: 0, minute: 0, second: 0 },
        }
    }

    pub fn date_input(
        &self,
        name: &str,
        _options: Option<DateEntry>,
        default: Option<Primitive>,
        today: CalendarDate,
    ) -> (r: Widget)
        ensures
            r@ == (WidgetView {
                name: name@,
                control: ControlView::DateInput { date: default_day(opt_primitive(default), today) },
            }),
    {
        Widget {
            name: name.to_owned(),
            control: Control::DateInput { date: FormUtils::first_day(default, today) },
        }
    }

    pub fn date_time_input(
        &self,
        name: &str,
        _options: Option<DateEntry>,
        default: Option<Primitive>,
        today: CalendarDate,
    ) -> (r: Widget)
        ensures
            r@ == (WidgetView {
                name: name@,
                control: ControlView::DateTimeInput {
                    date: default_day(opt_primitive(default), today),
                    time: default_time(opt_primitive(default)),
                },
            }),
    {
        let copy = match &default {
            Some(d) => Some(d.duplicate()),
            None => None,
        };
        Widget {
            name: name.to_owned(),
            control: Control::DateTimeInput {
                date: FormUtils::first_day(copy, today),
                time: FormUtils::first_time(default),
            },
        }
    }

    pub fn time_input(&self, name: &str, _options: Option<DateEntry>, default: Option<Primitive>) -> (r:
        Widget)
        ensures
            r@ == (WidgetView {
                name: name@,
                control: ControlView::TimeInput { time: default_time(opt_primitive(default)) },
            }),
    {
        Widget {
            name: name.to_owned(),
            control: Control::TimeInput { time: FormUtils::first_time(default) },
        }
    }

    pub fn multiselect_input(
        &self,
        name: &str,
        items: &Vec<String>,
        _options: Option<MenuEntry>,
        default: Option<Primitive>,
    ) -> (r: Widget)
        ensures
            r@ == (WidgetView {
                name: name@,
                control: ControlView::ListView {
                    items: texts(items@),
                    selected: preselected(texts(items@), default_list(opt_primitive(default))),
                },
            }),
    {
        let defaults = match default {
            Some(d) => d.into_strings(),
            None => {
                let none: Vec<String> = Vec::new();
                assert(texts(none@) =~= Seq::empty());
                none
            },
        };
        let mut selected: Vec<bool> = Vec::new();
        let mut i: usize = 0;
        while i < items.len()
            invariant
                i <= items.len(),
                selected@.len() == i,
                forall|j: int| 0 <= j < i ==> !selected@[j],
            decreases items.len() - i,
        {
            selected.push(false);
            i += 1;
        }
        assert(selected@ =~= preselected(texts(items@), texts(defaults@).take(0)));
        let mut k: usize = 0;
        while k < defaults.len()
            invariant
                k <= defaults.len(),
                selected@ == preselected(texts(items@), texts(defaults@).take(k as int)),
                selected@.len() == items@.len(),
            decreases defaults.len() - k,
        {
            proof {
                let next = texts(defaults@).take(k + 1);
                assert(next.drop_last() == texts(defaults@).take(k as int));
                assert(next.last() == defaults@[k as int]@);
            }
            let at = match position(items, defaults[k].as_str()) {
                Some(i) => i,
                None => 0,
            };
            if at < items.len() {
                selected.set(at, true);
            }
            k += 1;
        }
        proof {
            assert(texts(defaults@).take(defaults.len() as int) == texts(defaults@));
        }
        Widget {
            name: name.to_owned(),
            control: Control::ListView { items: crate::primitive::copy_texts(items), selected },
        }
    }

    pub fn dropdown(
        &self,
        name: &str,
        items: &Vec<String>,
        _options: Option<MenuEntry>,
        default: Option<Primitive>,
    ) -> (r: Widget)
        ensures
            r@ == (WidgetView {
                name: name@,
                control: ControlView::DropDown {
                    items: texts(items@),
                    selected: menu_default(texts(items@), opt_primitive(default)),
                },
            }),
    {
        Widget {
            name: name.to_owned(),
            control: Control::DropDown {
                items: crate::primitive::copy_texts(items),
                selected: FormUtils::get_menu_default(items, default),
            },
        }
    }

    pub fn combobox_text(
        &self,
        name: &str,
        items: &Vec<String>,
        _options: Option<MenuEntry>,
        default: Option<Primitive>,
    ) -> (r: Widget)
        ensures
            r@ == (WidgetView {
                name: name@,
                control: ControlView::ComboBox {
                    items: texts(items@),
                    text: if menu_default(texts(items@), opt_primitive(default)) < items@.len() {
                        texts(items@)[menu_default(texts(items@), opt_primitive(default)) as int]
                    } else {
                        Seq::empty()
                    },
                },
            }),
    {
        let at = FormUtils::get_menu_default(items, default);
        let text = if at < items.len() {
            assert(texts(items@)[at as int] == items@[at as int]@);
            items[at].clone()
        } else {
            String::new()
        };
        Widget {
            name: name.to_owned(),
            control: Control::ComboBox { items: crate::primitive::copy_texts(items), text },
        }
    }
}

} // verus!
