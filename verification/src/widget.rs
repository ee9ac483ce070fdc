//! The widgets of a rendered form, as the form engine sees them.
//!
//! A form is a flat sequence of widgets. Each widget carries its name and a
//! control, which says what kind of widget it is and holds the state that the
//! user can change. Numbers with decimals and colours are held as the text
//! that the toolkit shows for them.

use crate::text::{all_digits, chars_of, is_digit, pieces, split, texts};
use vstd::prelude::*;

verus! {

/// A day of the calendar.
#[derive(Debug, Clone, Copy, PartialEq, Eq, Structural)]
pub struct CalendarDate {
    pub year: u32,
    pub month: u32,
    pub day: u32,
}

/// Whether `year` has a 29th of February.
pub open spec fn is_leap_year(year: nat) -> bool {
    (year % 4 == 0 && year % 100 != 0) || year % 400 == 0
}

/// The number of days of a month; zero for a month that does not exist.
pub open spec fn days_in_month(year: nat, month: nat) -> nat {
    if month == 2 {
        if is_leap_year(year) {
            29
        } else {
            28
        }
    } else if month == 4 || month == 6 || month == 9 || month == 11 {
        30
    } else if 1 <= month <= 12 {
        31
    } else {
        0
    }
}

impl CalendarDate {
    /// Whether the day exists, in a year from 1 to 9999.
    pub open spec fn valid(self) -> bool {
        &&& 1 <= self.year <= 9999
        &&& 1 <= self.day <= days_in_month(self.year as nat, self.month as nat)
    }

    /// Whether the day exists.
    pub fn is_valid(&self) -> (r: bool)
        ensures
            r == self.valid(),
    {
        if self.year < 1 || self.year > 9999 || self.day < 1 {
            return false;
        }
        let leap = (self.year % 4 == 0 && self.year % 100 != 0) || self.year % 400 == 0;
        let days: u32 = if self.month == 2 {
            if leap {
                29
            } else {
                28
            }
        } else if self.month == 4 || self.month == 6 || self.month == 9 || self.month == 11 {
            30
        } else if self.month >= 1 && self.month <= 12 {
            31
        } else {
            0
        };
        self.day <= days
    }
}

/// The three spinners of a time of day.
#[derive(Debug, Clone, Copy, PartialEq, Eq, Structural)]
pub struct SpinTime {
    pub hour: u32,
    pub minute: u32,
    pub second: u32,
}

impl SpinTime {
    /// Whether each spinner is within its range.
    pub open spec fn valid(self) -> bool {
        self.hour <= 23 && self.minute <= 59 && self.second <= 59
    }
}

/// One button of a group, of which at most one is active.
#[derive(Debug, Clone, PartialEq)]
pub struct GroupButton {
    pub label: String,
    pub active: bool,
}

pub struct GroupButtonView {
    pub label: Seq<char>,
    pub active: bool,
}

impl View for GroupButton {
    type V = GroupButtonView;

    open spec fn view(&self) -> GroupButtonView {
        GroupButtonView { label: self.label@, active: self.active }
    }
}

/// The views of a list of buttons, element by element.
pub open spec fn button_views(v: Seq<GroupButton>) -> Seq<GroupButtonView> {
    Seq::new(v.len(), |i: int| v[i]@)
}

/// What kind of widget it is, and its state.
#[derive(Debug, Clone, PartialEq)]
pub enum Control {
    /// Text beside a control; holds no value.
    Label { text: String },
    Entry { text: String },
    TextView { text: String },
    Switch { active: bool },
    ColorButton { color: String },
    Slider { value: String },
    TimeInput { time: SpinTime },
    DateTimeInput { date: CalendarDate, time: SpinTime },
    DateInput { date: CalendarDate },
    RadioGroup { buttons: Vec<GroupButton> },
    ToggleGroup { buttons: Vec<GroupButton> },
    FileInput { text: String },
    DirInput { text: String },
    ColorInput { text: String },
    CheckButton { active: bool },
    ToggleButton { active: bool },
    SpinButton { value: String },
    DropDown { items: Vec<String>, selected: usize },
    ListView { items: Vec<String>, selected: Vec<bool> },
    ComboBox { items: Vec<String>, text: String },
    /// An empty container, which keeps the layout in shape and holds no value.
    Container,
}

pub enum ControlView {
    Label { text: Seq<char> },
    Entry { text: Seq<char> },
    TextView { text: Seq<char> },
    Switch { active: bool },
    ColorButton { color: Seq<char> },
    Slider { value: Seq<char> },
    TimeInput { time: SpinTime },
    DateTimeInput { date: CalendarDate, time: SpinTime },
    DateInput { date: CalendarDate },
    RadioGroup { buttons: Seq<GroupButtonView> },
    ToggleGroup { buttons: Seq<GroupButtonView> },
    FileInput { text: Seq<char> },
    DirInput { text: Seq<char> },
    ColorInput { text: Seq<char> },
    CheckButton { active: bool },
    ToggleButton { active: bool },
    SpinButton { value: Seq<char> },
    DropDown { items: Seq<Seq<char>>, selected: nat },
    ListView { items: Seq<Seq<char>>, selected: Seq<bool> },
    ComboBox { items: Seq<Seq<char>>, text: Seq<char> },
    Container,
}

impl View for Control {
    type V = ControlView;

    open spec fn view(&self) -> ControlView {
        match self {
            Control::Label { text } => ControlView::Label { text: text@ },
            Control::Entry { text } => ControlView::Entry { text: text@ },
            Control::TextView { text } => ControlView::TextView { text: text@ },
            Control::Switch { active } => ControlView::Switch { active: *active },
            Control::ColorButton { color } => ControlView::ColorButton { color: color@ },
            Control::Slider { value } => ControlView::Slider { value: value@ },
            Control::TimeInput { time } => ControlView::TimeInput { time: *time },
            Control::DateTimeInput { date, time } => ControlView::DateTimeInput {
                date: *date,
                time: *time,
            },
            Control::DateInput { date } => ControlView::DateInput { date: *date },
            Control::RadioGroup { buttons } => ControlView::RadioGroup {
                buttons: button_views(buttons@),
            },
            Control::ToggleGroup { buttons } => ControlView::ToggleGroup {
                buttons: button_views(buttons@),
            },
            Control::FileInput { text } => ControlView::FileInput { text: text@ },
            Control::DirInput { text } => ControlView::DirInput { text: text@ },
            Control::ColorInput { text } => ControlView::ColorInput { text: text@ },
            Control::CheckButton { active } => ControlView::CheckButton { active: *active },
            Control::ToggleButton { active } => ControlView::ToggleButton { active: *active },
            Control::SpinButton { value } => ControlView::SpinButton { value: value@ },
            Control::DropDown { items, selected } => ControlView::DropDown {
                items: texts(items@),
                selected: *selected as nat,
            },
            Control::ListView { items, selected } => ControlView::ListView {
                items: texts(items@),
                selected: selected@,
            },
            Control::ComboBox { items, text } => ControlView::ComboBox {
                items: texts(items@),
                text: text@,
            },
            Control::Container => ControlView::Container,
        }
    }
}

/// Whether at most one button is active.
pub open spec fn at_most_one_active(buttons: Seq<GroupButtonView>) -> bool {
    forall|i: int, j: int|
        0 <= i < buttons.len() && 0 <= j < buttons.len() && #[trigger] buttons[i].active
            && #[trigger] buttons[j].active ==> i == j
}

/// Whether `s` is made of one or more digits.
pub open spec fn is_digits(s: Seq<char>) -> bool {
    s.len() > 0 && all_digits(s)
}

/// Whether `s` writes a number in plain decimal notation: an optional minus
/// sign, digits, and optionally a point and more digits.
pub open spec fn is_number_text(s: Seq<char>) -> bool {
    let body = if s.len() > 0 && s[0] == '-' {
        s.skip(1)
    } else {
        s
    };
    let parts = pieces(body, '.');
    (parts.len() == 1 && is_digits(parts[0])) || (parts.len() == 2 && is_digits(parts[0])
        && is_digits(parts[1]))
}

/// Whether `s` is made of one or more digits.
pub fn digits_only(s: &str) -> (r: bool)
    ensures
        r == is_digits(s@),
{
    let chars = chars_of(s);
    if chars.len() == 0 {
        return false;
    }
    let mut i: usize = 0;
    while i < chars.len()
        invariant
            i <= chars.len(),
            chars@ == s@,
            forall|j: int| 0 <= j < i ==> is_digit(#[trigger] chars@[j]),
        decreases chars.len() - i,
    {
        let v = chars[i] as u32;
        if v < 48 || v > 57 {
            return false;
        }
        i += 1;
    }
    true
}

/// Whether `s` writes a number in plain decimal notation.
pub fn is_number(s: &str) -> (r: bool)
    ensures
        r == is_number_text(s@),
{
    let chars = chars_of(s);
    let from: usize = if chars.len() > 0 && chars[0] == '-' {
        1
    } else {
        0
    };
    let mut body = String::new();
    let mut i: usize = from;
    while i < chars.len()
        invariant
            from <= i <= chars.len(),
            body@ == chars@.subrange(from as int, i as int),
        decreases chars.len() - i,
    {
        body.push(chars[i]);
        i += 1;
    }
    proof {
        assert(chars@.subrange(from as int, chars@.len() as int) == chars@.skip(from as int));
        assert(chars@.skip(0) == chars@);
    }
    let parts = split(body.as_str(), '.');
    if parts.len() == 1 {
        assert(texts(parts@)[0] == parts@[0]@);
        digits_only(parts[0].as_str())
    } else if parts.len() == 2 {
        assert(texts(parts@)[0] == parts@[0]@);
        assert(texts(parts@)[1] == parts@[1]@);
        digits_only(parts[0].as_str()) && digits_only(parts[1].as_str())
    } else {
        false
    }
}

impl ControlView {
    /// What the toolkit guarantees of a control's state.
    pub open spec fn wf(self) -> bool {
        match self {
            ControlView::TimeInput { time } => time.valid(),
            ControlView::DateTimeInput { date, time } => date.valid() && time.valid(),
            ControlView::DateInput { date } => date.valid(),
            ControlView::RadioGroup { buttons } => at_most_one_active(buttons),
            ControlView::ToggleGroup { buttons } => at_most_one_active(buttons),
            ControlView::Slider { value } => is_number_text(value),
            ControlView::SpinButton { value } => is_number_text(value),
            ControlView::DropDown { items, selected } => items.len() == 0 || selected < items.len(),
            ControlView::ListView { items, selected } => selected.len() == items.len(),
            _ => true,
        }
    }
}

/// A widget of a form: its name and its control.
#[derive(Debug, Clone, PartialEq)]
pub struct Widget {
    pub name: String,
    pub control: Control,
}

pub struct WidgetView {
    pub name: Seq<char>,
    pub control: ControlView,
}

impl View for Widget {
    type V = WidgetView;

    open spec fn view(&self) -> WidgetView {
        WidgetView { name: self.name@, control: self.control@ }
    }
}

impl WidgetView {
    pub open spec fn wf(self) -> bool {
        self.control.wf()
    }
}

/// The views of a list of widgets, element by element.
pub open spec fn widget_views(v: Seq<Widget>) -> Seq<WidgetView> {
    Seq::new(v.len(), |i: int| v[i]@)
}

} // verus!
