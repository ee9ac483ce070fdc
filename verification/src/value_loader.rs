//! Writes saved values back into a form.
//!
//! Loading is the inverse of reading: each kind of control takes the text
//! that it would have written for the state it is put into. A drop-down list
//! that has no item with the saved text, a group that has no button with it,
//! and a calendar that is given text which is no day, refuse the value;
//! nothing else does.

use crate::text::{
    first_index, lemma_first_index_extends, parse_nat, parsed_nat, pieces, position, same_text,
    split, texts,
};
use crate::widget::{
    button_views, digits_only, is_number, is_number_text, widget_views, CalendarDate, Control,
    ControlView, GroupButton, GroupButtonView, SpinTime, Widget, WidgetView,
};
use vstd::prelude::*;

verus! {

/// Why a saved value could not be written into a widget.
#[derive(Debug, Clone, Copy, PartialEq, Eq, Structural)]
pub enum LoadError {
    /// A list has no item, or a group no button, with the saved text.
    NoSuchChoice,
    /// The saved text is not a day of the calendar.
    InvalidDate,
}

/// What a spinner shows for `s`: the number that `s` writes, the largest
/// value of the spinner where the number is larger, and zero where `s`
/// writes no number.
pub open spec fn spinner(s: Seq<char>, limit: u32) -> u32 {
    match parsed_nat(s) {
        Some(n) => if n <= limit {
            n as u32
        } else {
            limit
        },
        None => 0,
    }
}

/// The time that `HH:MM:SS` gives; midnight for a text that has not three
/// parts.
pub open spec fn loaded_time(value: Seq<char>) -> SpinTime {
    let parts = pieces(value, ':');
    if parts.len() == 3 {
        SpinTime {
            hour: spinner(parts[0], 23),
            minute: spinner(parts[1], 59),
            second: spinner(parts[2], 59),
        }
    } else {
        SpinTime { hour: 0, minute: 0, second: 0 }
    }
}

/// The day that `YYYY-MM-DD` gives, if it is one.
pub open spec fn loaded_date(value: Seq<char>) -> Option<CalendarDate> {
    let parts = pieces(value, '-');
    if parts.len() == 3 {
        match (parsed_nat(parts[0]), parsed_nat(parts[1]), parsed_nat(parts[2])) {
            (Some(y), Some(m), Some(d)) => if y <= 9999 && m <= 12 && d <= 31 && (CalendarDate {
                year: y as u32,
                month: m as u32,
                day: d as u32,
            }).valid() {
                Some(CalendarDate { year: y as u32, month: m as u32, day: d as u32 })
            } else {
                None
            },
            _ => None,
        }
    } else {
        None
    }
}

/// The labels of a group of buttons.
pub open spec fn labels(buttons: Seq<GroupButtonView>) -> Seq<Seq<char>> {
    Seq::new(buttons.len(), |i: int| buttons[i].label)
}

/// The group after the first button labelled `label` was pressed: that button
/// alone is active. A group without such a button cannot be pressed.
pub open spec fn pressed(buttons: Seq<GroupButtonView>, label: Seq<char>) -> Result<
    Seq<GroupButtonView>,
    LoadError,
> {
    match first_index(labels(buttons), label) {
        Some(k) => Ok(
            Seq::new(
                buttons.len(),
                |i: int| GroupButtonView { label: buttons[i].label, active: i == k },
            ),
        ),
        None => Err(LoadError::NoSuchChoice),
    }
}

/// The selection that `parts` names: an item is selected where it is among
/// `parts`, and nowhere else.
pub open spec fn marked(items: Seq<Seq<char>>, parts: Seq<Seq<char>>) -> Seq<bool> {
    Seq::new(items.len(), |i: int| first_index(parts, items[i]) is Some)
}

impl ControlView {
    /// The control after `value` was written into it.
    pub open spec fn loaded(self, value: Seq<char>) -> Result<ControlView, LoadError> {
        match self {
            ControlView::Label { text } => Ok(self),
            ControlView::Entry { text } => Ok(ControlView::Entry { text: value }),
            ControlView::TextView { text } => Ok(ControlView::TextView { text: value }),
            ControlView::Switch { active } => Ok(ControlView::Switch { active: value == "true"@ }),
            ControlView::ColorButton { color } => Ok(ControlView::ColorButton { color: value }),
            ControlView::Slider { value: old } => Ok(
                ControlView::Slider {
                    value: if is_number_text(value) {
                        value
                    } else {
                        "0"@
                    },
                },
            ),
            ControlView::TimeInput { time } => Ok(ControlView::TimeInput { time: loaded_time(value) }),
            ControlView::DateTimeInput { date, time } => {
                let parts = pieces(value, ' ');
                if parts.len() == 2 {
                    match loaded_date(parts[0]) {
                        Some(d) => Ok(
                            ControlView::DateTimeInput { date: d, time: loaded_time(parts[1]) },
                        ),
                        None => Err(LoadError::InvalidDate),
                    }
                } else {
                    Err(LoadError::InvalidDate)
                }
            },
            ControlView::DateInput { date } => match loaded_date(value) {
                Some(d) => Ok(ControlView::DateInput { date: d }),
                None => Err(LoadError::InvalidDate),
            },
            ControlView::RadioGroup { buttons } => match pressed(buttons, value) {
                Ok(after) => Ok(ControlView::RadioGroup { buttons: after }),
                Err(e) => Err(e),
            },
            ControlView::ToggleGroup { buttons } => match pressed(buttons, value) {
                Ok(after) => Ok(ControlView::ToggleGroup { buttons: after }),
                Err(e) => Err(e),
            },
            ControlView::FileInput { text } => Ok(ControlView::FileInput { text: value }),
            ControlView::DirInput { text } => Ok(ControlView::DirInput { text: value }),
            ControlView::ColorInput { text } => Ok(ControlView::ColorInput { text: value }),
            ControlView::CheckButton { active } => Ok(
                ControlView::CheckButton { active: value == "true"@ },
            ),
            ControlView::ToggleButton { active } => Ok(
                ControlView::ToggleButton { active: value == "true"@ },
            ),
            ControlView::SpinButton { value: old } => Ok(
                ControlView::SpinButton {
                    value: if is_number_text(value) {
                        value
                    } else {
                        "0"@
                    },
                },
            ),
            ControlView::DropDown { items, selected } => match first_index(items, value) {
                Some(i) => Ok(ControlView::DropDown { items, selected: i as nat }),
                None => Err(LoadError::NoSuchChoice),
            },
            ControlView::ListView { items, selected } => Ok(
                ControlView::ListView {
                    items,
                    selected: marked(items, pieces(value, ',')),
                },
            ),
            ControlView::ComboBox { items, text } => Ok(ControlView::ComboBox { items, text: value }),
            ControlView::Container => Ok(self),
        }
    }
}

impl WidgetView {
    /// The widget after `value` was written into it.
    pub open spec fn loaded(self, value: Seq<char>) -> Result<WidgetView, LoadError> {
        match self.control.loaded(value) {
            Ok(control) => Ok(WidgetView { name: self.name, control }),
            Err(e) => Err(e),
        }
    }

    /// The widget after the saved values were offered to it: a label takes
    /// none, and any other widget takes the value saved under its name.
    pub open spec fn offered(self, data: Seq<(Seq<char>, Seq<char>)>) -> Result<
        WidgetView,
        LoadError,
    > {
        if self.control is Label {
            Ok(self)
        } else {
            match saved_value(data, self.name) {
                Some(value) => self.loaded(value),
                None => Ok(self),
            }
        }
    }
}

/// The value saved first under `name`.
pub open spec fn saved_value(data: Seq<(Seq<char>, Seq<char>)>, name: Seq<char>) -> Option<
    Seq<char>,
>
    decreases data.len(),
{
    if data.len() == 0 {
        None
    } else {
        match saved_value(data.drop_last(), name) {
            Some(v) => Some(v),
            None => if data.last().0 == name {
                Some(data.last().1)
            } else {
                None
            },
        }
    }
}

/// The views of saved values, element by element.
pub open spec fn data_views(v: Seq<(String, String)>) -> Seq<(Seq<char>, Seq<char>)> {
    Seq::new(v.len(), |i: int| (v[i].0@, v[i].1@))
}

/// The form after the saved values were offered to its first `n` widgets, one
/// after the other, and the refusal that ended this, if there was one. The
/// widget that refuses and those after it stay as they were.
pub open spec fn loaded_upto(ws: Seq<WidgetView>, data: Seq<(Seq<char>, Seq<char>)>, n: nat) -> (
    Seq<WidgetView>,
    Option<LoadError>,
)
    decreases n,
{
    if n == 0 {
        (ws, None)
    } else {
        let before = loaded_upto(ws, data, (n - 1) as nat);
        if before.1 is Some || n > ws.len() {
            before
        } else {
            match ws[n - 1].offered(data) {
                Ok(w) => (before.0.update(n - 1, w), None),
                Err(e) => (before.0, Some(e)),
            }
        }
    }
}

/// The form after the saved values were offered to all its widgets.
pub open spec fn loaded_form(ws: Seq<WidgetView>, data: Seq<(Seq<char>, Seq<char>)>) -> (
    Seq<WidgetView>,
    Option<LoadError>,
) {
    loaded_upto(ws, data, ws.len())
}

/// Once a widget has refused, nothing more changes.
pub proof fn lemma_refusal_ends_loading(
    ws: Seq<WidgetView>,
    data: Seq<(Seq<char>, Seq<char>)>,
    n: nat,
    m: nat,
)
    requires
        n <= m,
        loaded_upto(ws, data, n).1 is Some,
    ensures
        loaded_upto(ws, data, m) == loaded_upto(ws, data, n),
    decreases m - n,
{
    if n < m {
        lemma_refusal_ends_loading(ws, data, n, (m - 1) as nat);
    }
}

/// What a spinner shows for `s`.
pub fn spinner_value(s: &str, limit: u32) -> (r: u32)
    ensures
        r == spinner(s@, limit),
{
    if !digits_only(s) {
        return 0;
    }
    match parse_nat(s, limit) {
        Some(n) => n,
        None => limit,
    }
}

/// Reads a time written as `HH:MM:SS`.
pub fn load_time(value: &str) -> (r: SpinTime)
    ensures
        r == loaded_time(value@),
{
    let parts = split(value, ':');
    if parts.len() != 3 {
        return SpinTime { hour: 0, minute: 0, second: 0 };
    }
    assert(texts(parts@)[0] == parts@[0]@);
    assert(texts(parts@)[1] == parts@[1]@);
    assert(texts(parts@)[2] == parts@[2]@);
    SpinTime {
        hour: spinner_value(parts[0].as_str(), 23),
        minute: spinner_value(parts[1].as_str(), 59),
        second: spinner_value(parts[2].as_str(), 59),
    }
}

/// Reads a day written as `YYYY-MM-DD`.
pub fn load_date(value: &str) -> (r: Option<CalendarDate>)
    ensures
        r == loaded_date(value@),
{
    let parts = split(value, '-');
    if parts.len() != 3 {
        return None;
    }
    assert(texts(parts@)[0] == parts@[0]@);
    assert(texts(parts@)[1] == parts@[1]@);
    assert(texts(parts@)[2] == parts@[2]@);
    match (
        parse_nat(parts[0].as_str(), 9999),
        parse_nat(parts[1].as_str(), 12),
        parse_nat(parts[2].as_str(), 31),
    ) {
        (Some(year), Some(month), Some(day)) => {
            let date = CalendarDate { year, month, day };
            if date.is_valid() {
                Some(date)
            } else {
                None
            }
        },
        _ => None,
    }
}

/// The position of the first button labelled `label`.
pub fn find_button(buttons: &Vec<GroupButton>, label: &str) -> (r: Option<usize>)
    ensures
        match first_index(labels(button_views(buttons@)), label@) {
            Some(k) => r == Some(k as usize) && 0 <= k < buttons.len(),
            None => r is None,
        },
{
    let ghost names = labels(button_views(buttons@));
    let mut i: usize = 0;
    while i < buttons.len()
        invariant
            i <= buttons.len(),
            names == labels(button_views(buttons@)),
            first_index(names.take(i as int), label@) is None,
        decreases buttons.len() - i,
    {
        proof {
            assert(names.take(i + 1).drop_last() == names.take(i as int));
            assert(names.take(i + 1).last() == buttons@[i as int]@.label);
        }
        if same_text(buttons[i].label.as_str(), label) {
            proof {
                lemma_first_index_extends(names, label@, i + 1);
            }
            return Some(i);
        }
        i += 1;
    }
    proof {
        assert(names.take(buttons.len() as int) == names);
    }
    None
}

/// Presses the first button labelled `label`. A group without such a button
/// refuses and stays as it is.
pub fn press(buttons: &mut Vec<GroupButton>, label: &str) -> (r: Result<(), LoadError>)
    ensures
        match pressed(button_views(old(buttons)@), label@) {
            Ok(after) => r is Ok && button_views(final(buttons)@) == after,
            Err(e) => r == Err::<(), LoadError>(e) && final(buttons)@ == old(buttons)@,
        },
{
    let ghost before = button_views(buttons@);
    match find_button(buttons, label) {
        Some(k) => {
            let mut j: usize = 0;
            while j < buttons.len()
                invariant
                    j <= buttons.len(),
                    buttons@.len() == old(buttons)@.len(),
                    before == button_views(old(buttons)@),
                    forall|x: int|
                        0 <= x < j ==> buttons@[x]@ == (GroupButtonView {
                            label: before[x].label,
                            active: x == k,
                        }),
                    forall|x: int| j <= x < buttons@.len() ==> buttons@[x] == old(buttons)@[x],
                decreases buttons.len() - j,
            {
                let active = j == k;
                let button = &mut buttons[j];
                button.active = active;
                j += 1;
            }
            proof {
                assert(button_views(buttons@) =~= pressed(before, label@)->Ok_0);
            }
            Ok(())
        },
        None => Err(LoadError::NoSuchChoice),
    }
}

/// The selection that `value` names: the items that are among its parts,
/// which commas separate, and no others.
pub fn mark(items: &Vec<String>, value: &str) -> (r: Vec<bool>)
    ensures
        r@ == marked(texts(items@), pieces(value@, ',')),
{
    let parts = split(value, ',');
    let mut out: Vec<bool> = Vec::new();
    let mut i: usize = 0;
    while i < items.len()
        invariant
            i <= items.len(),
            texts(parts@) == pieces(value@, ','),
            out@.len() == i,
            forall|j: int|
                0 <= j < i ==> out@[j] == (first_index(texts(parts@), texts(items@)[j]) is Some),
        decreases items.len() - i,
    {
        let among = position(&parts, items[i].as_str()).is_some();
        assert(texts(items@)[i as int] == items@[i as int]@);
        out.push(among);
        i += 1;
    }
    assert(out@ =~= marked(texts(items@), pieces(value@, ',')));
    out
}

impl Control {
    /// Writes `value` into the control. A control that refuses the value
    /// stays as it is.
    pub fn load(&mut self, value: &str) -> (r: Result<(), LoadError>)
        ensures
            match old(self)@.loaded(value@) {
                Ok(c) => r is Ok && final(self)@ == c,
                Err(e) => r == Err::<(), LoadError>(e) && final(self)@ == old(self)@,
            },
    {
        match self {
            Control::Label { text } => Ok(()),
            Control::Entry { text } => {
                *text = value.to_owned();
                Ok(())
            },
            Control::TextView { text } => {
                *text = value.to_owned();
                Ok(())
            },
            Control::Switch { active } => {
                *active = same_text(value, "true");
                Ok(())
            },
            Control::ColorButton { color } => {
                *color = value.to_owned();
                Ok(())
            },
            Control::Slider { value: shown } => {
                *shown = if is_number(value) {
                    value.to_owned()
                } else {
                    "0".to_owned()
                };
                Ok(())
            },
            Control::TimeInput { time } => {
                *time = load_time(value);
                Ok(())
            },
            Control::DateTimeInput { date, time } => {
                let parts = split(value, ' ');
                if parts.len() != 2 {
                    return Err(LoadError::InvalidDate);
                }
                assert(texts(parts@)[0] == parts@[0]@);
                assert(texts(parts@)[1] == parts@[1]@);
                match load_date(parts[0].as_str()) {
                    Some(d) => {
                        *date = d;
                        *time = load_time(parts[1].as_str());
                        Ok(())
                    },
                    None => Err(LoadError::InvalidDate),
                }
            },
            Control::DateInput { date } => match load_date(value) {
                Some(d) => {
                    *date = d;
                    Ok(())
                },
                None => Err(LoadError::InvalidDate),
            },
            Control::RadioGroup { buttons } => press(buttons, value),
            Control::ToggleGroup { buttons } => press(buttons, value),
            Control::FileInput { text } => {
                *text = value.to_owned();
                Ok(())
            },
            Control::DirInput { text } => {
                *text = value.to_owned();
                Ok(())
            },
            Control::ColorInput { text } => {
                *text = value.to_owned();
                Ok(())
            },
            Control::CheckButton { active } => {
                *active = same_text(value, "true");
                Ok(())
            },
            Control::ToggleButton { active } => {
                *active = same_text(value, "true");
                Ok(())
            },
            Control::SpinButton { value: shown } => {
                *shown = if is_number(value) {
                    value.to_owned()
                } else {
                    "0".to_owned()
                };
                Ok(())
            },
            Control::DropDown { items, selected } => match position(items, value) {
                Some(i) => {
                    *selected = i;
                    Ok(())
                },
                None => Err(LoadError::NoSuchChoice),
            },
            Control::ListView { items, selected } => {
                let next = mark(items, value);
                *selected = next;
                Ok(())
            },
            Control::ComboBox { items, text } => {
                *text = value.to_owned();
                Ok(())
            },
            Control::Container => Ok(()),
        }
    }
}

/// The value saved first under `name`.
pub fn find_saved<'a>(data: &'a Vec<(String, String)>, name: &str) -> (r: Option<&'a String>)
    ensures
        match saved_value(data_views(data@), name@) {
            Some(v) => r is Some && r->0@ == v,
            None => r is None,
        },
{
    let ghost all = data_views(data@);
    let mut i: usize = 0;
    while i < data.len()
        invariant
            i <= data.len(),
            all == data_views(data@),
            saved_value(all.take(i as int), name@) is None,
        decreases data.len() - i,
    {
        proof {
            assert(all.take(i + 1).drop_last() == all.take(i as int));
        }
        if same_text(data[i].0.as_str(), name) {
            proof {
                lemma_saved_value_extends(all, name@, i + 1);
            }
            return Some(&data[i].1);
        }
        i += 1;
    }
    proof {
        assert(all.take(data.len() as int) == all);
    }
    None
}

/// A value found among the first `n` is the value found among all.
pub proof fn lemma_saved_value_extends(data: Seq<(Seq<char>, Seq<char>)>, name: Seq<char>, n: int)
    requires
        0 <= n <= data.len(),
        saved_value(data.take(n), name) is Some,
    ensures
        saved_value(data, name) == saved_value(data.take(n), name),
    decreases data.len() - n,
{
    if n < data.len() {
        assert(data.take(n + 1).drop_last() == data.take(n));
        lemma_saved_value_extends(data, name, n + 1);
    } else {
        assert(data.take(n) == data);
    }
}

/// Writes a saved value into one widget.
pub struct ValueLoader<'l> {
    pub widget: &'l mut Widget,
}

impl<'l> ValueLoader<'l> {
    pub fn new(widget: &'l mut Widget) -> (r: Self)
        ensures
            *r.widget == *old(widget),
            *final(r.widget) == *final(widget),
    {
        ValueLoader { widget }
    }

    pub fn set_widget(&mut self, widget: &'l mut Widget)
        ensures
            *final(self).widget == *old(widget),
            *final(final(self).widget) == *final(widget),
            *final(old(self).widget) == *old(self).widget,
    {
        self.widget = widget;
    }

    /// Writes `value` into the widget. A widget that refuses the value stays
    /// as it is.
    pub fn set_value(&mut self, value: &str, _widget_name: &str) -> (r: Result<(), LoadError>)
        ensures
            *final(final(self).widget) == *final(old(self).widget),
            match (*old(self).widget)@.loaded(value@) {
                Ok(w) => r is Ok && (*final(self).widget)@ == w,
                Err(e) => r == Err::<(), LoadError>(e) && (*final(self).widget)@ == (*old(
                    self,
                ).widget)@,
            },
    {
        self.widget.control.load(value)
    }
}

impl Widget {
    /// Offers the saved values to the widget.
    pub fn offer(&mut self, data: &Vec<(String, String)>) -> (r: Result<(), LoadError>)
        ensures
            match old(self)@.offered(data_views(data@)) {
                Ok(w) => r is Ok && final(self)@ == w,
                Err(e) => r == Err::<(), LoadError>(e) && final(self)@ == old(self)@,
            },
    {
        match &self.control {
            Control::Label { text } => {
                return Ok(());
            },
            _ => {},
        }
        match find_saved(data, self.name.as_str()) {
            Some(value) => self.control.load(value.as_str()),
            None => Ok(()),
        }
    }
}

/// Offers the saved values to the widgets of a form, one after the other. The
/// first widget that refuses its value ends the loading, and the refusal is
/// handed back; that widget and those after it stay as they were.
pub fn load_values(form: &mut Vec<Widget>, data: &Vec<(String, String)>) -> (r: Result<
    (),
    LoadError,
>)
    ensures
        widget_views(final(form)@) == loaded_form(
            widget_views(old(form)@),
            data_views(data@),
        ).0,
        match loaded_form(widget_views(old(form)@), data_views(data@)).1 {
            Some(e) => r == Err::<(), LoadError>(e),
            None => r is Ok,
        },
{
    let ghost start = widget_views(form@);
    let ghost saved = data_views(data@);
    let mut i: usize = 0;
    while i < form.len()
        invariant
            i <= form.len(),
            form@.len() == old(form)@.len(),
            start == widget_views(old(form)@),
            saved == data_views(data@),
            widget_views(form@) == loaded_upto(start, saved, i as nat).0,
            loaded_upto(start, saved, i as nat).1 is None,
            forall|j: int| i <= j < form@.len() ==> form@[j]@ == start[j],
        decreases form.len() - i,
    {
        let ghost before = widget_views(form@);
        let outcome = form[i].offer(data);
        match outcome {
            Ok(()) => {
                proof {
                    assert(widget_views(form@) =~= before.update(i as int, form@[i as int]@));
                }
            },
            Err(e) => {
                proof {
                    assert(widget_views(form@) =~= before);
                    lemma_refusal_ends_loading(start, saved, (i + 1) as nat, start.len());
                }
                return Err(e);
            },
        }
        i += 1;
    }
    Ok(())
}

} // verus!
