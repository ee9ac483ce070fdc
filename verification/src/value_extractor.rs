//! Reads the values out of a form.
//!
//! Each kind of control has its own way of writing its state as text. A
//! widget whose text is empty contributes nothing, and neither does a label
//! or an empty container; a yes/no control always contributes.

use crate::command_builder::{
    param_views, BuilderView, CommandBuilder, InputType, Param, ParamView,
};
use crate::text::{
    concat3, decimal, decimal_text, join, joined, same_text, texts, two_digit_text, two_digits,
};
use crate::widget::{
    button_views, widget_views, CalendarDate, Control, ControlView, GroupButton, GroupButtonView,
    SpinTime, Widget, WidgetView,
};
use vstd::prelude::*;

verus! {

/// A truth value as text.
pub open spec fn truth_text(b: bool) -> Seq<char> {
    if b {
        "true"@
    } else {
        "false"@
    }
}

/// A time of day as `HH:MM:SS`.
pub open spec fn time_text(t: SpinTime) -> Seq<char> {
    two_digits(t.hour as nat) + ":"@ + two_digits(t.minute as nat) + ":"@ + two_digits(
        t.second as nat,
    )
}

/// A day as `YYYY-MM-DD`.
pub open spec fn date_text(d: CalendarDate) -> Seq<char> {
    decimal(d.year as nat) + "-"@ + two_digits(d.month as nat) + "-"@ + two_digits(d.day as nat)
}

/// The position of the first active button.
pub open spec fn first_active(buttons: Seq<GroupButtonView>) -> Option<int>
    decreases buttons.len(),
{
    if buttons.len() == 0 {
        None
    } else {
        match first_active(buttons.drop_last()) {
            Some(i) => Some(i),
            None => if buttons.last().active {
                Some(buttons.len() - 1)
            } else {
                None
            },
        }
    }
}

/// The label of the first active button; empty where none is active.
pub open spec fn active_label(buttons: Seq<GroupButtonView>) -> Seq<char> {
    match first_active(buttons) {
        Some(i) => buttons[i].label,
        None => Seq::empty(),
    }
}

/// The items that are selected, in the order of the list.
pub open spec fn chosen(items: Seq<Seq<char>>, selected: Seq<bool>) -> Seq<Seq<char>>
    decreases items.len(),
{
    if items.len() == 0 {
        Seq::empty()
    } else {
        let head = chosen(items.drop_last(), selected);
        if items.len() <= selected.len() && selected[items.len() - 1] {
            head.push(items.last())
        } else {
            head
        }
    }
}

impl ControlView {
    /// The state of the control as text, and the kind under which it is
    /// submitted; nothing for a label and for an empty container.
    pub open spec fn value(self) -> Option<(Seq<char>, InputType)> {
        match self {
            ControlView::Label { text } => None,
            ControlView::Entry { text } => Some((text, InputType::Text)),
            ControlView::TextView { text } => Some((text, InputType::TextArea)),
            ControlView::Switch { active } => Some((truth_text(active), InputType::Switch)),
            ControlView::ColorButton { color } => Some((color, InputType::ColorButton)),
            ControlView::Slider { value } => Some((value, InputType::Slider)),
            ControlView::TimeInput { time } => Some((time_text(time), InputType::Time)),
            ControlView::DateTimeInput { date, time } => Some(
                (date_text(date) + " "@ + time_text(time), InputType::DateTime),
            ),
            ControlView::DateInput { date } => Some((date_text(date), InputType::Date)),
            ControlView::RadioGroup { buttons } => Some(
                (active_label(buttons), InputType::RadioGroup),
            ),
            ControlView::ToggleGroup { buttons } => Some(
                (active_label(buttons), InputType::ToggleGroup),
            ),
            ControlView::FileInput { text } => Some((text, InputType::File)),
            ControlView::DirInput { text } => Some((text, InputType::Dir)),
            ControlView::ColorInput { text } => Some((text, InputType::ColorInput)),
            ControlView::CheckButton { active } => Some((truth_text(active), InputType::Checkbox)),
            ControlView::ToggleButton { active } => Some((truth_text(active), InputType::Toggle)),
            ControlView::SpinButton { value } => Some((value, InputType::Numeric)),
            ControlView::DropDown { items, selected } => Some(
                (
                    if selected < items.len() {
                        items[selected as int]
                    } else {
                        Seq::empty()
                    },
                    InputType::DropDown,
                ),
            ),
            ControlView::ListView { items, selected } => Some(
                (joined(chosen(items, selected), ","@), InputType::Multiselect),
            ),
            ControlView::ComboBox { items, text } => Some((text, InputType::Combobox)),
            ControlView::Container => None,
        }
    }
}

impl WidgetView {
    /// What the widget contributes: its name, its value and its kind, unless
    /// it holds no value or its value is empty and it is not a yes/no
    /// control.
    pub open spec fn extracted(self) -> Option<ParamView> {
        match self.control.value() {
            Some((value, kind)) => if kind.is_boolean() || value.len() > 0 {
                Some(ParamView { name: self.name, value, kind })
            } else {
                None
            },
            None => None,
        }
    }
}

/// What the widgets of a form contribute, in their order. A widget without a
/// name contributes nothing.
pub open spec fn extracted_all(ws: Seq<WidgetView>) -> Seq<ParamView>
    decreases ws.len(),
{
    if ws.len() == 0 {
        Seq::empty()
    } else {
        let head = extracted_all(ws.drop_last());
        match ws.last().extracted() {
            Some(p) => if p.name.len() > 0 {
                head.push(p)
            } else {
                head
            },
            None => head,
        }
    }
}

/// A truth value as text.
pub fn truth_string(b: bool) -> (r: String)
    ensures
        r@ == truth_text(b),
{
    if b {
        "true".to_owned()
    } else {
        "false".to_owned()
    }
}

/// A time of day as `HH:MM:SS`.
pub fn time_string(t: SpinTime) -> (r: String)
    ensures
        r@ == time_text(t),
{
    let h = two_digit_text(t.hour);
    let m = two_digit_text(t.minute);
    let s = two_digit_text(t.second);
    let head = concat3(h.as_str(), ":", m.as_str());
    concat3(head.as_str(), ":", s.as_str())
}

/// A day as `YYYY-MM-DD`.
pub fn date_string(d: CalendarDate) -> (r: String)
    ensures
        r@ == date_text(d),
{
    let y = decimal_text(d.year as u64);
    let m = two_digit_text(d.month);
    let s = two_digit_text(d.day);
    let head = concat3(y.as_str(), "-", m.as_str());
    concat3(head.as_str(), "-", s.as_str())
}

/// An active button found among the first `n` is the one found among all.
pub proof fn lemma_first_active_extends(buttons: Seq<GroupButtonView>, n: int)
    requires
        0 <= n <= buttons.len(),
        first_active(buttons.take(n)) is Some,
    ensures
        first_active(buttons) == first_active(buttons.take(n)),
    decreases buttons.len() - n,
{
    if n < buttons.len() {
        assert(buttons.take(n + 1).drop_last() == buttons.take(n));
        lemma_first_active_extends(buttons, n + 1);
    } else {
        assert(buttons.take(n) == buttons);
    }
}

/// The label of the first active button.
pub fn group_value(buttons: &Vec<GroupButton>) -> (r: String)
    ensures
        r@ == active_label(button_views(buttons@)),
{
    let ghost all = button_views(buttons@);
    let mut i: usize = 0;
    while i < buttons.len()
        invariant
            i <= buttons.len(),
            all == button_views(buttons@),
            first_active(all.take(i as int)) is None,
        decreases buttons.len() - i,
    {
        proof {
            assert(all.take(i + 1).drop_last() == all.take(i as int));
            assert(all.take(i + 1).last() == buttons@[i as int]@);
        }
        if buttons[i].active {
            proof {
                lemma_first_active_extends(all, i + 1);
            }
            return buttons[i].label.clone();
        }
        i += 1;
    }
    proof {
        assert(all.take(buttons.len() as int) == all);
    }
    String::new()
}

/// The selected items, joined by commas.
pub fn multiselect_value(items: &Vec<String>, selected: &Vec<bool>) -> (r: String)
    ensures
        r@ == joined(chosen(texts(items@), selected@), ","@),
{
    let mut picked: Vec<String> = Vec::new();
    let mut i: usize = 0;
    assert(texts(picked@) =~= Seq::empty());
    while i < items.len()
        invariant
            i <= items.len(),
            texts(picked@) == chosen(texts(items@).take(i as int), selected@),
        decreases items.len() - i,
    {
        proof {
            let next = texts(items@).take(i + 1);
            assert(next.drop_last() == texts(items@).take(i as int));
            assert(next.last() == items@[i as int]@);
        }
        if i < selected.len() && selected[i] {
            let ghost before = texts(picked@);
            picked.push(items[i].clone());
            assert(texts(picked@) =~= before.push(items@[i as int]@));
        }
        i += 1;
    }
    proof {
        assert(texts(items@).take(items.len() as int) == texts(items@));
    }
    join(&picked, ",")
}

impl Control {
    /// The state of the control as text, and the kind under which it is
    /// submitted.
    pub fn value(&self) -> (r: Option<(String, InputType)>)
        ensures
            match self@.value() {
                Some((v, k)) => r is Some && (r->Some_0).0@ == v && (r->Some_0).1 == k,
                None => r is None,
            },
    {
        match self {
            Control::Label { text } => None,
            Control::Entry { text } => Some((text.clone(), InputType::Text)),
            Control::TextView { text } => Some((text.clone(), InputType::TextArea)),
            Control::Switch { active } => Some((truth_string(*active), InputType::Switch)),
            Control::ColorButton { color } => Some((color.clone(), InputType::ColorButton)),
            Control::Slider { value } => Some((value.clone(), InputType::Slider)),
            Control::TimeInput { time } => Some((time_string(*time), InputType::Time)),
            Control::DateTimeInput { date, time } => {
                let d = date_string(*date);
                let t = time_string(*time);
                Some((concat3(d.as_str(), " ", t.as_str()), InputType::DateTime))
            },
            Control::DateInput { date } => Some((date_string(*date), InputType::Date)),
            Control::RadioGroup { buttons } => Some((group_value(buttons), InputType::RadioGroup)),
            Control::ToggleGroup { buttons } => Some(
                (group_value(buttons), InputType::ToggleGroup),
            ),
            Control::FileInput { text } => Some((text.clone(), InputType::File)),
            Control::DirInput { text } => Some((text.clone(), InputType::Dir)),
            Control::ColorInput { text } => Some((text.clone(), InputType::ColorInput)),
            Control::CheckButton { active } => Some((truth_string(*active), InputType::Checkbox)),
            Control::ToggleButton { active } => Some((truth_string(*active), InputType::Toggle)),
            Control::SpinButton { value } => Some((value.clone(), InputType::Numeric)),
            Control::DropDown { items, selected } => {
                let value = if *selected < items.len() {
                    items[*selected].clone()
                } else {
                    String::new()
                };
                Some((value, InputType::DropDown))
            },
            Control::ListView { items, selected } => Some(
                (multiselect_value(items, selected), InputType::Multiselect),
            ),
            Control::ComboBox { items, text } => Some((text.clone(), InputType::Combobox)),
            Control::Container => None,
        }
    }
}

/// Reads the value of one widget.
pub struct ValueExtractor<'l> {
    pub widget: &'l Widget,
}

impl<'l> ValueExtractor<'l> {
    pub fn new(widget: &'l Widget) -> (r: Self)
        ensures
            r.widget == widget,
    {
        ValueExtractor { widget }
    }

    pub fn set_widget(&mut self, widget: &'l Widget)
        ensures
            final(self).widget == widget,
    {
        self.widget = widget
    }

    /// What the widget contributes.
    pub fn get_name_value(&self) -> (r: Option<Param>)
        ensures
            match self.widget@.extracted() {
                Some(p) => r is Some && r->0@ == p,
                None => r is None,
            },
    {
        match self.widget.control.value() {
            Some((value, kind)) => {
                let boolean = match kind {
                    InputType::Checkbox | InputType::Switch | InputType::Toggle => true,
                    _ => false,
                };
                if boolean || value.as_str().unicode_len() > 0 {
                    Some(Param::new(self.widget.name.clone(), value, kind))
                } else {
                    None
                }
            },
            None => None,
        }
    }
}

/// What the widgets of a form contribute, in their order.
pub fn extract(form: &Vec<Widget>) -> (r: Vec<Param>)
    ensures
        param_views(r@) == extracted_all(widget_views(form@)),
{
    let mut out: Vec<Param> = Vec::new();
    let ghost all = widget_views(form@);
    let mut i: usize = 0;
    assert(param_views(out@) =~= Seq::empty());
    while i < form.len()
        invariant
            i <= form.len(),
            all == widget_views(form@),
            param_views(out@) == extracted_all(all.take(i as int)),
        decreases form.len() - i,
    {
        proof {
            assert(all.take(i + 1).drop_last() == all.take(i as int));
            assert(all.take(i + 1).last() == form@[i as int]@);
        }
        let extractor = ValueExtractor::new(&form[i]);
        match extractor.get_name_value() {
            Some(p) => {
                if p.name.as_str().unicode_len() > 0 {
                    let ghost before = param_views(out@);
                    let ghost pv = p@;
                    out.push(p);
                    assert(param_views(out@) =~= before.push(pv));
                }
            },
            None => {},
        }
        i += 1;
    }
    proof {
        assert(all.take(form.len() as int) == all);
    }
    out
}

/// The option of a schematic that hands everything over to a configuration
/// file, and where that file lies.
#[derive(Debug, Clone)]
pub struct ConfigurableSchematicOptions {
    pub config_option: String,
    pub config_file: String,
}

impl ConfigurableSchematicOptions {
    pub fn new(config_option: String, config_file: String) -> (r: Self)
        ensures
            r.config_option == config_option,
            r.config_file == config_file,
    {
        ConfigurableSchematicOptions { config_option, config_file }
    }
}

impl Default for ConfigurableSchematicOptions {
    fn default() -> (r: Self)
        ensures
            r.config_option@.len() == 0,
            r.config_file@.len() == 0,
    {
        ConfigurableSchematicOptions { config_option: String::new(), config_file: String::new() }
    }
}

/// The builder after the parameters were collected: a parameter that has the
/// name `option` and the value `true` makes its name the configurable option
/// of the builder, and every parameter is then added.
pub open spec fn collected(b: BuilderView, ps: Seq<ParamView>, option: Seq<char>) -> BuilderView
    decreases ps.len(),
{
    if ps.len() == 0 {
        b
    } else {
        let head = collected(b, ps.drop_last(), option);
        let p = ps.last();
        let marked = if p.name == option && p.value == "true"@ {
            BuilderView {
                options: crate::command_builder::OptionsView {
                    configurable: Some(p.name),
                    ..head.options
                },
                ..head
            }
        } else {
            head
        };
        marked.with_param(p)
    }
}

/// The name of the configurable option; empty where there is none.
pub open spec fn option_name(c: Option<ConfigurableSchematicOptions>) -> Seq<char> {
    match c {
        Some(o) => o.config_option@,
        None => Seq::empty(),
    }
}

/// Reads a form into a fresh builder with the default options.
pub fn extract_values(form: &Vec<Widget>, configurable: &Option<ConfigurableSchematicOptions>) -> (r:
    CommandBuilder)
    ensures
        r@ == collected(
            BuilderView {
                params: Seq::empty(),
                command: Seq::empty(),
                executable: Seq::empty(),
                options: crate::command_builder::OptionsView::initial(),
            },
            extracted_all(widget_views(form@)),
            option_name(*configurable),
        ),
{
    let params = extract(form);
    let mut command = CommandBuilder::new(None);
    let ghost start = command@;
    let ghost option = option_name(*configurable);
    assert(start.params =~= Seq::empty());
    assert(start.command =~= Seq::empty());
    assert(start.executable =~= Seq::empty());
    let mut i: usize = 0;
    while i < params.len()
        invariant
            i <= params.len(),
            option == option_name(*configurable),
            command@ == collected(start, param_views(params@).take(i as int), option),
        decreases params.len() - i,
    {
        proof {
            let next = param_views(params@).take(i + 1);
            assert(next.drop_last() == param_views(params@).take(i as int));
            assert(next.last() == params@[i as int]@);
        }
        let p = params[i].clone();
        let is_option = match configurable {
            Some(c) => same_text(p.name.as_str(), c.config_option.as_str()),
            None => p.name.as_str().unicode_len() == 0,
        };
        proof {
            assert((p.name@.len() == 0) == (p.name@ =~= Seq::<char>::empty()));
            assert(is_option == (p@.name == option));
        }
        if is_option && same_text(p.value.as_str(), "true") {
            command.set_configurable(p.name.clone());
        }
        command.add(p);
        i += 1;
    }
    proof {
        assert(param_views(params@).take(params.len() as int) == param_views(params@));
    }
    command
}

} // verus!
