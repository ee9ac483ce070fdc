//! Loading what was read from a widget leaves the widget saying the same,
//! and loading replaces what a widget said before.

use crate::command_builder::{InputType, ParamView};
use crate::text::{
    all_digits, decimal, digit, digits_value, first_index, is_digit, joined,
    lemma_first_index_is_least, parsed_nat, pieces, two_digits,
};
use crate::value_extractor::{
    active_label, chosen, date_text, extracted_all, first_active, time_text, truth_text,
};
use crate::value_loader::{labels, loaded_date, loaded_time, marked, pressed};
use crate::widget::{CalendarDate, ControlView, GroupButtonView, SpinTime, WidgetView};
use vstd::prelude::*;

verus! {

/// Whether `c` occurs nowhere in `s`.
pub open spec fn free_of(s: Seq<char>, c: char) -> bool {
    forall|i: int| 0 <= i < s.len() ==> #[trigger] s[i] != c
}

/// The digits of a number are digits, and they write the number.
pub proof fn lemma_decimal_reads_back(n: nat)
    ensures
        decimal(n).len() > 0,
        all_digits(decimal(n)),
        digits_value(decimal(n)) == n,
    decreases n,
{
    if n < 10 {
        assert(decimal(n).drop_last() =~= Seq::<char>::empty());
        assert(digits_value(decimal(n).drop_last()) == 0);
    } else {
        lemma_decimal_reads_back(n / 10);
        let head = decimal(n / 10);
        assert(decimal(n).drop_last() =~= head);
        assert(decimal(n).last() == digit(n % 10));
        assert forall|i: int| 0 <= i < decimal(n).len() implies is_digit(
            #[trigger] decimal(n)[i],
        ) by {
            if i < head.len() {
                assert(decimal(n)[i] == head[i]);
            }
        }
    }
}

/// Two digits are digits, and they write the number.
pub proof fn lemma_two_digits_read_back(n: nat)
    requires
        n < 100,
    ensures
        two_digits(n).len() > 0,
        all_digits(two_digits(n)),
        parsed_nat(two_digits(n)) == Some(n),
{
    lemma_decimal_reads_back(n);
    if n < 10 {
        let s = two_digits(n);
        assert(s =~= seq!['0', digit(n)]);
        assert(s.drop_last() =~= seq!['0']);
        assert(seq!['0'].drop_last() =~= Seq::<char>::empty());
        assert(digits_value(seq!['0']) == 0) by {
            assert(digits_value(seq!['0'].drop_last()) == 0);
        }
        assert(digits_value(s) == n);
        assert forall|i: int| 0 <= i < s.len() implies is_digit(#[trigger] s[i]) by {}
    }
}

/// Digits hold nothing but digits.
pub proof fn lemma_digits_free_of(s: Seq<char>, c: char)
    requires
        all_digits(s),
        !is_digit(c),
    ensures
        free_of(s, c),
{
}

/// A text without the separator is a single piece.
pub proof fn lemma_single_piece(s: Seq<char>, sep: char)
    requires
        free_of(s, sep),
    ensures
        pieces(s, sep) == seq![s],
    decreases s.len(),
{
    if s.len() == 0 {
        assert(s =~= Seq::<char>::empty());
    } else {
        let head = s.drop_last();
        assert forall|i: int| 0 <= i < head.len() implies #[trigger] head[i] != sep by {
            assert(head[i] == s[i]);
        }
        lemma_single_piece(head, sep);
        assert(s.last() == s[s.len() - 1]);
        assert(seq![head].update(0, head.push(s.last())) =~= seq![s]) by {
            assert(head.push(s.last()) =~= s);
        }
    }
}

/// After a separator, a text without the separator is one more piece.
pub proof fn lemma_one_more_piece(a: Seq<char>, b: Seq<char>, sep: char)
    requires
        free_of(b, sep),
    ensures
        pieces(a + seq![sep] + b, sep) == pieces(a, sep).push(b),
    decreases b.len(),
{
    let whole = a + seq![sep] + b;
    if b.len() == 0 {
        assert(whole.drop_last() =~= a);
        assert(whole.last() == sep);
        assert(b =~= Seq::<char>::empty());
    } else {
        let shorter = b.drop_last();
        assert forall|i: int| 0 <= i < shorter.len() implies #[trigger] shorter[i] != sep by {
            assert(shorter[i] == b[i]);
        }
        lemma_one_more_piece(a, shorter, sep);
        assert(whole.drop_last() =~= a + seq![sep] + shorter);
        assert(whole.last() == b.last());
        assert(b.last() == b[b.len() - 1]);
        let before = pieces(a, sep).push(shorter);
        assert(before.update(before.len() - 1, before.last().push(b.last())) =~= pieces(
            a,
            sep,
        ).push(b)) by {
            assert(shorter.push(b.last()) =~= b);
        }
    }
}

/// Texts without a character, put together, are without it.
pub proof fn lemma_free_of_concat(a: Seq<char>, b: Seq<char>, c: char)
    requires
        free_of(a, c),
        free_of(b, c),
    ensures
        free_of(a + b, c),
{
    assert forall|i: int| 0 <= i < (a + b).len() implies #[trigger] (a + b)[i] != c by {
        if i < a.len() {
            assert((a + b)[i] == a[i]);
        } else {
            assert((a + b)[i] == b[i - a.len()]);
        }
    }
}

/// Three texts without the separator, written with it between them, are three
/// pieces.
pub proof fn lemma_three_pieces(a: Seq<char>, b: Seq<char>, c: Seq<char>, sep: char)
    requires
        free_of(a, sep),
        free_of(b, sep),
        free_of(c, sep),
    ensures
        pieces(a + seq![sep] + b + seq![sep] + c, sep) == seq![a, b, c],
{
    lemma_single_piece(a, sep);
    lemma_one_more_piece(a, b, sep);
    lemma_one_more_piece(a + seq![sep] + b, c, sep);
    assert(seq![a].push(b).push(c) =~= seq![a, b, c]);
}

/// A time of day that was written is read back as it was.
pub proof fn lemma_time_reads_back(t: SpinTime)
    requires
        t.valid(),
    ensures
        loaded_time(time_text(t)) == t,
        free_of(time_text(t), ' '),
        time_text(t).len() > 0,
{
    reveal_strlit(":");
    assert(":"@ =~= seq![':']);
    let h = two_digits(t.hour as nat);
    let m = two_digits(t.minute as nat);
    let s = two_digits(t.second as nat);
    lemma_two_digits_read_back(t.hour as nat);
    lemma_two_digits_read_back(t.minute as nat);
    lemma_two_digits_read_back(t.second as nat);
    lemma_digits_free_of(h, ':');
    lemma_digits_free_of(m, ':');
    lemma_digits_free_of(s, ':');
    lemma_three_pieces(h, m, s, ':');
    assert(time_text(t) == h + seq![':'] + m + seq![':'] + s);
    lemma_digits_free_of(h, ' ');
    lemma_digits_free_of(m, ' ');
    lemma_digits_free_of(s, ' ');
    assert(free_of(seq![':'], ' '));
    lemma_free_of_concat(h, seq![':'], ' ');
    lemma_free_of_concat(h + seq![':'], m, ' ');
    lemma_free_of_concat(h + seq![':'] + m, seq![':'], ' ');
    lemma_free_of_concat(h + seq![':'] + m + seq![':'], s, ' ');
}

/// A day that was written is read back as it was.
pub proof fn lemma_date_reads_back(d: CalendarDate)
    requires
        d.valid(),
    ensures
        loaded_date(date_text(d)) == Some(d),
        free_of(date_text(d), ' '),
        date_text(d).len() > 0,
{
    reveal_strlit("-");
    assert("-"@ =~= seq!['-']);
    let y = decimal(d.year as nat);
    let m = two_digits(d.month as nat);
    let s = two_digits(d.day as nat);
    lemma_decimal_reads_back(d.year as nat);
    lemma_two_digits_read_back(d.month as nat);
    lemma_two_digits_read_back(d.day as nat);
    lemma_digits_free_of(y, '-');
    lemma_digits_free_of(m, '-');
    lemma_digits_free_of(s, '-');
    lemma_three_pieces(y, m, s, '-');
    assert(date_text(d) == y + seq!['-'] + m + seq!['-'] + s);
    lemma_digits_free_of(y, ' ');
    lemma_digits_free_of(m, ' ');
    lemma_digits_free_of(s, ' ');
    assert(free_of(seq!['-'], ' '));
    lemma_free_of_concat(y, seq!['-'], ' ');
    lemma_free_of_concat(y + seq!['-'], m, ' ');
    lemma_free_of_concat(y + seq!['-'] + m, seq!['-'], ' ');
    lemma_free_of_concat(y + seq!['-'] + m + seq!['-'], s, ' ');
}

/// What `first_active` finds: the least position of an active button.
pub proof fn lemma_first_active_is_least(buttons: Seq<GroupButtonView>)
    ensures
        match first_active(buttons) {
            Some(i) => 0 <= i < buttons.len() && buttons[i].active && forall|j: int|
                0 <= j < i ==> !buttons[j].active,
            None => forall|j: int| 0 <= j < buttons.len() ==> !buttons[j].active,
        },
    decreases buttons.len(),
{
    if buttons.len() > 0 {
        lemma_first_active_is_least(buttons.drop_last());
        assert(forall|j: int| 0 <= j < buttons.len() - 1 ==> buttons.drop_last()[j] == buttons[j]);
    }
}

/// The button whose label was read can be pressed, and the same label is
/// then read again.
pub proof fn lemma_group_reads_back(buttons: Seq<GroupButtonView>)
    requires
        first_active(buttons) is Some,
    ensures
        pressed(buttons, active_label(buttons)) is Ok,
        active_label(pressed(buttons, active_label(buttons))->Ok_0) == active_label(buttons),
{
    lemma_first_active_is_least(buttons);
    let k = first_active(buttons)->0;
    let label = buttons[k].label;
    lemma_first_index_is_least(labels(buttons), label);
    assert(labels(buttons)[k] == label);
    let j = first_index(labels(buttons), label)->0;
    let after = pressed(buttons, label)->Ok_0;
    lemma_first_active_is_least(after);
    assert(after[j].active);
    assert(labels(buttons)[j] == buttons[j].label);
}

/// A selected item is among the chosen ones, and a chosen one is an item that
/// is selected.
pub proof fn lemma_chosen_are_selected(items: Seq<Seq<char>>, selected: Seq<bool>, x: Seq<char>)
    requires
        selected.len() == items.len(),
    ensures
        chosen(items, selected).contains(x) <==> exists|j: int|
            0 <= j < items.len() && selected[j] && #[trigger] items[j] == x,
    decreases items.len(),
{
    if items.len() == 0 {
    } else {
        let n = items.len() - 1;
        let head_items = items.drop_last();
        let head = chosen(head_items, selected);
        let head_selected = selected.drop_last();
        lemma_chosen_ignores_tail(head_items, selected, head_selected);
        lemma_chosen_are_selected(head_items, head_selected, x);
        let all = chosen(items, selected);
        if all.contains(x) {
            let i = choose|i: int| 0 <= i < all.len() && all[i] == x;
            if selected[n] && i == all.len() - 1 {
                assert(items[n] == x);
            } else {
                assert(head[i] == x);
                assert(head.contains(x));
                let j = choose|j: int|
                    0 <= j < head_items.len() && head_selected[j] && #[trigger] head_items[j] == x;
                assert(items[j] == x && selected[j]);
            }
        }
        if exists|j: int| 0 <= j < items.len() && selected[j] && #[trigger] items[j] == x {
            let j = choose|j: int| 0 <= j < items.len() && selected[j] && #[trigger] items[j] == x;
            if j == n {
                assert(all.last() == x);
                assert(all[all.len() - 1] == x);
            } else {
                assert(head_items[j] == x && head_selected[j]);
                assert(head.contains(x));
                let i = choose|i: int| 0 <= i < head.len() && head[i] == x;
                assert(all[i] == x);
            }
        }
    }
}

/// Which items are chosen does not depend on the selection beyond the items.
pub proof fn lemma_chosen_ignores_tail(items: Seq<Seq<char>>, a: Seq<bool>, b: Seq<bool>)
    requires
        items.len() <= a.len(),
        items.len() <= b.len(),
        forall|i: int| 0 <= i < items.len() ==> a[i] == b[i],
    ensures
        chosen(items, a) == chosen(items, b),
    decreases items.len(),
{
    if items.len() > 0 {
        lemma_chosen_ignores_tail(items.drop_last(), a, b);
    }
}

/// Parts without the separator, joined by it, are the pieces of the whole.
pub proof fn lemma_joined_pieces(parts: Seq<Seq<char>>, sep: char)
    requires
        parts.len() > 0,
        forall|i: int| 0 <= i < parts.len() ==> free_of(#[trigger] parts[i], sep),
    ensures
        pieces(joined(parts, seq![sep]), sep) == parts,
    decreases parts.len(),
{
    if parts.len() == 1 {
        lemma_single_piece(parts[0], sep);
        assert(seq![parts[0]] =~= parts);
    } else {
        let head = parts.drop_last();
        assert forall|i: int| 0 <= i < head.len() implies free_of(#[trigger] head[i], sep) by {
            assert(head[i] == parts[i]);
        }
        lemma_joined_pieces(head, sep);
        assert(parts.last() == parts[parts.len() - 1]);
        lemma_one_more_piece(joined(head, seq![sep]), parts.last(), sep);
        assert(head.push(parts.last()) =~= parts);
    }
}

/// The chosen items are items.
pub proof fn lemma_chosen_are_items(items: Seq<Seq<char>>, selected: Seq<bool>, c: char)
    requires
        forall|i: int| 0 <= i < items.len() ==> free_of(#[trigger] items[i], c),
    ensures
        forall|i: int|
            0 <= i < chosen(items, selected).len() ==> free_of(
                #[trigger] chosen(items, selected)[i],
                c,
            ),
    decreases items.len(),
{
    if items.len() > 0 {
        let head = items.drop_last();
        assert forall|i: int| 0 <= i < head.len() implies free_of(#[trigger] head[i], c) by {
            assert(head[i] == items[i]);
        }
        lemma_chosen_are_items(head, selected, c);
        assert(items.last() == items[items.len() - 1]);
        let all = chosen(items, selected);
        let before = chosen(head, selected);
        assert forall|i: int| 0 <= i < all.len() implies free_of(#[trigger] all[i], c) by {
            if i < before.len() {
                assert(all[i] == before[i]);
            } else {
                assert(all[i] == items.last());
            }
        }
    }
}

impl ControlView {
    /// What must hold of a list with several choices for its selection to be
    /// told from its text: no item holds a comma, and no item stands twice.
    pub open spec fn tells_its_selection(self) -> bool {
        match self {
            ControlView::ListView { items, selected } => items.no_duplicates() && forall|i: int|
                0 <= i < items.len() ==> free_of(#[trigger] items[i], ','),
            _ => true,
        }
    }
}

/// The text of a selection names that selection.
pub proof fn lemma_selection_reads_back(items: Seq<Seq<char>>, selected: Seq<bool>)
    requires
        selected.len() == items.len(),
        items.no_duplicates(),
        forall|i: int| 0 <= i < items.len() ==> free_of(#[trigger] items[i], ','),
        joined(chosen(items, selected), ","@).len() > 0,
    ensures
        marked(items, pieces(joined(chosen(items, selected), ","@), ',')) == selected,
{
    reveal_strlit(",");
    assert(","@ =~= seq![',']);
    let picked = chosen(items, selected);
    assert(picked.len() > 0);
    lemma_chosen_are_items(items, selected, ',');
    lemma_joined_pieces(picked, ',');
    let after = marked(items, picked);
    assert forall|i: int| 0 <= i < items.len() implies after[i] == selected[i] by {
        lemma_first_index_is_least(picked, items[i]);
        lemma_chosen_are_selected(items, selected, items[i]);
        if first_index(picked, items[i]) is Some {
            let at = first_index(picked, items[i])->0;
            assert(picked[at] == items[i]);
            assert(picked.contains(items[i]));
            let j = choose|j: int|
                0 <= j < items.len() && selected[j] && #[trigger] items[j] == items[i];
            assert(j == i);
        }
        if selected[i] {
            assert(picked.contains(items[i]));
        }
    }
    assert(after =~= selected);
}

/// Loading what was read from a widget leaves the widget saying the same:
/// for every widget in a state that the toolkit can show, whose list, if it is
/// one with several choices, tells its selection, the value that the widget
/// contributes is accepted by the widget, and the widget then contributes the
/// same value again.
pub proof fn lemma_load_restores_what_was_read(w: WidgetView)
    requires
        w.wf(),
        w.control.tells_its_selection(),
    ensures
        match w.extracted() {
            Some(p) => w.loaded(p.value) is Ok && w.loaded(p.value)->Ok_0.extracted() == Some(p),
            None => true,
        },
{
    reveal_strlit("true");
    reveal_strlit("false");
    assert("true"@ != "false"@) by {
        assert("true"@[0] == 't');
        assert("false"@[0] == 'f');
    }
    match w.control {
        ControlView::TimeInput { time } => {
            lemma_time_reads_back(time);
        },
        ControlView::DateInput { date } => {
            lemma_date_reads_back(date);
        },
        ControlView::DateTimeInput { date, time } => {
            reveal_strlit(" ");
            assert(" "@ =~= seq![' ']);
            lemma_date_reads_back(date);
            lemma_time_reads_back(time);
            lemma_single_piece(date_text(date), ' ');
            lemma_one_more_piece(date_text(date), time_text(time), ' ');
            assert(seq![date_text(date)].push(time_text(time)) =~= seq![
                date_text(date),
                time_text(time),
            ]);
        },
        ControlView::RadioGroup { buttons } => {
            lemma_first_active_is_least(buttons);
            if first_active(buttons) is Some {
                lemma_group_reads_back(buttons);
            }
        },
        ControlView::ToggleGroup { buttons } => {
            lemma_first_active_is_least(buttons);
            if first_active(buttons) is Some {
                lemma_group_reads_back(buttons);
            }
        },
        ControlView::DropDown { items, selected } => {
            if selected < items.len() {
                lemma_first_index_is_least(items, items[selected as int]);
            }
        },
        ControlView::ListView { items, selected } => {
            if joined(chosen(items, selected), ","@).len() > 0 {
                lemma_selection_reads_back(items, selected);
            }
        },
        _ => {},
    }
}

impl ControlView {
    /// Whether `other` is the same control in another state: a control of
    /// the same kind, with the same items where it has items, and with
    /// buttons of the same labels where it has buttons.
    pub open spec fn is_state_of(self, other: ControlView) -> bool {
        match (self, other) {
            (ControlView::Label { text: a }, ControlView::Label { text: b }) => a == b,
            (ControlView::Entry { .. }, ControlView::Entry { .. }) => true,
            (ControlView::TextView { .. }, ControlView::TextView { .. }) => true,
            (ControlView::Switch { .. }, ControlView::Switch { .. }) => true,
            (ControlView::ColorButton { .. }, ControlView::ColorButton { .. }) => true,
            (ControlView::Slider { .. }, ControlView::Slider { .. }) => true,
            (ControlView::TimeInput { .. }, ControlView::TimeInput { .. }) => true,
            (ControlView::DateTimeInput { .. }, ControlView::DateTimeInput { .. }) => true,
            (ControlView::DateInput { .. }, ControlView::DateInput { .. }) => true,
            (ControlView::RadioGroup { buttons: a }, ControlView::RadioGroup { buttons: b }) => labels(a)
                == labels(b),
            (
                ControlView::ToggleGroup { buttons: a },
                ControlView::ToggleGroup { buttons: b },
            ) => labels(a) == labels(b),
            (ControlView::FileInput { .. }, ControlView::FileInput { .. }) => true,
            (ControlView::DirInput { .. }, ControlView::DirInput { .. }) => true,
            (ControlView::ColorInput { .. }, ControlView::ColorInput { .. }) => true,
            (ControlView::CheckButton { .. }, ControlView::CheckButton { .. }) => true,
            (ControlView::ToggleButton { .. }, ControlView::ToggleButton { .. }) => true,
            (ControlView::SpinButton { .. }, ControlView::SpinButton { .. }) => true,
            (
                ControlView::DropDown { items: a, .. },
                ControlView::DropDown { items: b, .. },
            ) => a == b,
            (
                ControlView::ListView { items: a, .. },
                ControlView::ListView { items: b, .. },
            ) => a == b,
            (
                ControlView::ComboBox { items: a, .. },
                ControlView::ComboBox { items: b, .. },
            ) => a == b,
            (ControlView::Container, ControlView::Container) => true,
            _ => false,
        }
    }
}

/// What a control becomes when a value is loaded depends on the value and on
/// what the control is, not on the state that it was in.
pub proof fn lemma_loading_forgets_the_state(a: ControlView, b: ControlView, value: Seq<char>)
    requires
        a.is_state_of(b),
    ensures
        a.loaded(value) == b.loaded(value),
{
    match (a, b) {
        (ControlView::RadioGroup { buttons: x }, ControlView::RadioGroup { buttons: y }) => {
            lemma_pressing_forgets_the_state(x, y, value);
        },
        (ControlView::ToggleGroup { buttons: x }, ControlView::ToggleGroup { buttons: y }) => {
            lemma_pressing_forgets_the_state(x, y, value);
        },
        _ => {},
    }
}

/// Which button of a group is active after one was pressed depends on the
/// labels of the buttons alone.
pub proof fn lemma_pressing_forgets_the_state(
    a: Seq<GroupButtonView>,
    b: Seq<GroupButtonView>,
    label: Seq<char>,
)
    requires
        labels(a) == labels(b),
    ensures
        pressed(a, label) == pressed(b, label),
{
    assert(a.len() == labels(a).len());
    assert(b.len() == labels(b).len());
    if pressed(a, label) is Ok {
        let x = pressed(a, label)->Ok_0;
        let y = pressed(b, label)->Ok_0;
        assert forall|i: int| 0 <= i < x.len() implies x[i] == y[i] by {
            assert(labels(a)[i] == a[i].label);
            assert(labels(b)[i] == b[i].label);
        }
        assert(x =~= y);
    }
}

/// Loading replaces what a widget shows: whatever state a widget is in,
/// once the value that was read from a state of the same widget is loaded
/// into it, the widget contributes that value again, and nothing is left
/// of what it showed before. The state that was read is one that the toolkit
/// can show, and its list, if it is one with several choices, tells its
/// selection.
pub proof fn lemma_loading_replaces_the_state(w: WidgetView, read: WidgetView)
    requires
        read.wf(),
        read.control.tells_its_selection(),
        read.name == w.name,
        read.control.is_state_of(w.control),
    ensures
        match read.extracted() {
            Some(p) => w.loaded(p.value) is Ok && w.loaded(p.value)->Ok_0.extracted() == Some(p),
            None => true,
        },
{
    lemma_load_restores_what_was_read(read);
    match read.extracted() {
        Some(p) => {
            lemma_loading_forgets_the_state(read.control, w.control, p.value);
        },
        None => {},
    }
}

/// An entry without text contributes nothing.
pub proof fn lemma_empty_text_is_dropped(name: Seq<char>)
    ensures
        (WidgetView { name, control: ControlView::Entry { text: Seq::empty() } }).extracted()
            is None,
{
}

/// A switch contributes its state whatever it is: one that is off
/// contributes `false`.
pub proof fn lemma_switch_is_kept(name: Seq<char>, active: bool)
    ensures
        (WidgetView { name, control: ControlView::Switch { active } }).extracted() == Some(
            ParamView { name, value: truth_text(active), kind: InputType::Switch },
        ),
{
}

/// What is saved of parameters: for each, its name and its value.
pub open spec fn saved(ps: Seq<ParamView>) -> Seq<(Seq<char>, Seq<char>)> {
    Seq::new(ps.len(), |i: int| (ps[i].name, ps[i].value))
}

/// Whether the widgets of a form can be told apart by their names: no two
/// of them that are not labels have the same name.
pub open spec fn names_tell_widgets(ws: Seq<WidgetView>) -> bool {
    forall|i: int, j: int|
        0 <= i < ws.len() && 0 <= j < ws.len() && i != j && !(#[trigger] ws[i].control is Label)
            && !(#[trigger] ws[j].control is Label) ==> ws[i].name != ws[j].name
}

/// What a widget contributes to a form: what it contributes itself, unless
/// it has no name.
pub open spec fn contribution(w: WidgetView) -> Option<ParamView> {
    match w.extracted() {
        Some(p) => if p.name.len() > 0 {
            Some(p)
        } else {
            None
        },
        None => None,
    }
}

/// Every parameter that was read comes from a widget, and every widget that
/// contributes is read.
pub proof fn lemma_extracted_come_from_widgets(ws: Seq<WidgetView>)
    ensures
        forall|k: int|
            0 <= k < extracted_all(ws).len() ==> exists|i: int|
                0 <= i < ws.len() && contribution(#[trigger] ws[i]) == Some(
                    #[trigger] extracted_all(ws)[k],
                ),
        forall|i: int|
            0 <= i < ws.len() && contribution(#[trigger] ws[i]) is Some ==> exists|k: int|
                0 <= k < extracted_all(ws).len() && #[trigger] extracted_all(ws)[k]
                    == contribution(ws[i])->0,
    decreases ws.len(),
{
    if ws.len() > 0 {
        let head = ws.drop_last();
        lemma_extracted_come_from_widgets(head);
        let all = extracted_all(ws);
        let before = extracted_all(head);
        let n = ws.len() - 1;
        assert(ws.last() == ws[n]);
        assert forall|k: int| 0 <= k < all.len() implies exists|i: int|
            0 <= i < ws.len() && contribution(#[trigger] ws[i]) == Some(#[trigger] all[k]) by {
            if k < before.len() {
                assert(all[k] == before[k]);
                let i = choose|i: int|
                    0 <= i < head.len() && contribution(#[trigger] head[i]) == Some(before[k]);
                assert(head[i] == ws[i]);
            } else {
                assert(contribution(ws[n]) == Some(all[k]));
            }
        }
        assert forall|i: int|
            0 <= i < ws.len() && contribution(#[trigger] ws[i]) is Some implies exists|k: int|
            0 <= k < all.len() && #[trigger] all[k] == contribution(ws[i])->0 by {
            if i < n {
                assert(head[i] == ws[i]);
                let k = choose|k: int|
                    0 <= k < before.len() && #[trigger] before[k] == contribution(head[i])->0;
                assert(all[k] == before[k]);
            } else {
                assert(all[all.len() - 1] == contribution(ws[n])->0);
            }
        }
    }
}

/// What `saved_value` finds: the value of some entry with the name, if there
/// is any such entry.
pub proof fn lemma_saved_value_is_an_entry(data: Seq<(Seq<char>, Seq<char>)>, name: Seq<char>)
    ensures
        match crate::value_loader::saved_value(data, name) {
            Some(v) => exists|k: int| 0 <= k < data.len() && #[trigger] data[k] == (name, v),
            None => forall|k: int| 0 <= k < data.len() ==> (#[trigger] data[k]).0 != name,
        },
    decreases data.len(),
{
    if data.len() > 0 {
        let head = data.drop_last();
        lemma_saved_value_is_an_entry(head, name);
        assert(data.last() == data[data.len() - 1]);
        match crate::value_loader::saved_value(head, name) {
            Some(v) => {
                let k = choose|k: int| 0 <= k < head.len() && #[trigger] head[k] == (name, v);
                assert(data[k] == head[k]);
            },
            None => {
                assert forall|k: int| 0 <= k < data.len() - 1 implies (#[trigger] data[k]).0
                    != name by {
                    assert(data[k] == head[k]);
                }
            },
        }
    }
}

/// In a form whose widgets can be told apart by their names, what is saved
/// under the name of a widget is what that widget contributes.
pub proof fn lemma_saved_under_its_name(ws: Seq<WidgetView>, i: int)
    requires
        names_tell_widgets(ws),
        0 <= i < ws.len(),
        !(ws[i].control is Label),
    ensures
        crate::value_loader::saved_value(saved(extracted_all(ws)), ws[i].name) == match contribution(
            ws[i],
        ) {
            Some(p) => Some(p.value),
            None => None,
        },
{
    let ps = extracted_all(ws);
    let data = saved(ps);
    lemma_extracted_come_from_widgets(ws);
    lemma_saved_value_is_an_entry(data, ws[i].name);
    match crate::value_loader::saved_value(data, ws[i].name) {
        Some(v) => {
            let k = choose|k: int| 0 <= k < data.len() && #[trigger] data[k] == (ws[i].name, v);
            assert(data[k] == (ps[k].name, ps[k].value));
            let j = choose|j: int|
                0 <= j < ws.len() && contribution(#[trigger] ws[j]) == Some(ps[k]);
            assert(ws[j].extracted() is Some);
            assert(!(ws[j].control is Label));
            assert(ws[j].name == ps[k].name);
            assert(j == i);
        },
        None => {
            if contribution(ws[i]) is Some {
                let k = choose|k: int|
                    0 <= k < ps.len() && #[trigger] ps[k] == contribution(ws[i])->0;
                assert(data[k] == (ps[k].name, ps[k].value));
                assert(data[k].0 == ws[i].name);
            }
        },
    }
}

/// What a form contributes depends on nothing but what each of its widgets
/// contributes.
pub proof fn lemma_same_contributions(a: Seq<WidgetView>, b: Seq<WidgetView>)
    requires
        a.len() == b.len(),
        forall|i: int| 0 <= i < a.len() ==> (#[trigger] a[i]).extracted() == b[i].extracted(),
    ensures
        extracted_all(a) == extracted_all(b),
    decreases a.len(),
{
    if a.len() > 0 {
        let x = a.drop_last();
        let y = b.drop_last();
        assert forall|i: int| 0 <= i < x.len() implies (#[trigger] x[i]).extracted()
            == y[i].extracted() by {
            assert(x[i] == a[i]);
            assert(y[i] == b[i]);
        }
        lemma_same_contributions(x, y);
        assert(a.last() == a[a.len() - 1]);
        assert(b.last() == b[b.len() - 1]);
    }
}

/// Offering a widget the values that were read from its form leaves it
/// contributing the same.
pub proof fn lemma_offer_restores_what_was_read(ws: Seq<WidgetView>, i: int)
    requires
        names_tell_widgets(ws),
        0 <= i < ws.len(),
        ws[i].wf(),
        ws[i].control.tells_its_selection(),
    ensures
        ws[i].offered(saved(extracted_all(ws))) is Ok,
        ws[i].offered(saved(extracted_all(ws)))->Ok_0.extracted() == ws[i].extracted(),
{
    if !(ws[i].control is Label) {
        lemma_saved_under_its_name(ws, i);
        lemma_load_restores_what_was_read(ws[i]);
    }
}

/// The first widgets of a form, offered the values that were read from the
/// form, accept them and contribute the same as before.
pub proof fn lemma_loading_upto_restores(ws: Seq<WidgetView>, n: nat)
    requires
        names_tell_widgets(ws),
        forall|i: int| 0 <= i < ws.len() ==> (#[trigger] ws[i]).wf() && ws[i].control.tells_its_selection(),
        n <= ws.len(),
    ensures
        crate::value_loader::loaded_upto(ws, saved(extracted_all(ws)), n).1 is None,
        crate::value_loader::loaded_upto(ws, saved(extracted_all(ws)), n).0.len() == ws.len(),
        forall|i: int|
            0 <= i < ws.len() ==> (#[trigger] crate::value_loader::loaded_upto(
                ws,
                saved(extracted_all(ws)),
                n,
            ).0[i]).extracted() == ws[i].extracted(),
    decreases n,
{
    if n > 0 {
        lemma_loading_upto_restores(ws, (n - 1) as nat);
        lemma_offer_restores_what_was_read(ws, n - 1);
    }
}

/// Loading what was read from a form leaves the form saying the same: where
/// every widget is in a state that the toolkit can show, every list with
/// several choices tells its selection, and the widgets can be told apart by
/// their names, the values that were read are accepted, and the form then
/// contributes the same values again.
pub proof fn lemma_form_reads_back(ws: Seq<WidgetView>)
    requires
        names_tell_widgets(ws),
        forall|i: int| 0 <= i < ws.len() ==> (#[trigger] ws[i]).wf() && ws[i].control.tells_its_selection(),
    ensures
        crate::value_loader::loaded_form(ws, saved(extracted_all(ws))).1 is None,
        extracted_all(crate::value_loader::loaded_form(ws, saved(extracted_all(ws))).0)
            == extracted_all(ws),
{
    lemma_loading_upto_restores(ws, ws.len());
    let after = crate::value_loader::loaded_form(ws, saved(extracted_all(ws))).0;
    lemma_same_contributions(after, ws);
}

} // verus!
