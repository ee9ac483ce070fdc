use schematics_gui_reml::command_builder::{
    CommandBuilder, CommandBuilderOptions, InputType, OptionCase, Param,
};
use schematics_gui_reml::form_builder::{build_form, form_requests, render};
use schematics_gui_reml::form_utils::{
    clamp, find_last, ColorNotation, FileChooserAction, FormUtils, FormValue,
};
use schematics_gui_reml::items::{ItemsRequest, Listing};
use schematics_gui_reml::json::parse_json;
use schematics_gui_reml::primitive::Primitive;
use schematics_gui_reml::resolver::WidgetSpec;
use schematics_gui_reml::schema::ParseError;
use schematics_gui_reml::schema_enums::NumericValueType;
use schematics_gui_reml::schema_parsing::{
    ChoiceEntry, FsEntry, IntOrFloat, MenuEntry, NumericEntry, TextEntry, TimeInput,
};
use schematics_gui_reml::value_extractor::{
    date_string, extract, extract_values, group_value, multiselect_value, time_string,
    truth_string, ConfigurableSchematicOptions, ValueExtractor,
};
use schematics_gui_reml::value_loader::{
    find_button, find_saved, load_date, load_time, load_values, mark, press, spinner_value,
    LoadError, ValueLoader,
};
use schematics_gui_reml::widget::{
    digits_only, is_number, CalendarDate, Control, GroupButton, SpinTime, Widget,
};

const TODAY: CalendarDate = CalendarDate { year: 2024, month: 2, day: 29 };

fn widget(name: &str, control: Control) -> Widget {
    Widget { name: name.to_string(), control }
}

fn strings(items: &[&str]) -> Vec<String> {
    items.iter().map(|s| s.to_string()).collect()
}

fn buttons(items: &[(&str, bool)]) -> Vec<GroupButton> {
    items.iter().map(|(l, a)| GroupButton { label: l.to_string(), active: *a }).collect()
}

fn param(name: &str, value: &str, kind: InputType) -> Param {
    Param::new(name.to_string(), value.to_string(), kind)
}

fn value_of(control: Control) -> Option<Param> {
    let w = widget("n", control);
    ValueExtractor::new(&w).get_name_value()
}

fn loaded(control: Control, value: &str) -> Result<Control, LoadError> {
    let mut w = widget("n", control);
    let outcome = ValueLoader::new(&mut w).set_value(value, "n");
    outcome.map(|_| w.control)
}

fn round_trip(control: Control) {
    let before = value_of(control.clone()).expect("a value");
    let after = loaded(control.clone(), &before.value).expect("accepted");
    assert_eq!(value_of(after), Some(before), "{:?}", control);
}

#[test]
fn each_kind_writes_its_state_as_text() {
    let text = |s: &str| s.to_string();
    assert_eq!(value_of(Control::Entry { text: text("abc") }), Some(param("n", "abc", InputType::Text)));
    assert_eq!(value_of(Control::TextView { text: text("a\nb") }), Some(param("n", "a\nb", InputType::TextArea)));
    assert_eq!(value_of(Control::Switch { active: true }), Some(param("n", "true", InputType::Switch)));
    assert_eq!(value_of(Control::CheckButton { active: false }), Some(param("n", "false", InputType::Checkbox)));
    assert_eq!(value_of(Control::ToggleButton { active: true }), Some(param("n", "true", InputType::Toggle)));
    assert_eq!(value_of(Control::ColorButton { color: text("rgb(1,2,3)") }), Some(param("n", "rgb(1,2,3)", InputType::ColorButton)));
    assert_eq!(value_of(Control::ColorInput { text: text("#fff") }), Some(param("n", "#fff", InputType::ColorInput)));
    assert_eq!(value_of(Control::Slider { value: text("2.5") }), Some(param("n", "2.5", InputType::Slider)));
    assert_eq!(value_of(Control::SpinButton { value: text("7") }), Some(param("n", "7", InputType::Numeric)));
    assert_eq!(value_of(Control::FileInput { text: text("/tmp/x") }), Some(param("n", "/tmp/x", InputType::File)));
    assert_eq!(value_of(Control::DirInput { text: text("/tmp") }), Some(param("n", "/tmp", InputType::Dir)));
    assert_eq!(
        value_of(Control::TimeInput { time: SpinTime { hour: 13, minute: 5, second: 59 } }),
        Some(param("n", "13:05:59", InputType::Time))
    );
    assert_eq!(
        value_of(Control::DateInput { date: CalendarDate { year: 2024, month: 3, day: 7 } }),
        Some(param("n", "2024-03-07", InputType::Date))
    );
    assert_eq!(
        value_of(Control::DateTimeInput {
            date: CalendarDate { year: 1999, month: 12, day: 31 },
            time: SpinTime { hour: 0, minute: 0, second: 0 }
        }),
        Some(param("n", "1999-12-31 00:00:00", InputType::DateTime))
    );
    assert_eq!(
        value_of(Control::RadioGroup { buttons: buttons(&[("a", false), ("b", true)]) }),
        Some(param("n", "b", InputType::RadioGroup))
    );
    assert_eq!(
        value_of(Control::ToggleGroup { buttons: buttons(&[("a", true), ("b", false)]) }),
        Some(param("n", "a", InputType::ToggleGroup))
    );
    assert_eq!(
        value_of(Control::DropDown { items: strings(&["x", "y"]), selected: 1 }),
        Some(param("n", "y", InputType::DropDown))
    );
    assert_eq!(
        value_of(Control::ListView { items: strings(&["x", "y", "z"]), selected: vec![true, false, true] }),
        Some(param("n", "x,z", InputType::Multiselect))
    );
    assert_eq!(
        value_of(Control::ComboBox { items: strings(&["x"]), text: text("typed") }),
        Some(param("n", "typed", InputType::Combobox))
    );
    assert_eq!(value_of(Control::Label { text: text("l") }), None);
    assert_eq!(value_of(Control::Container), None);
}

#[test]
fn empty_values_are_dropped_but_for_booleans() {
    assert_eq!(value_of(Control::Entry { text: String::new() }), None);
    assert_eq!(value_of(Control::TextView { text: String::new() }), None);
    assert_eq!(value_of(Control::FileInput { text: String::new() }), None);
    assert_eq!(value_of(Control::ColorButton { color: String::new() }), None);
    assert_eq!(value_of(Control::RadioGroup { buttons: buttons(&[("a", false)]) }), None);
    assert_eq!(value_of(Control::RadioGroup { buttons: Vec::new() }), None);
    assert_eq!(value_of(Control::DropDown { items: Vec::new(), selected: 0 }), None);
    assert_eq!(value_of(Control::DropDown { items: strings(&["a"]), selected: 4 }), None);
    assert_eq!(value_of(Control::ListView { items: strings(&["a"]), selected: vec![false] }), None);
    assert_eq!(value_of(Control::ComboBox { items: Vec::new(), text: String::new() }), None);
    assert_eq!(value_of(Control::Switch { active: false }), Some(param("n", "false", InputType::Switch)));
    assert_eq!(value_of(Control::CheckButton { active: false }), Some(param("n", "false", InputType::Checkbox)));
    assert_eq!(value_of(Control::ToggleButton { active: false }), Some(param("n", "false", InputType::Toggle)));
}

#[test]
fn extractor_can_be_pointed_at_another_widget() {
    let a = widget("a", Control::Entry { text: "1".to_string() });
    let b = widget("b", Control::Switch { active: true });
    let mut extractor = ValueExtractor::new(&a);
    assert_eq!(extractor.get_name_value(), Some(param("a", "1", InputType::Text)));
    extractor.set_widget(&b);
    assert_eq!(extractor.get_name_value(), Some(param("b", "true", InputType::Switch)));
}

#[test]
fn loader_can_be_pointed_at_another_widget() {
    let mut a = widget("a", Control::Entry { text: String::new() });
    let mut b = widget("b", Control::Switch { active: false });
    {
        let mut loader = ValueLoader::new(&mut a);
        assert_eq!(loader.set_value("one", "a"), Ok(()));
        loader.set_widget(&mut b);
        assert_eq!(loader.set_value("true", "b"), Ok(()));
    }
    assert_eq!(a.control, Control::Entry { text: "one".to_string() });
    assert_eq!(b.control, Control::Switch { active: true });
}

#[test]
fn form_is_read_in_its_order() {
    let form = vec![
        widget("verbose", Control::Label { text: "Verbose".to_string() }),
        widget("verbose", Control::Switch { active: false }),
        widget("name", Control::Entry { text: String::new() }),
        widget("", Control::Entry { text: "nameless".to_string() }),
        widget("x", Control::Container),
        widget("out", Control::FileInput { text: "/tmp".to_string() }),
    ];
    assert_eq!(
        extract(&form),
        vec![param("verbose", "false", InputType::Switch), param("out", "/tmp", InputType::File)]
    );
    assert!(extract(&Vec::new()).is_empty());
}

#[test]
fn helpers_of_the_extractor() {
    assert_eq!(truth_string(true), "true");
    assert_eq!(truth_string(false), "false");
    assert_eq!(time_string(SpinTime { hour: 1, minute: 2, second: 3 }), "01:02:03");
    assert_eq!(time_string(SpinTime { hour: 23, minute: 59, second: 59 }), "23:59:59");
    assert_eq!(date_string(CalendarDate { year: 987, month: 1, day: 2 }), "987-01-02");
    assert_eq!(group_value(&buttons(&[("a", true), ("b", true)])), "a");
    assert_eq!(group_value(&Vec::new()), "");
    assert_eq!(multiselect_value(&strings(&["a", "b"]), &vec![true]), "a");
    assert_eq!(multiselect_value(&strings(&["a", "b"]), &vec![true, true, true]), "a,b");
}

#[test]
fn loading_writes_the_value_into_the_state() {
    let text = |s: &str| s.to_string();
    assert_eq!(loaded(Control::Entry { text: text("old") }, "new"), Ok(Control::Entry { text: text("new") }));
    assert_eq!(loaded(Control::TextView { text: text("") }, "a\nb"), Ok(Control::TextView { text: text("a\nb") }));
    assert_eq!(loaded(Control::Switch { active: false }, "true"), Ok(Control::Switch { active: true }));
    assert_eq!(loaded(Control::Switch { active: true }, "false"), Ok(Control::Switch { active: false }));
    assert_eq!(loaded(Control::Switch { active: true }, "yes"), Ok(Control::Switch { active: false }));
    assert_eq!(loaded(Control::CheckButton { active: false }, "true"), Ok(Control::CheckButton { active: true }));
    assert_eq!(loaded(Control::ToggleButton { active: false }, "True"), Ok(Control::ToggleButton { active: false }));
    assert_eq!(loaded(Control::ColorButton { color: text("") }, "#fff"), Ok(Control::ColorButton { color: text("#fff") }));
    assert_eq!(loaded(Control::ColorInput { text: text("") }, "rgb(0,0,0)"), Ok(Control::ColorInput { text: text("rgb(0,0,0)") }));
    assert_eq!(loaded(Control::FileInput { text: text("") }, "/a"), Ok(Control::FileInput { text: text("/a") }));
    assert_eq!(loaded(Control::DirInput { text: text("") }, "/a"), Ok(Control::DirInput { text: text("/a") }));
    assert_eq!(loaded(Control::Slider { value: text("1") }, "2.5"), Ok(Control::Slider { value: text("2.5") }));
    assert_eq!(loaded(Control::Slider { value: text("1") }, "many"), Ok(Control::Slider { value: text("0") }));
    assert_eq!(loaded(Control::SpinButton { value: text("1") }, "-3"), Ok(Control::SpinButton { value: text("-3") }));
    assert_eq!(loaded(Control::SpinButton { value: text("1") }, ""), Ok(Control::SpinButton { value: text("0") }));
    assert_eq!(loaded(Control::ComboBox { items: strings(&["a"]), text: text("") }, "b"), Ok(Control::ComboBox { items: strings(&["a"]), text: text("b") }));
    assert_eq!(loaded(Control::Label { text: text("l") }, "x"), Ok(Control::Label { text: text("l") }));
    assert_eq!(loaded(Control::Container, "x"), Ok(Control::Container));
}

#[test]
fn time_is_loaded_from_its_three_parts() {
    let zero = SpinTime { hour: 0, minute: 0, second: 0 };
    assert_eq!(load_time("13:05:59"), SpinTime { hour: 13, minute: 5, second: 59 });
    assert_eq!(load_time("1:2:3"), SpinTime { hour: 1, minute: 2, second: 3 });
    assert_eq!(load_time("99:99:99"), SpinTime { hour: 23, minute: 59, second: 59 });
    assert_eq!(load_time("x:5:-1"), SpinTime { hour: 0, minute: 5, second: 0 });
    assert_eq!(load_time("13:05"), zero);
    assert_eq!(load_time(""), zero);
    assert_eq!(load_time("1:2:3:4"), zero);
    assert_eq!(
        loaded(Control::TimeInput { time: zero }, "13:05:59"),
        Ok(Control::TimeInput { time: SpinTime { hour: 13, minute: 5, second: 59 } })
    );
    assert_eq!(spinner_value("7", 59), 7);
    assert_eq!(spinner_value("60", 59), 59);
    assert_eq!(spinner_value("99999999999999999999", 59), 59);
    assert_eq!(spinner_value("", 59), 0);
    assert_eq!(spinner_value("1.5", 59), 0);
}

#[test]
fn date_is_loaded_or_refused() {
    assert_eq!(load_date("2024-02-29"), Some(CalendarDate { year: 2024, month: 2, day: 29 }));
    assert_eq!(load_date("2023-02-29"), None);
    assert_eq!(load_date("1900-02-29"), None);
    assert_eq!(load_date("2000-02-29"), Some(CalendarDate { year: 2000, month: 2, day: 29 }));
    assert_eq!(load_date("2024-04-31"), None);
    assert_eq!(load_date("2024-12-31"), Some(CalendarDate { year: 2024, month: 12, day: 31 }));
    assert_eq!(load_date("2024-13-01"), None);
    assert_eq!(load_date("2024-00-10"), None);
    assert_eq!(load_date("2024-01-00"), None);
    assert_eq!(load_date("0-01-01"), None);
    assert_eq!(load_date("10000-01-01"), None);
    assert_eq!(load_date("2024-1-2"), Some(CalendarDate { year: 2024, month: 1, day: 2 }));
    assert_eq!(load_date("2024-01"), None);
    assert_eq!(load_date("tomorrow"), None);
    assert_eq!(load_date(""), None);
    let day = CalendarDate { year: 2020, month: 1, day: 1 };
    let time = SpinTime { hour: 1, minute: 1, second: 1 };
    assert_eq!(
        loaded(Control::DateInput { date: day }, "2024-03-07"),
        Ok(Control::DateInput { date: CalendarDate { year: 2024, month: 3, day: 7 } })
    );
    assert_eq!(loaded(Control::DateInput { date: day }, "2024-02-30"), Err(LoadError::InvalidDate));
    assert_eq!(
        loaded(Control::DateTimeInput { date: day, time }, "2024-03-07 13:05:59"),
        Ok(Control::DateTimeInput {
            date: CalendarDate { year: 2024, month: 3, day: 7 },
            time: SpinTime { hour: 13, minute: 5, second: 59 }
        })
    );
    assert_eq!(loaded(Control::DateTimeInput { date: day, time }, "2024-03-07"), Err(LoadError::InvalidDate));
    assert_eq!(loaded(Control::DateTimeInput { date: day, time }, "x 13:05:59"), Err(LoadError::InvalidDate));
    assert_eq!(loaded(Control::DateTimeInput { date: day, time }, "2024-03-07 1:2:3 x"), Err(LoadError::InvalidDate));
    assert!(CalendarDate { year: 2024, month: 2, day: 29 }.is_valid());
    assert!(!CalendarDate { year: 2024, month: 2, day: 30 }.is_valid());
    assert!(!CalendarDate { year: 2100, month: 2, day: 29 }.is_valid());
}

#[test]
fn menus_find_the_saved_item() {
    let items = strings(&["a", "b", "b"]);
    assert_eq!(
        loaded(Control::DropDown { items: items.clone(), selected: 0 }, "b"),
        Ok(Control::DropDown { items: items.clone(), selected: 1 })
    );
    assert_eq!(loaded(Control::DropDown { items: items.clone(), selected: 0 }, "c"), Err(LoadError::NoSuchChoice));
    assert_eq!(loaded(Control::DropDown { items: Vec::new(), selected: 0 }, ""), Err(LoadError::NoSuchChoice));
    assert_eq!(
        loaded(Control::RadioGroup { buttons: buttons(&[("a", true), ("b", false), ("b", false)]) }, "b"),
        Ok(Control::RadioGroup { buttons: buttons(&[("a", false), ("b", true), ("b", false)]) })
    );
    assert_eq!(
        loaded(Control::ToggleGroup { buttons: buttons(&[("a", true), ("b", false)]) }, "b"),
        Ok(Control::ToggleGroup { buttons: buttons(&[("a", false), ("b", true)]) })
    );
    assert_eq!(
        loaded(Control::ListView { items: strings(&["x", "y", "z"]), selected: vec![false, true, false] }, "z,x"),
        Ok(Control::ListView { items: strings(&["x", "y", "z"]), selected: vec![true, false, true] })
    );
    assert_eq!(
        loaded(Control::ListView { items: strings(&["x", "y"]), selected: vec![true, true] }, "none"),
        Ok(Control::ListView { items: strings(&["x", "y"]), selected: vec![false, false] })
    );
    assert_eq!(
        loaded(Control::ListView { items: strings(&["x", "y"]), selected: vec![false, false] }, "none"),
        Ok(Control::ListView { items: strings(&["x", "y"]), selected: vec![false, false] })
    );
    let mut group = buttons(&[("a", false), ("b", false)]);
    assert_eq!(find_button(&group, "b"), Some(1));
    assert_eq!(find_button(&group, "c"), None);
    assert_eq!(press(&mut group, "a"), Ok(()));
    assert_eq!(group, buttons(&[("a", true), ("b", false)]));
    assert_eq!(press(&mut group, "c"), Err(LoadError::NoSuchChoice));
    assert_eq!(group, buttons(&[("a", true), ("b", false)]));
    assert_eq!(mark(&strings(&["a", "b"]), "b"), vec![false, true]);
    assert_eq!(mark(&strings(&["a", "b", "a"]), "a,c"), vec![true, false, true]);
    assert_eq!(mark(&strings(&["a", "b"]), ""), vec![false, false]);
}

#[test]
fn loading_a_list_replaces_its_selection() {
    let list = Control::ListView {
        items: strings(&["a", "b", "c"]),
        selected: vec![false, true, false],
    };
    let after = loaded(list.clone(), "a,c").unwrap();
    assert_eq!(
        after,
        Control::ListView { items: strings(&["a", "b", "c"]), selected: vec![true, false, true] }
    );
    assert_eq!(value_of(after), Some(param("n", "a,c", InputType::Multiselect)));
    let one = loaded(list, "a").unwrap();
    assert_eq!(value_of(one), Some(param("n", "a", InputType::Multiselect)));
}

#[test]
fn group_refuses_a_label_that_no_button_has() {
    let radio = Control::RadioGroup { buttons: buttons(&[("a", true), ("b", false)]) };
    let mut w = widget("g", radio.clone());
    assert_eq!(ValueLoader::new(&mut w).set_value("zzz", "g"), Err(LoadError::NoSuchChoice));
    assert_eq!(w.control, radio);
    assert_eq!(
        loaded(Control::ToggleGroup { buttons: buttons(&[("a", true), ("b", false)]) }, "zzz"),
        Err(LoadError::NoSuchChoice)
    );
    assert_eq!(
        loaded(Control::RadioGroup { buttons: Vec::new() }, "a"),
        Err(LoadError::NoSuchChoice)
    );
    let mut form = vec![
        widget("first", Control::Entry { text: String::new() }),
        widget("g", radio.clone()),
        widget("last", Control::Entry { text: String::new() }),
    ];
    let data = vec![
        ("first".to_string(), "1".to_string()),
        ("g".to_string(), "zzz".to_string()),
        ("last".to_string(), "2".to_string()),
    ];
    assert_eq!(load_values(&mut form, &data), Err(LoadError::NoSuchChoice));
    assert_eq!(form[0].control, Control::Entry { text: "1".to_string() });
    assert_eq!(form[1].control, radio);
    assert_eq!(form[2].control, Control::Entry { text: String::new() });
}

#[test]
fn what_was_read_can_be_loaded_again() {
    let text = |s: &str| s.to_string();
    for control in [
        Control::Entry { text: text("some text") },
        Control::TextView { text: text("a\nb") },
        Control::Switch { active: true },
        Control::Switch { active: false },
        Control::CheckButton { active: true },
        Control::ToggleButton { active: false },
        Control::ColorButton { color: text("rgb(1,2,3)") },
        Control::ColorInput { text: text("#aabbcc") },
        Control::Slider { value: text("2.5") },
        Control::Slider { value: text("-10") },
        Control::SpinButton { value: text("0") },
        Control::FileInput { text: text("/tmp/x y") },
        Control::DirInput { text: text("/tmp") },
        Control::TimeInput { time: SpinTime { hour: 13, minute: 5, second: 59 } },
        Control::TimeInput { time: SpinTime { hour: 0, minute: 0, second: 0 } },
        Control::TimeInput { time: SpinTime { hour: 23, minute: 59, second: 59 } },
        Control::DateInput { date: CalendarDate { year: 2024, month: 2, day: 29 } },
        Control::DateInput { date: CalendarDate { year: 1, month: 1, day: 1 } },
        Control::DateInput { date: CalendarDate { year: 9999, month: 12, day: 31 } },
        Control::DateTimeInput {
            date: CalendarDate { year: 2001, month: 9, day: 9 },
            time: SpinTime { hour: 1, minute: 46, second: 40 },
        },
        Control::RadioGroup { buttons: buttons(&[("a", false), ("b", true), ("c", false)]) },
        Control::ToggleGroup { buttons: buttons(&[("same", false), ("same", true)]) },
        Control::DropDown { items: strings(&["x", "y", "y"]), selected: 2 },
        Control::ListView { items: strings(&["x", "y", "z", ""]), selected: vec![true, false, true, true] },
        Control::ListView { items: strings(&["only"]), selected: vec![true] },
        Control::ComboBox { items: strings(&["x"]), text: text("typed") },
    ] {
        round_trip(control);
    }
}

#[test]
fn what_was_read_from_a_form_can_be_loaded_again() {
    let mut form = vec![
        widget("name", Control::Label { text: "Name".to_string() }),
        widget("name", Control::Entry { text: "x".to_string() }),
        widget("empty", Control::Entry { text: String::new() }),
        widget("on", Control::Switch { active: false }),
        widget("at", Control::TimeInput { time: SpinTime { hour: 7, minute: 8, second: 9 } }),
        widget("day", Control::DateInput { date: CalendarDate { year: 2024, month: 2, day: 29 } }),
        widget("kind", Control::DropDown { items: strings(&["a", "b"]), selected: 1 }),
        widget("tags", Control::ListView { items: strings(&["p", "q", "r"]), selected: vec![true, false, true] }),
        widget("pick", Control::RadioGroup { buttons: buttons(&[("l", false), ("m", true)]) }),
        widget("rest", Control::Container),
    ];
    let before = form.clone();
    let read = extract(&form);
    let data: Vec<(String, String)> = read.iter().map(|p| (p.name.clone(), p.value.clone())).collect();
    assert_eq!(load_values(&mut form, &data), Ok(()));
    assert_eq!(form, before);
    assert_eq!(extract(&form), read);
}

#[test]
fn list_with_commas_in_its_items_does_not_tell_its_selection() {
    let control = Control::ListView { items: strings(&["a,b", "a"]), selected: vec![true, false] };
    let value = value_of(control.clone()).unwrap();
    assert_eq!(value.value, "a,b");
    let after = loaded(control, &value.value).unwrap();
    assert_eq!(after, Control::ListView { items: strings(&["a,b", "a"]), selected: vec![false, true] });
    assert_eq!(value_of(after).unwrap().value, "a");
    let twice = Control::ListView { items: strings(&["a", "a"]), selected: vec![true, false] };
    let after = loaded(twice, "a").unwrap();
    assert_eq!(value_of(after).unwrap().value, "a,a");
}

#[test]
fn form_takes_the_saved_values_by_name() {
    let mut form = vec![
        widget("name", Control::Label { text: "Name".to_string() }),
        widget("name", Control::Entry { text: String::new() }),
        widget("kind", Control::DropDown { items: strings(&["a", "b"]), selected: 0 }),
        widget("other", Control::Entry { text: "kept".to_string() }),
        widget("on", Control::Switch { active: false }),
    ];
    let data = vec![
        ("on".to_string(), "true".to_string()),
        ("name".to_string(), "first".to_string()),
        ("name".to_string(), "second".to_string()),
        ("kind".to_string(), "b".to_string()),
        ("unknown".to_string(), "x".to_string()),
    ];
    assert_eq!(load_values(&mut form, &data), Ok(()));
    assert_eq!(form[0].control, Control::Label { text: "Name".to_string() });
    assert_eq!(form[1].control, Control::Entry { text: "first".to_string() });
    assert_eq!(form[2].control, Control::DropDown { items: strings(&["a", "b"]), selected: 1 });
    assert_eq!(form[3].control, Control::Entry { text: "kept".to_string() });
    assert_eq!(form[4].control, Control::Switch { active: true });
    assert_eq!(find_saved(&data, "name"), Some(&"first".to_string()));
    assert_eq!(find_saved(&data, "none"), None);
}

#[test]
fn stale_choice_ends_the_loading() {
    let mut form = vec![
        widget("a", Control::Entry { text: String::new() }),
        widget("kind", Control::DropDown { items: strings(&["a", "b"]), selected: 0 }),
        widget("z", Control::Entry { text: "before".to_string() }),
    ];
    let data = vec![
        ("a".to_string(), "loaded".to_string()),
        ("kind".to_string(), "gone".to_string()),
        ("z".to_string(), "never".to_string()),
    ];
    assert_eq!(load_values(&mut form, &data), Err(LoadError::NoSuchChoice));
    assert_eq!(form[0].control, Control::Entry { text: "loaded".to_string() });
    assert_eq!(form[1].control, Control::DropDown { items: strings(&["a", "b"]), selected: 0 });
    assert_eq!(form[2].control, Control::Entry { text: "before".to_string() });
    let mut dated = vec![widget("d", Control::DateInput { date: TODAY })];
    assert_eq!(load_values(&mut dated, &vec![("d".to_string(), "soon".to_string())]), Err(LoadError::InvalidDate));
    assert_eq!(dated[0].control, Control::DateInput { date: TODAY });
    let mut one = widget("d", Control::DateInput { date: TODAY });
    assert_eq!(one.offer(&vec![("d".to_string(), "2024-03-01".to_string())]), Ok(()));
    assert_eq!(one.control, Control::DateInput { date: CalendarDate { year: 2024, month: 3, day: 1 } });
}

#[test]
fn numbers_in_plain_notation() {
    for good in ["0", "12", "-12", "1.5", "-0.25", "007"] {
        assert!(is_number(good), "{}", good);
    }
    for bad in ["", "-", ".", "1.", ".5", "1.2.3", "1e5", "+1", " 1", "abc", "--1", "1-"] {
        assert!(!is_number(bad), "{}", bad);
    }
    assert!(digits_only("0123456789"));
    assert!(!digits_only(""));
    assert!(!digits_only("12a"));
}

const SCHEMA: &str = r#"{
  "$schema": "s", "$id": "demo", "title": "Demo", "type": "object",
  "properties": {
    "verbose": {"type": "boolean"},
    "outDir": {"type": "string", "format": "path", "description": "Where to write"}
  }
}"#;

#[test]
fn schema_becomes_a_form_and_the_form_a_command_line() {
    let json = parse_json(SCHEMA).unwrap();
    assert_eq!(form_requests(&json, &None), Ok(vec![ItemsRequest::Nothing, ItemsRequest::Nothing]));
    let mut form = build_form(&json, &None, &Vec::new(), TODAY).unwrap();
    assert_eq!(
        form,
        vec![
            widget("verbose", Control::Label { text: String::new() }),
            widget("verbose", Control::Switch { active: false }),
            widget("outDir", Control::Label { text: "Where to write".to_string() }),
            widget("outDir", Control::FileInput { text: String::new() }),
        ]
    );
    form[1].control = Control::Switch { active: true };
    form[3].control = Control::FileInput { text: "/tmp/x".to_string() };
    let params = extract(&form);
    assert_eq!(
        params,
        vec![param("verbose", "true", InputType::Switch), param("outDir", "/tmp/x", InputType::File)]
    );
    let mut flags = CommandBuilder::new(Some(CommandBuilderOptions {
        quote_paths: true,
        pass_boolean: false,
        option_case: OptionCase::Camel,
        ..Default::default()
    }));
    flags.set_params(params.clone());
    assert_eq!(flags.to_string(Some(" ".to_string())), "--verbose --outDir \"/tmp/x\"");
    let mut plain = CommandBuilder::new(Some(CommandBuilderOptions {
        quote_paths: true,
        ..Default::default()
    }));
    plain.set_params(params);
    assert_eq!(plain.to_string(Some(" ".to_string())), "--verbose true --out-dir \"/tmp/x\"");
}

#[test]
fn document_without_an_id_gives_an_empty_form() {
    let json = parse_json(r#"{"type": "object", "properties": {"a": {"type": "string"}}}"#).unwrap();
    assert_eq!(build_form(&json, &None, &Vec::new(), TODAY), Ok(Vec::new()));
    assert_eq!(form_requests(&json, &None), Ok(Vec::new()));
    let null = parse_json("null").unwrap();
    assert_eq!(build_form(&null, &None, &Vec::new(), TODAY), Ok(Vec::new()));
    let no_properties = parse_json(r#"{"$id": "x"}"#).unwrap();
    assert_eq!(build_form(&no_properties, &None, &Vec::new(), TODAY), Ok(Vec::new()));
    let empty_id = parse_json(r#"{"$id": "", "properties": {"a": {"type": "string"}}}"#).unwrap();
    assert_eq!(build_form(&empty_id, &None, &Vec::new(), TODAY), Ok(Vec::new()));
    assert_eq!(form_requests(&empty_id, &None), Ok(Vec::new()));
    let unreadable = parse_json(r#"{"$id": "", "properties": {"a": {"description": "no type"}}}"#).unwrap();
    assert_eq!(build_form(&unreadable, &None, &Vec::new(), TODAY), Ok(Vec::new()));
    let with_id = parse_json(r#"{"$id": "x", "properties": {"a": {"type": "string"}}}"#).unwrap();
    assert_eq!(build_form(&with_id, &None, &Vec::new(), TODAY).unwrap().len(), 2);
}

#[test]
fn property_that_cannot_be_read_gives_no_form() {
    let json = parse_json(r#"{"$id": "x", "properties": {"a": {"type": "string"}, "b": {"description": "no type"}}}"#).unwrap();
    assert_eq!(build_form(&json, &None, &Vec::new(), TODAY), Err(ParseError::Property));
    assert_eq!(form_requests(&json, &None), Err(ParseError::Property));
}

#[test]
fn form_takes_its_choices_from_the_listings() {
    let json = parse_json(
        r#"{"$id": "x", "properties": {
            "name": {"type": "string", "default": "n"},
            "module": {"type": "string", "x-prompt": {"type": "list", "message": "Module?", "items": "$modules"}, "default": "core"},
            "files": {"type": "array", "x-prompt": {"type": "list", "message": "Files?", "multiselect": true, "items": "$files:lib"}}
        }}"#,
    )
    .unwrap();
    let cwd = Some("/proj".to_string());
    assert_eq!(
        form_requests(&json, &cwd),
        Ok(vec![
            ItemsRequest::Nothing,
            ItemsRequest::Modules { cwd: "/proj".to_string() },
            ItemsRequest::Entries { cwd: "/proj".to_string(), subpath: "lib".to_string(), dirs: false },
        ])
    );
    let listings = vec![
        Listing { base: String::new(), entries: Vec::new() },
        Listing { base: "/proj/src".to_string(), entries: strings(&["shop", "core"]) },
        Listing { base: "/proj/lib".to_string(), entries: strings(&["b.ts", "a.ts"]) },
    ];
    let form = build_form(&json, &cwd, &listings, TODAY).unwrap();
    assert_eq!(form.len(), 6);
    assert_eq!(form[1], widget("name", Control::Entry { text: "n".to_string() }));
    assert_eq!(form[2], widget("module", Control::Label { text: "Module?".to_string() }));
    assert_eq!(form[3], widget("module", Control::DropDown { items: strings(&["core", "shop"]), selected: 0 }));
    assert_eq!(form[5], widget("files", Control::ListView { items: strings(&["a.ts", "b.ts"]), selected: vec![false, false] }));
    let without = build_form(&json, &None, &Vec::new(), TODAY).unwrap();
    assert_eq!(
        without[3],
        widget("module", Control::DropDown { items: strings(&["Select current working directory!"]), selected: 0 })
    );
}

#[test]
fn widgets_start_from_the_default() {
    let utils = FormUtils::new();
    let text = |s: &str| Some(Primitive::Str(s.to_string()));
    assert_eq!(utils.label("Text", "n"), widget("n", Control::Label { text: "Text".to_string() }));
    assert_eq!(utils.text_input("n", None, text("d")).control, Control::Entry { text: "d".to_string() });
    assert_eq!(utils.text_input("n", Some(TextEntry::default()), None).control, Control::Entry { text: String::new() });
    assert_eq!(utils.text_input("n", None, Some(Primitive::Int(5))).control, Control::Entry { text: "5".to_string() });
    assert_eq!(utils.textarea_input("n", None, text("a\nb")).control, Control::TextView { text: "a\nb".to_string() });
    assert_eq!(utils.file_input("n", Some(FsEntry::default())).control, Control::FileInput { text: String::new() });
    assert_eq!(utils.color_button("n", None, text("#fff")).control, Control::ColorButton { color: "#fff".to_string() });
    assert_eq!(utils.color_input("n", None, None).control, Control::ColorInput { text: String::new() });
    assert_eq!(utils.switch("n", None, Some(Primitive::Bool(true))).control, Control::Switch { active: true });
    assert_eq!(utils.switch("n", None, text("true")).control, Control::Switch { active: false });
    assert_eq!(utils.checkbox_or_radio("n", Some(ChoiceEntry::default()), None).control, Control::CheckButton { active: false });
    assert_eq!(utils.toggle_button("n", None, Some(Primitive::Bool(true))).control, Control::ToggleButton { active: true });
    assert_eq!(utils.numeric_input("n", None, None).control, Control::SpinButton { value: "0".to_string() });
    assert_eq!(utils.numeric_input("n", None, Some(Primitive::Int(-4))).control, Control::SpinButton { value: "-4".to_string() });
    assert_eq!(utils.numeric_input("n", None, Some(Primitive::Float("2.5".to_string()))).control, Control::SpinButton { value: "2.5".to_string() });
    assert_eq!(utils.numeric_input("n", None, text("7")).control, Control::SpinButton { value: "0".to_string() });
    let from_three = NumericEntry { initial_value: IntOrFloat::Int(3), ..Default::default() };
    assert_eq!(utils.slider("n", Some(from_three), None).control, Control::Slider { value: "3".to_string() });
    assert_eq!(utils.slider("n", None, Some(Primitive::Int(9))).control, Control::Slider { value: "9".to_string() });
}

#[test]
fn calendars_and_clocks_start_from_the_default() {
    let utils = FormUtils::new();
    let text = |s: &str| Some(Primitive::Str(s.to_string()));
    let day = CalendarDate { year: 2021, month: 5, day: 6 };
    assert_eq!(utils.date_input("n", None, None, TODAY).control, Control::DateInput { date: TODAY });
    assert_eq!(utils.date_input("n", None, text("2021-05-06T07:08:09Z"), TODAY).control, Control::DateInput { date: day });
    assert_eq!(utils.date_input("n", None, text("2021-05-06"), TODAY).control, Control::DateInput { date: TODAY });
    assert_eq!(utils.date_input("n", None, text("2021-02-30T00:00:00Z"), TODAY).control, Control::DateInput { date: TODAY });
    assert_eq!(utils.time_input("n", None, None).control, Control::TimeInput { time: SpinTime { hour: 0, minute: 0, second: 0 } });
    assert_eq!(utils.time_input("n", None, text("13:05:59")).control, Control::TimeInput { time: SpinTime { hour: 13, minute: 5, second: 59 } });
    assert_eq!(utils.time_input("n", None, text("30:-1:75")).control, Control::TimeInput { time: SpinTime { hour: 23, minute: 0, second: 59 } });
    assert_eq!(
        utils.date_time_input("n", None, text("2021-05-06T07:08:09Z"), TODAY).control,
        Control::DateTimeInput { date: day, time: SpinTime { hour: 0, minute: 8, second: 0 } }
    );
    assert_eq!(FormUtils::first_time(Some(Primitive::Time(TimeInput(1, 2, 3)))), SpinTime { hour: 0, minute: 0, second: 0 });
    assert_eq!(clamp(-5, 23), 0);
    assert_eq!(clamp(24, 23), 23);
    assert_eq!(clamp(7, 23), 7);
}

#[test]
fn menus_start_from_the_default() {
    let utils = FormUtils::new();
    let text = |s: &str| Some(Primitive::Str(s.to_string()));
    let items = strings(&["a", "b", "a"]);
    assert_eq!(FormUtils::get_menu_default(&items, text("b")), 1);
    assert_eq!(FormUtils::get_menu_default(&items, text("a")), 0);
    assert_eq!(FormUtils::get_menu_default(&items, text("zz")), 0);
    assert_eq!(FormUtils::get_menu_default(&items, None), 0);
    assert_eq!(FormUtils::get_string_default(Some(Primitive::Int(3))), "3");
    assert_eq!(FormUtils::get_string_default(None), "");
    assert_eq!(utils.dropdown("n", &items, Some(MenuEntry::default()), text("b")).control, Control::DropDown { items: items.clone(), selected: 1 });
    assert_eq!(utils.combobox_text("n", &items, None, text("b")).control, Control::ComboBox { items: items.clone(), text: "b".to_string() });
    assert_eq!(utils.combobox_text("n", &Vec::new(), None, text("b")).control, Control::ComboBox { items: Vec::new(), text: String::new() });
    assert_eq!(utils.radio_group("n", &items, None, text("a")).control, Control::RadioGroup { buttons: buttons(&[("a", false), ("b", false), ("a", true)]) });
    assert_eq!(utils.toggle_group("n", &items, None, None).control, Control::ToggleGroup { buttons: buttons(&[("a", false), ("b", false), ("a", false)]) });
    assert_eq!(find_last(&items, "a"), Some(2));
    assert_eq!(find_last(&items, "c"), None);
    let several = Some(Primitive::StringVec(strings(&["b", "missing"])));
    assert_eq!(utils.multiselect_input("n", &items, None, several).control, Control::ListView { items: items.clone(), selected: vec![true, true, false] });
    assert_eq!(utils.multiselect_input("n", &items, None, None).control, Control::ListView { items: items.clone(), selected: vec![false, false, false] });
    assert_eq!(utils.multiselect_input("n", &Vec::new(), None, text("x")).control, Control::ListView { items: Vec::new(), selected: Vec::new() });
    assert_eq!(render(&WidgetSpec::Empty, "n", &items, None, TODAY), widget("n", Control::Container));
    assert_eq!(render(&WidgetSpec::Dir(FsEntry::default()), "n", &items, None, TODAY), widget("n", Control::FileInput { text: String::new() }));
}

#[test]
fn decimals_and_file_choosers() {
    let float = NumericEntry::default();
    let int = NumericEntry { value_type: NumericValueType::Int, ..Default::default() };
    assert_eq!(FormUtils::get_digits(&float, &None), 2);
    assert_eq!(FormUtils::get_digits(&int, &None), 0);
    assert_eq!(FormUtils::get_digits(&float, &Some(Primitive::Float("1.125".to_string()))), 3);
    assert_eq!(FormUtils::get_digits(&float, &Some(Primitive::Int(5))), 0);
    assert_eq!(FormUtils::get_digits(&int, &Some(Primitive::Float("1.125".to_string()))), 0);
    let precise = NumericEntry { precision: IntOrFloat::Float("4.9".to_string()), ..Default::default() };
    assert_eq!(FormUtils::get_digits(&precise, &None), 4);
    let file = FsEntry::default();
    let new_file = FsEntry { is_new: true, ..Default::default() };
    let dir = FsEntry { is_dir: true, is_new: true, title: Some("Pick".to_string()), ..Default::default() };
    assert_eq!(FormUtils::file_action(&file), FileChooserAction::Open);
    assert_eq!(FormUtils::file_action(&new_file), FileChooserAction::Save);
    assert_eq!(FormUtils::file_action(&dir), FileChooserAction::SelectFolder);
    assert_eq!(FormUtils::file_title(&file), "Choose a file");
    assert_eq!(FormUtils::file_title(&FsEntry { is_dir: true, ..Default::default() }), "Choose a directory");
    assert_eq!(FormUtils::file_title(&dir), "Pick");
    assert_eq!(FormUtils::color_notation("#ff0000"), ColorNotation::Hex);
    assert_eq!(FormUtils::color_notation("rgb(1,2,3)"), ColorNotation::Rgb);
    assert_eq!(FormUtils::color_notation("rgba(1,2,3,0.5)"), ColorNotation::Rgb);
    assert_eq!(FormUtils::color_notation("hsl(120,50%,50%)"), ColorNotation::Hsl);
    assert_eq!(FormUtils::color_notation("red"), ColorNotation::Unknown);
    assert_eq!(FormUtils::color_notation(""), ColorNotation::Unknown);
    let value = FormValue::new("name", "value");
    assert_eq!((value.name, value.value), ("name", "value"));
}

#[test]
fn reading_a_form_marks_the_configurable_option() {
    let form = vec![
        widget("a", Control::Entry { text: "1".to_string() }),
        widget("useConfig", Control::Switch { active: true }),
        widget("b", Control::Entry { text: "2".to_string() }),
    ];
    let option = Some(ConfigurableSchematicOptions::new("useConfig".to_string(), "cfg.json".to_string()));
    let builder = extract_values(&form, &option);
    assert_eq!(builder.get_configurable(), "useConfig");
    assert_eq!(builder.to_toml(), "a='1'\nuse-config='true'\nb='2'");
    assert_eq!(builder.to_params(), vec![param("use-config", "true", InputType::Switch)]);
    let off = vec![widget("useConfig", Control::Switch { active: false })];
    assert_eq!(extract_values(&off, &option).get_configurable(), "");
    let none = extract_values(&form, &None);
    assert_eq!(none.get_configurable(), "");
    assert_eq!(none.to_params().len(), 3);
    let simple = Some(ConfigurableSchematicOptions::new("config".to_string(), String::new()));
    let form = vec![
        widget("a", Control::Entry { text: "1".to_string() }),
        widget("config", Control::Switch { active: true }),
    ];
    assert_eq!(
        extract_values(&form, &simple).to_params(),
        vec![param("config", "true", InputType::Switch)]
    );
    let default = ConfigurableSchematicOptions::default();
    assert_eq!((default.config_option.as_str(), default.config_file.as_str()), ("", ""));
}
