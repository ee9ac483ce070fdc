use schematics_gui_reml::json::{parse_json, JsonValue};
use schematics_gui_reml::primitive::{parse_time, Primitive};
use schematics_gui_reml::schema::{
    ParseError, Schema, SchemaItem, SchemaProp, StringOrPrompt, VecOrString, XPrompt, XWidget,
    XWidgetType,
};
use schematics_gui_reml::schema_enums::{
    ChoiceType, ColorEntryFormat, ColorEntryType, CurrentValuePosType, DateEntryType, HintType,
    IconPositionType, JustificationType, MenuType, NumericType, NumericValueType, OrientationType,
    PurposeType, TextAlignmentType,
};
use schematics_gui_reml::schema_parsing::{
    ChoiceEntry, ColorEntry, DateEntry, FsEntry, IntOrFloat, MarkData, MenuEntry, NumericEntry,
    TextEntry, TimeInput,
};

fn json(text: &str) -> JsonValue {
    parse_json(text).unwrap()
}

fn prop(text: &str) -> Option<SchemaProp> {
    SchemaProp::from_json(&json(text))
}

const SCHEMA: &str = r#"{
  "$schema": "http://json-schema.org/schema",
  "$id": "component",
  "title": "Component",
  "description": "Makes a component",
  "configurable": "useConfig",
  "type": "object",
  "properties": {
    "name": {"type": "string", "description": "The name", "x-prompt": "What name?"},
    "path": {"type": "string", "format": "path", "default": "./config.json"},
    "module": {"type": "string", "x-prompt": {"type": "list", "message": "Which module?", "items": "$modules"}},
    "verbose": {"type": "boolean", "default": false}
  }
}"#;

#[test]
fn json_keeps_the_order_and_the_text_of_numbers() {
    let v = json(r#"{"b": 1, "a": [true, null, "x", 2.5, -3], "c": {"d": 1e3}}"#);
    assert_eq!(
        v,
        JsonValue::Object(vec![
            ("b".to_string(), JsonValue::Number("1".to_string())),
            (
                "a".to_string(),
                JsonValue::Array(vec![
                    JsonValue::Bool(true),
                    JsonValue::Null,
                    JsonValue::Text("x".to_string()),
                    JsonValue::Number("2.5".to_string()),
                    JsonValue::Number("-3".to_string()),
                ])
            ),
            (
                "c".to_string(),
                JsonValue::Object(vec![("d".to_string(), JsonValue::Number("1000.0".to_string()))])
            ),
        ])
    );
    assert_eq!(v.duplicate(), v);
    assert!(parse_json("{").is_none());
    assert!(parse_json("").is_none());
}

#[test]
fn json_members_are_found_by_name() {
    let v = json(r#"{"a": "x", "b": null, "n": 7, "big": 3000000000, "l": ["p", "q"], "m": ["p", 1]}"#);
    assert_eq!(v.get("a").unwrap().as_text().unwrap(), "x");
    assert!(v.get("zz").is_none());
    assert!(v.get("b").is_some());
    assert!(v.get_present("b").is_none());
    assert_eq!(v.get("n").unwrap().as_i32(), Some(7));
    assert_eq!(v.get("big").unwrap().as_i32(), None);
    assert_eq!(v.get("a").unwrap().as_i32(), None);
    assert_eq!(v.get("a").unwrap().as_bool(), None);
    assert_eq!(v.get("l").unwrap().as_texts(), Some(vec!["p".to_string(), "q".to_string()]));
    assert_eq!(v.get("m").unwrap().as_texts(), None);
    assert!(v.is_object());
    assert!(!v.get("a").unwrap().is_object());
    assert!(v.get("a").unwrap().get("x").is_none());
}

#[test]
fn schema_is_read_with_its_properties_in_order() {
    let schema = Schema::parse(SCHEMA).unwrap();
    assert_eq!(schema.schema, "http://json-schema.org/schema");
    assert_eq!(schema.id, "component");
    assert_eq!(schema.title, "Component");
    assert_eq!(schema.description, Some("Makes a component".to_string()));
    assert_eq!(schema.configurable, Some("useConfig".to_string()));
    assert_eq!(schema.kind, "object");
    let names: Vec<&str> = schema.properties.iter().map(|p| p.0.as_str()).collect();
    assert_eq!(names, vec!["name", "path", "module", "verbose"]);
}

#[test]
fn schema_with_a_wrong_shape_is_refused() {
    assert_eq!(Schema::parse("{ nope").unwrap_err(), ParseError::Json);
    assert_eq!(Schema::parse("[]").unwrap_err(), ParseError::Document);
    assert_eq!(Schema::parse("{}").unwrap_err(), ParseError::Document);
    let no_properties = r#"{"$schema": "s", "$id": "i", "title": "t", "type": "object"}"#;
    assert_eq!(Schema::parse(no_properties).unwrap_err(), ParseError::Document);
    let bad_properties =
        r#"{"$schema": "s", "$id": "i", "title": "t", "type": "object", "properties": []}"#;
    assert_eq!(Schema::parse(bad_properties).unwrap_err(), ParseError::Document);
    let bad_type = r#"{"$schema": "s", "$id": "i", "title": "t", "type": 1, "properties": {}}"#;
    assert_eq!(Schema::parse(bad_type).unwrap_err(), ParseError::Document);
    let bad_description = r#"{"$schema": "s", "$id": "i", "title": "t", "type": "object", "properties": {}, "description": 5}"#;
    assert_eq!(Schema::parse(bad_description).unwrap_err(), ParseError::Document);
    let minimal = r#"{"$schema": "s", "$id": "i", "title": "t", "type": "object", "properties": {}, "description": null}"#;
    let schema = Schema::parse(minimal).unwrap();
    assert_eq!(schema.description, None);
    assert_eq!(schema.configurable, None);
    assert!(schema.properties.is_empty());
}

#[test]
fn schema_knows_whether_it_needs_a_working_directory() {
    assert!(Schema::parse(SCHEMA).unwrap().has_directives());
    let plain = r#"{"$schema": "s", "$id": "i", "title": "t", "type": "object", "properties": {
        "a": {"type": "string", "x-prompt": "$modules"},
        "b": {"type": "string", "x-prompt": {"type": "list", "message": "m", "items": ["$modules"]}},
        "c": {"type": "string", "x-prompt": {"type": "list", "message": "m", "items": "modules"}},
        "d": {"type": "string", "x-prompt": {"type": "list", "message": "m", "items": ""}},
        "e": 5
    }}"#;
    assert!(!Schema::parse(plain).unwrap().has_directives());
    let dir = r#"{"$schema": "s", "$id": "i", "title": "t", "type": "object", "properties": {
        "a": {"type": "string"},
        "b": {"type": "string", "x-prompt": {"type": "list", "message": "m", "items": "$dir:src"}}
    }}"#;
    assert!(Schema::parse(dir).unwrap().has_directives());
}

#[test]
fn schema_hands_out_a_property_by_name() {
    let schema = Schema::parse(SCHEMA).unwrap();
    let path = schema.get_property("path").unwrap();
    assert_eq!(path.kind, "string");
    assert_eq!(path.format, Some("path".to_string()));
    assert_eq!(path.default, Some(Primitive::Str("./config.json".to_string())));
    assert!(schema.get_property("missing").is_none());
    let broken = r#"{"$schema": "s", "$id": "i", "title": "t", "type": "object", "properties": {"a": {"type": 5}}}"#;
    assert!(Schema::parse(broken).unwrap().get_property("a").is_none());
}

#[test]
fn property_is_read_member_by_member() {
    let p = prop(
        r#"{"type": "string", "description": "d", "default": 5, "alias": "a", "enum": ["x", "y"],
            "items": {"enum": ["p"], "type": "string"}, "format": "date",
            "x-prompt": "Pick", "x-widget": {"menu": {"type": "radio"}}}"#,
    )
    .unwrap();
    assert_eq!(p.kind, "string");
    assert_eq!(p.description, Some("d".to_string()));
    assert_eq!(p.default, Some(Primitive::Int(5)));
    assert_eq!(p.alias, Some("a".to_string()));
    assert_eq!(p.enum_values, Some(vec!["x".to_string(), "y".to_string()]));
    let items = p.items.clone().unwrap();
    assert_eq!(items.enum_values, vec!["p".to_string()]);
    assert_eq!(items.kind, "string");
    assert_eq!(p.format, Some("date".to_string()));
    assert_eq!(p.x_prompt, Some(StringOrPrompt::Str("Pick".to_string())));
    assert_eq!(
        p.x_widget,
        Some(XWidget {
            options: XWidgetType::Menu(MenuEntry { kind: MenuType::Radio, ..Default::default() })
        })
    );
    assert_eq!(p.duplicate(), p);
    assert_eq!(p.get_label_text(), "Pick");
}

#[test]
fn property_with_a_wrong_shape_is_refused() {
    assert!(prop(r#"{}"#).is_none());
    assert!(prop(r#"{"type": 5}"#).is_none());
    assert!(prop(r#"5"#).is_none());
    assert!(prop(r#"{"type": "string", "description": 5}"#).is_none());
    assert!(prop(r#"{"type": "string", "alias": []}"#).is_none());
    assert!(prop(r#"{"type": "string", "format": {}}"#).is_none());
    assert!(prop(r#"{"type": "string", "enum": "x"}"#).is_none());
    assert!(prop(r#"{"type": "string", "enum": ["x", 1]}"#).is_none());
    assert!(prop(r#"{"type": "string", "items": {"type": "string"}}"#).is_none());
    assert!(prop(r#"{"type": "string", "x-prompt": 5}"#).is_none());
    assert!(prop(r#"{"type": "string", "x-prompt": {"type": "list"}}"#).is_none());
    assert!(prop(r#"{"type": "string", "x-prompt": {"type": "l", "message": "m", "multiselect": "yes"}}"#).is_none());
    assert!(prop(r#"{"type": "string", "x-prompt": {"type": "l", "message": "m", "items": 5}}"#).is_none());
}

#[test]
fn property_takes_null_for_missing() {
    let p = prop(
        r#"{"type": "string", "description": null, "default": null, "enum": null, "items": null,
            "format": null, "x-prompt": null, "x-widget": null}"#,
    )
    .unwrap();
    assert_eq!(p, SchemaProp { kind: "string".to_string(), ..Default::default() });
    assert_eq!(p.get_label_text(), "");
}

#[test]
fn label_prefers_the_prompt() {
    let p = prop(r#"{"type": "string", "description": "d"}"#).unwrap();
    assert_eq!(p.get_label_text(), "d");
    let p = prop(r#"{"type": "string", "description": "d", "x-prompt": {"type": "input", "message": "m"}}"#).unwrap();
    assert_eq!(p.get_label_text(), "m");
}

#[test]
fn primitive_takes_the_first_shape_that_fits() {
    let of = |t: &str| Primitive::from_json(&json(t));
    assert_eq!(of(r#""x""#), Primitive::Str("x".to_string()));
    assert_eq!(of("5"), Primitive::Int(5));
    assert_eq!(of("-5"), Primitive::Int(-5));
    assert_eq!(of("5.5"), Primitive::Float("5.5".to_string()));
    assert_eq!(of("3000000000"), Primitive::Float("3000000000".to_string()));
    assert_eq!(of("true"), Primitive::Bool(true));
    assert_eq!(of(r#"["a", "b"]"#), Primitive::StringVec(vec!["a".to_string(), "b".to_string()]));
    assert_eq!(of("[]"), Primitive::StringVec(vec![]));
    assert_eq!(of("[1, 2, 3]"), Primitive::Time(TimeInput(1, 2, 3)));
    assert_eq!(of("[1, 2]"), Primitive::Unknown);
    assert_eq!(of("[1, 2, 3.5]"), Primitive::Unknown);
    assert_eq!(of("null"), Primitive::Unknown);
    assert_eq!(of("{}"), Primitive::Unknown);
    assert_eq!(Primitive::default(), Primitive::Str(String::new()));
}

#[test]
fn primitive_is_shown_and_converted() {
    assert_eq!(Primitive::Str("s".to_string()).to_string(), "s");
    assert_eq!(Primitive::Bool(true).to_string(), "true");
    assert_eq!(Primitive::Bool(false).to_string(), "false");
    assert_eq!(Primitive::Int(-12).to_string(), "-12");
    assert_eq!(Primitive::Float("2.5".to_string()).to_string(), "2.5");
    assert_eq!(Primitive::StringVec(vec!["a".to_string(), "b".to_string()]).to_string(), "a,b");
    assert_eq!(Primitive::Time(TimeInput(1, 2, 3)).to_string(), "1:2:3");
    assert_eq!(Primitive::Unknown.to_string(), "");
    assert_eq!(Primitive::Str("s".to_string()).into_string(), "s");
    assert_eq!(Primitive::Int(7).into_string(), "7");
    assert_eq!(Primitive::Float("7.5".to_string()).into_string(), "7.5");
    assert_eq!(Primitive::Bool(true).into_string(), "");
    assert!(Primitive::Bool(true).into_bool());
    assert!(!Primitive::Str("true".to_string()).into_bool());
    assert_eq!(Primitive::StringVec(vec!["a".to_string()]).into_strings(), vec!["a".to_string()]);
    assert!(Primitive::Int(1).into_strings().is_empty());
    assert_eq!(Primitive::Str("13:05:59".to_string()).into_time(), TimeInput(13, 5, 59));
    assert_eq!(Primitive::Int(5).into_time(), TimeInput(0, 0, 0));
}

#[test]
fn time_is_read_from_three_parts() {
    assert_eq!(parse_time("1:2:3"), TimeInput(1, 2, 3));
    assert_eq!(parse_time("01:x:-3"), TimeInput(1, 0, -3));
    assert_eq!(parse_time("1:2"), TimeInput(0, 0, 0));
    assert_eq!(parse_time("1:2:3:4"), TimeInput(0, 0, 0));
    assert_eq!(parse_time(""), TimeInput(0, 0, 0));
    assert_eq!(TimeInput::default(), TimeInput(0, 0, 0));
}

#[test]
fn prompt_is_read_in_both_forms() {
    let read = |t: &str| StringOrPrompt::from_json(&json(t));
    assert_eq!(read(r#""m""#), Some(StringOrPrompt::Str("m".to_string())));
    let long = read(r#"{"type": "list", "message": "m", "multiselect": false, "items": ["a", "b"]}"#).unwrap();
    assert_eq!(
        long,
        StringOrPrompt::Prompt(XPrompt {
            kind: "list".to_string(),
            message: "m".to_string(),
            multiselect: Some(false),
            items: Some(VecOrString::StringVec(vec!["a".to_string(), "b".to_string()])),
        })
    );
    assert!(!long.has_multiselect());
    assert!(long.has_items());
    let several = read(r#"{"type": "list", "message": "m", "multiselect": true}"#).unwrap();
    assert!(several.has_multiselect());
    assert!(!several.has_items());
    assert_eq!(long.get_items(), vec!["a".to_string(), "b".to_string()]);
    let labelled = read(r#"{"type": "list", "message": "m", "items": [{"label": "One", "value": 1}, {"label": 2, "value": "two"}]}"#).unwrap();
    assert_eq!(labelled.get_items(), vec!["1".to_string(), "two".to_string()]);
    match &labelled {
        StringOrPrompt::Prompt(p) => assert_eq!(
            p.items,
            Some(VecOrString::ItemVec(vec![
                SchemaItem { label: "One".to_string(), value: Primitive::Int(1) },
                SchemaItem { label: "".to_string(), value: Primitive::Str("two".to_string()) },
            ]))
        ),
        _ => panic!("long form expected"),
    }
    assert!(!labelled.has_multiselect());
    assert!(read(r#"{"type": "list", "message": "m", "items": [{"label": "One"}]}"#).is_none());
    let bare = StringOrPrompt::Str("m".to_string());
    assert!(!bare.has_items());
    assert!(!bare.has_multiselect());
    assert!(bare.get_items().is_empty());
    assert_eq!(bare.get_items_placeholder(), vec!["Select current working directory!".to_string()]);
}

#[test]
fn choices_become_one_text() {
    assert_eq!(VecOrString::Str("a".to_string()).to_string(), "a");
    assert_eq!(VecOrString::StringVec(vec!["a".to_string(), "b".to_string()]).to_string(), "a,b");
    assert_eq!(VecOrString::Str("a".to_string()).to_strings(), vec!["a".to_string()]);
    let items = VecOrString::ItemVec(vec![
        SchemaItem { label: "x".to_string(), value: Primitive::Bool(true) },
        SchemaItem { label: "y".to_string(), value: Primitive::Int(2) },
    ]);
    assert_eq!(items.to_string(), "true,2");
    assert_eq!(items.duplicate(), items);
}

#[test]
fn widget_is_named_by_a_single_member() {
    let read = |t: &str| XWidgetType::from_json(&json(t));
    assert_eq!(read(r#"{"text": {}}"#), Some(XWidgetType::Text(TextEntry::default())));
    assert_eq!(read(r#"{"numeric": {}}"#), Some(XWidgetType::Numeric(NumericEntry::default())));
    assert_eq!(read(r#"{"date": {}}"#), Some(XWidgetType::Date(DateEntry::default())));
    assert_eq!(read(r#"{"color": {}}"#), Some(XWidgetType::Color(ColorEntry::default())));
    assert_eq!(read(r#"{"file": {}}"#), Some(XWidgetType::File(FsEntry::default())));
    assert_eq!(read(r#"{"dir": {}}"#), Some(XWidgetType::Dir(FsEntry::default())));
    assert_eq!(read(r#"{"choice": {}}"#), Some(XWidgetType::Choice(ChoiceEntry::default())));
    assert_eq!(read(r#"{"menu": {}}"#), Some(XWidgetType::Menu(MenuEntry::default())));
    assert_eq!(read(r#"{"knob": {}}"#), None);
    assert_eq!(read(r#"{"text": {}, "menu": {}}"#), None);
    assert_eq!(read(r#"{}"#), None);
    assert_eq!(read(r#"{"text": 5}"#), None);
    assert_eq!(read(r#""text""#), None);
    assert_eq!(XWidget::from_json(&json(r#"{"knob": {}}"#)).options, XWidgetType::default());
    assert_eq!(XWidgetType::default(), XWidgetType::Text(TextEntry::default()));
}

#[test]
fn defaults_of_the_configurations() {
    let t = TextEntry::default();
    assert_eq!((t.max_len, t.height, t.multiline, t.overwrite), (0, 50, false, false));
    assert_eq!(t.icon_position, IconPositionType::Unset);
    assert_eq!(t.direction, TextAlignmentType::Left);
    assert_eq!(t.purpose, PurposeType::FreeForm);
    assert_eq!(t.hint, HintType::Unset);
    assert_eq!(t.justify, JustificationType::Unset);
    let f = FsEntry::default();
    assert_eq!(f.mask, "*");
    assert_eq!((f.is_new, f.multiple, f.is_dir), (false, false, false));
    assert_eq!((f.relative, f.current_folder, f.default_name, f.title), (None, None, None, None));
    let c = ColorEntry::default();
    assert_eq!((c.kind, c.format, c.alpha), (ColorEntryType::Button, ColorEntryFormat::RGB, false));
    assert_eq!(c.title, "Choose a color");
    assert_eq!(DateEntry::default(), DateEntry { format: String::new(), kind: DateEntryType::Date });
    assert_eq!(ChoiceEntry::default(), ChoiceEntry { kind: ChoiceType::Checkbox, label: String::new() });
    let m = MenuEntry::default();
    assert_eq!((m.kind, m.searchable, m.multichoice, m.orientation), (MenuType::DropDown, false, false, OrientationType::Vertical));
    let n = NumericEntry::default();
    assert_eq!((n.kind, n.value_type), (NumericType::Input, NumericValueType::Float));
    assert_eq!(n.stepping, IntOrFloat::Float("1".to_string()));
    assert_eq!(n.min, IntOrFloat::Float("0".to_string()));
    assert_eq!(n.max.to_string().parse::<f64>().unwrap(), f64::MAX);
    assert_eq!(n.initial_value, IntOrFloat::Float("0".to_string()));
    assert_eq!(n.page_increment, IntOrFloat::Float("5".to_string()));
    assert_eq!(n.page_size, IntOrFloat::Float("1".to_string()));
    assert_eq!(n.precision, IntOrFloat::Int(2));
    assert_eq!((n.slider_height, n.wrap, n.show_current), (100, false, CurrentValuePosType::Top));
    assert_eq!(n.orientation, OrientationType::Horizontal);
    assert!(n.marks.is_empty());
    assert_eq!(IntOrFloat::default(), IntOrFloat::Float("0".to_string()));
    assert_eq!(n.duplicate(), n);
}

#[test]
fn defaults_of_the_names() {
    assert_eq!(DateEntryType::default(), DateEntryType::Date);
    assert_eq!(ColorEntryFormat::default(), ColorEntryFormat::RGB);
    assert_eq!(ColorEntryType::default(), ColorEntryType::Input);
    assert_eq!(ChoiceType::default(), ChoiceType::Checkbox);
    assert_eq!(MenuType::default(), MenuType::DropDown);
    assert_eq!(OrientationType::default(), OrientationType::Vertical);
    assert_eq!(IconPositionType::default(), IconPositionType::Unset);
    assert_eq!(TextAlignmentType::default(), TextAlignmentType::Left);
    assert_eq!(PurposeType::default(), PurposeType::FreeForm);
    assert_eq!(HintType::default(), HintType::Unset);
    assert_eq!(JustificationType::default(), JustificationType::Fill);
    assert_eq!(CurrentValuePosType::default(), CurrentValuePosType::Top);
    assert_eq!(NumericType::default(), NumericType::Input);
    assert_eq!(NumericValueType::default(), NumericValueType::Float);
}

#[test]
fn names_are_read_as_the_schema_writes_them() {
    assert_eq!(DateEntryType::from_name("date_time"), Some(DateEntryType::DateTime));
    assert_eq!(DateEntryType::from_name("DateTime"), None);
    assert_eq!(ColorEntryFormat::from_name("hex"), Some(ColorEntryFormat::Hex));
    assert_eq!(ColorEntryFormat::from_name("hsl"), Some(ColorEntryFormat::HSL));
    assert_eq!(MenuType::from_name("multiselect"), Some(MenuType::Multiselect));
    assert_eq!(MenuType::from_name("toggle"), Some(MenuType::Toggle));
    assert_eq!(PurposeType::from_name("free_form"), Some(PurposeType::FreeForm));
    assert_eq!(PurposeType::from_name("terminal"), Some(PurposeType::Terminal));
    assert_eq!(HintType::from_name("uppercase_sentences"), Some(HintType::UppercaseSentences));
    assert_eq!(HintType::from_name("inhibit_osk"), Some(HintType::InhibitOsk));
    assert_eq!(HintType::from_name("none"), Some(HintType::Unset));
    assert_eq!(JustificationType::from_name("center"), Some(JustificationType::Center));
    assert_eq!(CurrentValuePosType::from_name("bottom"), Some(CurrentValuePosType::Bottom));
    assert_eq!(IconPositionType::from_name("end"), Some(IconPositionType::End));
    assert_eq!(NumericValueType::from_name("int"), Some(NumericValueType::Int));
    assert_eq!(NumericType::from_name("slider"), Some(NumericType::Slider));
    assert_eq!(ChoiceType::from_name("switch"), Some(ChoiceType::Switch));
    assert_eq!(ColorEntryType::from_name("button"), Some(ColorEntryType::Button));
    assert_eq!(OrientationType::from_name("horizontal"), Some(OrientationType::Horizontal));
    assert_eq!(TextAlignmentType::from_name("right"), Some(TextAlignmentType::Right));
    assert_eq!(TextAlignmentType::from_name(""), None);
}

#[test]
fn configuration_is_read_leniently() {
    let t = TextEntry::from_json(&json(
        r#"{"max_len": 10, "height": "tall", "placeholder": "p", "icon": 5, "icon_position": "start",
            "tooltip": "t", "multiline": true, "direction": "right", "overwrite": 1,
            "purpose": "email", "hint": "private", "justify": "sideways", "extra": 1}"#,
    ))
    .unwrap();
    assert_eq!(
        t,
        TextEntry {
            max_len: 10,
            height: 0,
            placeholder: "p".to_string(),
            icon: String::new(),
            icon_position: IconPositionType::Start,
            tooltip: "t".to_string(),
            hint_text: String::new(),
            multiline: true,
            direction: TextAlignmentType::Right,
            overwrite: false,
            purpose: PurposeType::Email,
            hint: HintType::Private,
            justify: JustificationType::Fill,
        }
    );
    assert_eq!(t.duplicate(), t);
    assert!(TextEntry::from_json(&json("[]")).is_none());
    let f = FsEntry::from_json(&json(
        r#"{"mask": 5, "relative": "r", "is_new": true, "current_folder": 1, "multiple": "x",
            "default_name": "n", "is_dir": true, "title": "T"}"#,
    ))
    .unwrap();
    assert_eq!(
        f,
        FsEntry {
            mask: "*".to_string(),
            relative: Some("r".to_string()),
            is_new: true,
            current_folder: None,
            multiple: false,
            default_name: Some("n".to_string()),
            is_dir: true,
            title: Some("T".to_string()),
        }
    );
    assert_eq!(FsEntry::from_json(&json(r#"{"mask": "*.toml"}"#)).unwrap().mask, "*.toml");
    let c = ColorEntry::from_json(&json(r#"{"type": "input", "format": "hex", "alpha": true, "title": 3}"#)).unwrap();
    assert_eq!(c, ColorEntry { kind: ColorEntryType::Input, format: ColorEntryFormat::Hex, alpha: true, title: String::new() });
    let c = ColorEntry::from_json(&json(r#"{"type": "x"}"#)).unwrap();
    assert_eq!(c.kind, ColorEntryType::Input);
    let d = DateEntry::from_json(&json(r#"{"format": "%Y", "type": "time"}"#)).unwrap();
    assert_eq!(d, DateEntry { format: "%Y".to_string(), kind: DateEntryType::Time });
    let ch = ChoiceEntry::from_json(&json(r#"{"type": "toggle", "label": "L"}"#)).unwrap();
    assert_eq!(ch, ChoiceEntry { kind: ChoiceType::Toggle, label: "L".to_string() });
    let m = MenuEntry::from_json(&json(r#"{"type": "combobox", "searchable": true, "multichoice": true, "orientation": "horizontal"}"#)).unwrap();
    assert_eq!(m, MenuEntry { kind: MenuType::Combobox, searchable: true, multichoice: true, orientation: OrientationType::Horizontal });
    assert!(MenuEntry::from_json(&json("1")).is_none());
}

#[test]
fn numbers_of_a_configuration() {
    let n = NumericEntry::from_json(&json(
        r#"{"type": "slider", "value_type": "int", "stepping": 2, "max": 10.5, "min": -1,
            "initial_value": "three", "page_increment": 3000000000, "orientation": "vertical",
            "precision": 3, "wrap": true, "show_current": "none", "slider_height": 40,
            "marks": [{"value": 1, "text": "low"}, {"value": 2.5, "text": null}, {"value": "x"}]}"#,
    ))
    .unwrap();
    assert_eq!(n.kind, NumericType::Slider);
    assert_eq!(n.value_type, NumericValueType::Int);
    assert_eq!(n.stepping, IntOrFloat::Int(2));
    assert_eq!(n.max, IntOrFloat::Float("10.5".to_string()));
    assert_eq!(n.min, IntOrFloat::Int(-1));
    assert_eq!(n.initial_value, IntOrFloat::Float("0".to_string()));
    assert_eq!(n.page_increment, IntOrFloat::Float("3000000000".to_string()));
    assert_eq!(n.page_size, IntOrFloat::Float("1".to_string()));
    assert_eq!(n.orientation, OrientationType::Vertical);
    assert_eq!(n.precision, IntOrFloat::Int(3));
    assert!(n.wrap);
    assert_eq!(n.show_current, CurrentValuePosType::Unset);
    assert_eq!(n.slider_height, 40);
    assert_eq!(
        n.marks,
        vec![
            MarkData { value: "1".to_string(), text: Some("low".to_string()) },
            MarkData { value: "2.5".to_string(), text: None },
            MarkData { value: "0".to_string(), text: None },
        ]
    );
    let bad = NumericEntry::from_json(&json(r#"{"marks": [{"value": 1}, {"text": "no value"}]}"#)).unwrap();
    assert!(bad.marks.is_empty());
    let none = NumericEntry::from_json(&json(r#"{"marks": "many"}"#)).unwrap();
    assert!(none.marks.is_empty());
    assert_eq!(IntOrFloat::from_number("12"), IntOrFloat::Int(12));
    assert_eq!(IntOrFloat::from_number("12.0"), IntOrFloat::Float("12.0".to_string()));
    assert_eq!(IntOrFloat::Int(-4).to_string(), "-4");
    assert_eq!(IntOrFloat::Float("1.25".to_string()).to_string(), "1.25");
}
