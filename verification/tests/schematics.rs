use schematics_gui_reml::json::JsonValue;
use schematics_gui_reml::schematics::{Collection, SchematicData};
use schematics_gui_reml::settings_utils::SettingsData;

fn get_collection() -> Collection {
    let settings = SettingsData::default();
    let mut collection = Collection::new(settings);
    collection.data = Collection::read("{\"$schema\": \"location\", \"schematics\": {\"sc1\": {\"description\": \"sc1 desc\"}, \"sc2\": {}, \"sc3\": {\"private\": true}, \"sc4\": {\"hidden\": true}}}").unwrap();
    collection
}

fn has(list: &Vec<(&String, &JsonValue)>, name: &str) -> bool {
    list.iter().any(|(k, _)| k.as_str() == name)
}

#[test]
fn schema_location_success() {
    let collection = get_collection();
    let loc = collection.schema_location();

    assert_eq!(loc, "location")
}

#[test]
fn schema_location_fail_no_schema() {
    let mut collection = get_collection();

    collection.data = Collection::read("{}").unwrap();
    let loc = collection.schema_location();

    assert_eq!(loc, "")
}

#[test]
fn has_schematic_should_return_true() {
    let collection = get_collection();
    let result = collection.has_schematic("sc1");

    assert!(result)
}

#[test]
fn has_schematic_should_return_false() {
    let collection = get_collection();
    let result = collection.has_schematic("none");

    assert!(!result)
}

#[test]
fn list_schematic_names_success() {
    let collection = get_collection();
    let result = collection.list_schematic_names();

    assert_eq!(result, vec!["sc1", "sc2"])
}

#[test]
fn list_success() {
    let collection = get_collection();
    let result = collection.list();

    assert_eq!(result.len(), 2);
    assert!(has(&result, "sc1"));
    assert!(has(&result, "sc2"));
}

#[test]
fn list_private_hidden_not_shown() {
    let collection = get_collection();
    let result = collection.list();

    assert_eq!(result.len(), 2);
    assert!(!has(&result, "sc3"));
    assert!(!has(&result, "sc4"));
}

#[test]
fn list_private_hidden_shown() {
    let mut collection = get_collection();
    collection.settings.show_private = true;
    collection.settings.show_hidden = true;
    let result = collection.list();

    assert_eq!(result.len(), 4);
    assert!(has(&result, "sc1"));
    assert!(has(&result, "sc2"));
    assert!(has(&result, "sc3"));
    assert!(has(&result, "sc4"));
}

#[test]
fn get_schematic_success() {
    let collection = get_collection();
    let result = collection.get_schematic("sc1");

    assert_eq!(
        result,
        SchematicData {
            description: String::from("sc1 desc"),
            ..Default::default()
        }
    );
}

#[test]
fn get_schematic_not_found_returns_default() {
    let collection = get_collection();
    let result = collection.get_schematic("none");

    assert_eq!(result, SchematicData::default());
}

#[test]
fn get_schematic_reads_every_member() {
    let mut collection = Collection::new(SettingsData {
        show_private: true,
        show_hidden: true,
        ..Default::default()
    });
    collection.init(
        Collection::read(
            "{\"schematics\": {\"a\": {\"schema\": \"./a/schema.json\", \"description\": \"d\", \"private\": true, \"hidden\": true}}}",
        )
        .unwrap(),
    );
    assert_eq!(
        collection.get_schematic("a"),
        SchematicData {
            schema: "./a/schema.json".to_string(),
            description: "d".to_string(),
            private: true,
            hidden: true,
        }
    );
}

#[test]
fn hidden_schematic_is_not_found_unless_shown() {
    let collection = get_collection();
    assert_eq!(collection.get_schematic("sc4"), SchematicData::default());
    assert!(!collection.has_schematic("sc3"));
}

#[test]
fn collection_keeps_the_order_of_the_file() {
    let mut collection = Collection::new(SettingsData::default());
    collection.init(Collection::read("{\"schematics\": {\"zeta\": {}, \"alpha\": {}, \"mid\": {}}}").unwrap());
    assert_eq!(collection.list_schematic_names(), vec!["zeta", "alpha", "mid"]);
}

#[test]
fn collection_text_that_is_no_json_is_refused() {
    assert!(Collection::read("{ not json").is_none());
    assert!(Collection::read("").is_none());
}

#[test]
fn collection_without_schematics_lists_nothing() {
    let mut collection = Collection::new(SettingsData::default());
    assert!(collection.list_schematic_names().is_empty());
    collection.init(Collection::read("{\"schematics\": 3}").unwrap());
    assert!(collection.list_schematic_names().is_empty());
}
