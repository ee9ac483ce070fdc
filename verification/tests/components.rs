use schematics_gui_reml::command_builder::{InputType, Param};
use schematics_gui_reml::config_editor_dialog::{
    ConfigEditorAction, ConfigEditorDialogInput, ConfigEditorDialogModel,
};
use schematics_gui_reml::json::parse_json;
use schematics_gui_reml::package_info::{
    PackageInfoInput, PackageInfoModel, PackageInfoOutput, PartialPackageJsonData,
};
use schematics_gui_reml::profile_browser::{
    find_profile, read_profile, read_profiles, source_is_profile, stem_of, ProfileBrowserInput,
    ProfileBrowserInputParams, ProfileBrowserModel, ProfileError, ProfileSource,
};
use schematics_gui_reml::profile_data_list_item::ProfileDataMenuItem;
use schematics_gui_reml::save_dialog::{
    extension_of, last_part, ProfileData, SaveDialogAction, SaveDialogInput,
    SaveDialogInputParams, SaveDialogModel,
};
use schematics_gui_reml::schema::ParseError;
use schematics_gui_reml::schema_view::{SchemaViewInput, SchemaViewModel};
use schematics_gui_reml::schematic_executor::{
    ExecutorAction, SchematicExecutorInput, SchematicExecutorInputParams, SchematicExecutorModel,
};
use schematics_gui_reml::schematic_selector::{
    SchematicSelectorInput, SchematicSelectorModel, SchematicSelectorOutput,
};
use schematics_gui_reml::schematic_ui::{
    LoadedProfile, SchematicUiInput, SchematicUiInputParams, SchematicUiModel, SchematicUiOutput,
    UiAction, UiError,
};
use schematics_gui_reml::schematics_details::{
    DetailsAction, SchematicsDetailsInput, SchematicsDetailsModel,
};
use schematics_gui_reml::settings::{SettingsFacts, SettingsInput, SettingsModel, SettingsOutput};
use schematics_gui_reml::settings_utils::{
    FieldFault, PathFacts, Runner, SettingsData, SettingsUtils,
};
use schematics_gui_reml::toml_value::{parse_toml, TomlValue};
use schematics_gui_reml::traits::{Banner, Validator};
use schematics_gui_reml::value_loader::LoadError;
use schematics_gui_reml::widget::{Control, Widget};

const FILE: PathFacts = PathFacts { exists: true, is_file: true, is_dir: false, is_executable: false };
const PROGRAM: PathFacts = PathFacts { exists: true, is_file: true, is_dir: false, is_executable: true };
const DIR: PathFacts = PathFacts { exists: true, is_file: false, is_dir: true, is_executable: true };
const NOTHING: PathFacts = PathFacts { exists: false, is_file: false, is_dir: false, is_executable: false };

fn settings() -> SettingsData {
    SettingsData {
        runner: Runner::Google,
        node_binary: "/usr/bin/node".to_string(),
        runner_location: "/opt/bin/schematics".to_string(),
        schematics_collection: "/pkg/collection.json".to_string(),
        schematics_package: "/pkg/package.json".to_string(),
        show_private: false,
        show_hidden: false,
    }
}

fn source(file: &str, text: &str) -> ProfileSource {
    ProfileSource { file: file.to_string(), is_file: true, text: text.to_string() }
}

fn no_profile() -> LoadedProfile {
    LoadedProfile { file: None, description: None, data: Vec::new() }
}

#[test]
fn banner_tells_of_errors_and_successes() {
    let mut banner = Banner::new();
    assert_eq!(banner, Banner { error: false, success: false, message: String::new() });
    banner.print_error("bad");
    assert_eq!(banner, Banner { error: true, success: false, message: "Error: bad".to_string() });
    banner.print_success("good");
    assert_eq!(banner, Banner { error: true, success: true, message: "good".to_string() });
    banner.clear_error();
    assert_eq!(banner, Banner { error: false, success: true, message: "good".to_string() });
    banner.clear_success();
    assert_eq!(banner, Banner { error: false, success: false, message: "good".to_string() });
}

#[test]
fn runner_is_told_by_its_path() {
    assert_eq!(Runner::of_location("/usr/bin/schematics"), Runner::Google);
    assert_eq!(Runner::of_location("/usr/bin/fnd"), Runner::MBH);
    assert_eq!(Runner::of_location("/usr/bin/other"), Runner::Custom);
    assert_eq!(Runner::of_location("schematics"), Runner::Custom);
    assert_eq!(Runner::of_location(""), Runner::Custom);
    assert!(Runner::Google.has_dry_run());
    assert!(Runner::MBH.has_dry_run());
    assert!(!Runner::Custom.has_dry_run());
    let default = SettingsData::default();
    assert_eq!(default.runner, Runner::Google);
    assert!(default.node_binary.is_empty() && default.runner_location.is_empty());
    assert!(!default.show_private && !default.show_hidden);
    assert_eq!(settings().duplicate(), settings());
}

#[test]
fn paths_of_the_settings_are_checked() {
    assert_eq!(SettingsUtils::check_field("", PROGRAM, true), Some(FieldFault::Missing));
    assert_eq!(SettingsUtils::check_field("/x", NOTHING, true), Some(FieldFault::NotAFile));
    assert_eq!(SettingsUtils::check_field("/x", DIR, false), Some(FieldFault::NotAFile));
    assert_eq!(SettingsUtils::check_field("/x", FILE, true), Some(FieldFault::NotExecutable));
    assert_eq!(SettingsUtils::check_field("/x", FILE, false), None);
    assert_eq!(SettingsUtils::check_field("/x", PROGRAM, true), None);
    assert_eq!(SettingsUtils::fault_message("node executable", FieldFault::Missing), "The 'node executable' field is mandatory!");
    assert_eq!(SettingsUtils::fault_message("x", FieldFault::NotAFile), "The 'x' doesn't exist or it's not a file!");
    assert_eq!(SettingsUtils::fault_message("x", FieldFault::NotExecutable), "The 'x' is not executable file!");
}

#[test]
fn settings_dialog_stores_what_will_do() {
    let good = SettingsFacts { node: PROGRAM, runner: PROGRAM, collection: FILE, package: FILE };
    let mut dialog = SettingsModel::new(true);
    assert!(dialog.update(SettingsInput::Show, None, good).is_none());
    assert!(!dialog.hidden);
    assert!(dialog.update(SettingsInput::Apply, None, good).is_none());
    assert_eq!(dialog.banner.message, "Error: The 'node executable' field is mandatory!");
    assert!(dialog.banner.error && !dialog.hidden);
    dialog.update(SettingsInput::NodeSelect("/usr/bin/node".to_string()), None, good);
    dialog.update(SettingsInput::RunnerSelect("/opt/bin/fnd".to_string()), None, good);
    dialog.update(SettingsInput::CollectionSelect("/pkg/collection.json".to_string()), None, good);
    let bad = SettingsFacts { package: NOTHING, ..good };
    assert!(dialog.update(SettingsInput::Apply, None, bad).is_none());
    assert_eq!(dialog.banner.message, "Error: The 'schematics package' field is mandatory!");
    dialog.update(SettingsInput::PackageSelect("/pkg/package.json".to_string()), None, good);
    assert!(dialog.update(SettingsInput::Apply, None, bad).is_none());
    assert_eq!(dialog.banner.message, "Error: The 'schematics package' doesn't exist or it's not a file!");
    let plain_runner = SettingsFacts { runner: FILE, ..good };
    assert!(dialog.update(SettingsInput::Apply, None, plain_runner).is_none());
    assert_eq!(dialog.banner.message, "Error: The 'schematics runner' is not executable file!");
    dialog.update(SettingsInput::ToggleCheckbox(true, "show_hidden".to_string()), None, good);
    dialog.update(SettingsInput::ToggleCheckbox(true, "no_such_box".to_string()), None, good);
    match dialog.update(SettingsInput::Apply, None, good) {
        Some(SettingsOutput::SettingsLoaded(data)) => assert_eq!(
            data,
            SettingsData {
                runner: Runner::MBH,
                runner_location: "/opt/bin/fnd".to_string(),
                show_hidden: true,
                ..settings()
            }
        ),
        other => panic!("{:?}", other),
    }
    assert!(dialog.hidden && !dialog.banner.error);
}

#[test]
fn settings_dialog_shows_what_is_stored() {
    let facts = SettingsFacts { node: NOTHING, runner: NOTHING, collection: NOTHING, package: NOTHING };
    let mut dialog = SettingsModel::new(true);
    let stored = SettingsData { show_private: true, runner: Runner::Custom, ..settings() };
    dialog.update(SettingsInput::Show, Some(stored.clone()), facts);
    assert_eq!((dialog.node.as_str(), dialog.package.as_str()), ("/usr/bin/node", "/pkg/package.json"));
    assert_eq!((dialog.collection.as_str(), dialog.schematic_runner.as_str()), ("/pkg/collection.json", "/opt/bin/schematics"));
    assert!(dialog.show_private && !dialog.hidden);
    assert_eq!(dialog.runner, Runner::Custom);
    dialog.update(SettingsInput::ToggleCheckbox(false, "show_private".to_string()), None, facts);
    assert!(!dialog.show_private);
    dialog.update(SettingsInput::Cancel, None, facts);
    assert!(!dialog.hidden);
    dialog.update(SettingsInput::Cancel, Some(stored), facts);
    assert!(dialog.hidden);
}

#[test]
fn file_names_have_extensions_and_stems() {
    assert_eq!(extension_of("a.toml"), Some("toml".to_string()));
    assert_eq!(extension_of("/x.d/a.b.toml"), Some("toml".to_string()));
    assert_eq!(extension_of("/x.d/a"), None);
    assert_eq!(extension_of(".toml"), None);
    assert_eq!(extension_of(".a.toml"), Some("toml".to_string()));
    assert_eq!(extension_of("a."), Some(String::new()));
    assert_eq!(extension_of(""), None);
    assert_eq!(last_part("/a/b/c.toml", '/'), "c.toml");
    assert_eq!(last_part("c.toml", '/'), "c.toml");
    assert_eq!(last_part("/a/", '/'), "");
    assert_eq!(stem_of("/a/b/c.toml"), "c");
    assert_eq!(stem_of("a.b.toml"), "a.b");
    assert_eq!(stem_of(".hidden"), ".hidden");
    assert_eq!(stem_of("plain"), "plain");
}

#[test]
fn save_dialog_checks_the_name_and_lays_the_profile_out() {
    let mut dialog = SaveDialogModel::new();
    let shown = dialog.update(SaveDialogInput::Show(SaveDialogInputParams {
        form_data: "name='x'\nverbose='true'".to_string(),
        schematic: "component".to_string(),
        package_name: "pkg".to_string(),
        file: None,
        description: None,
        auto_save: false,
    }));
    assert_eq!(shown, None);
    assert!(!dialog.hidden);
    assert_eq!(dialog.update(SaveDialogInput::Apply), None);
    assert_eq!(dialog.banner.message, "Error: The 'file' field is mandatory!");
    dialog.file_name = "first.txt".to_string();
    assert_eq!(dialog.update(SaveDialogInput::Apply), None);
    assert_eq!(dialog.banner.message, "Error: The 'first.txt' is not a TOML file!");
    assert!(dialog.banner.error && !dialog.hidden);
    dialog.file_name = "first.toml".to_string();
    dialog.description = "My first".to_string();
    match dialog.update(SaveDialogInput::Apply) {
        Some(SaveDialogAction::Write { package_name, schematic, file, text }) => {
            assert_eq!((package_name.as_str(), schematic.as_str(), file.as_str()), ("pkg", "component", "first.toml"));
            assert_eq!(text, "[data]\nname = \"x\"\nverbose = \"true\"\n\n[meta]\ndescription = \"My first\"\n");
        }
        other => panic!("{:?}", other),
    }
    assert!(dialog.hidden && !dialog.banner.error);
    assert_eq!((dialog.file_name.as_str(), dialog.description.as_str()), ("", ""));
}

#[test]
fn save_dialog_saves_a_loaded_profile_at_once() {
    let mut dialog = SaveDialogModel::new();
    let shown = dialog.update(SaveDialogInput::Show(SaveDialogInputParams {
        form_data: "a='1'".to_string(),
        schematic: "s".to_string(),
        package_name: "p".to_string(),
        file: Some("old.toml".to_string()),
        description: Some("d".to_string()),
        auto_save: true,
    }));
    assert_eq!(shown, Some(SaveDialogAction::Apply));
    assert!(dialog.hidden);
    assert_eq!(dialog.document(), Some("[data]\na = \"1\"\n\n[meta]\ndescription = \"d\"\n".to_string()));
    assert!(matches!(dialog.update(SaveDialogInput::Apply), Some(SaveDialogAction::Write { .. })));
    dialog.data = "this is not = = toml".to_string();
    dialog.file_name = "x.toml".to_string();
    assert_eq!(dialog.update(SaveDialogInput::Apply), Some(SaveDialogAction::Unwritable));
    dialog.file_name = "x".to_string();
    dialog.update(SaveDialogInput::Apply);
    assert!(dialog.banner.error);
    assert_eq!(dialog.update(SaveDialogInput::Cancel), None);
    assert!(dialog.hidden && !dialog.banner.error && dialog.file_name.is_empty());
}

#[test]
fn toml_is_read_into_tables() {
    let doc = parse_toml("top = 1\n[meta]\ndescription = 'd'\n[data]\nb = 'x'\na = true\nf = 1.5\nl = ['p', 2]\nwhen = 1979-05-27T07:32:00Z\n").unwrap();
    assert_eq!(doc.get("top"), Some(&TomlValue::Integer(1)));
    assert_eq!(doc.get("meta").unwrap().get("description"), Some(&TomlValue::Text("d".to_string())));
    assert_eq!(
        doc.get("data"),
        Some(&TomlValue::Table(vec![
            ("a".to_string(), TomlValue::Boolean(true)),
            ("b".to_string(), TomlValue::Text("x".to_string())),
            ("f".to_string(), TomlValue::Float("1.5".to_string())),
            ("l".to_string(), TomlValue::Array(vec![TomlValue::Text("p".to_string()), TomlValue::Integer(2)])),
            ("when".to_string(), TomlValue::Datetime("1979-05-27T07:32:00Z".to_string())),
        ]))
    );
    assert!(doc.get("none").is_none());
    assert!(doc.get("top").unwrap().get("x").is_none());
    assert!(parse_toml("a = ").is_none());
    assert_eq!(parse_toml(""), Some(TomlValue::Table(Vec::new())));
}

#[test]
fn profiles_are_read_and_labelled() {
    let text = "[meta]\ndescription = 'Nightly'\n[data]\nname = 'x'\ncount = 3\nverbose = 'true'\n";
    let profile = read_profile(&source("/cfg/pkg/comp/nightly.toml", text)).unwrap();
    assert_eq!(
        profile,
        ProfileData::new(
            "nightly (Nightly)".to_string(),
            "nightly.toml".to_string(),
            vec![("name".to_string(), "x".to_string()), ("verbose".to_string(), "true".to_string())],
        )
    );
    let plain = read_profile(&source("plain.toml", "[meta]\n[data]\n")).unwrap();
    assert_eq!(plain, ProfileData::new("plain".to_string(), "plain.toml".to_string(), Vec::new()));
    assert_eq!(read_profile(&source("x.toml", "= nope")), Err(ProfileError::NotToml));
    assert_eq!(read_profile(&source("x.toml", "[data]\n")), Err(ProfileError::Incomplete));
    assert_eq!(read_profile(&source("x.toml", "[meta]\n")), Err(ProfileError::Incomplete));
    assert_eq!(read_profile(&source("x.toml", "data = 1\n[meta]\n")), Err(ProfileError::Incomplete));
    assert!(source_is_profile(&source("a.toml", "")));
    assert!(!source_is_profile(&source("a.json", "")));
    assert!(!source_is_profile(&ProfileSource { is_file: false, ..source("a.toml", "") }));
    let item = ProfileDataMenuItem::new("f.toml".to_string(), "f".to_string());
    assert_eq!(item.duplicate(), item);
}

#[test]
fn browser_lists_profiles_by_title_and_loads_one() {
    let sources = vec![
        source("zeta.toml", "[meta]\n[data]\na = '1'\n"),
        source("notes.txt", "not a profile and not toml = ="),
        source("alpha.toml", "[meta]\ndescription = 'first'\n[data]\na = '2'\n"),
        ProfileSource { is_file: false, ..source("dir.toml", "") },
    ];
    let read = read_profiles(&sources).unwrap();
    assert_eq!(read.iter().map(|p| p.file.as_str()).collect::<Vec<&str>>(), vec!["zeta.toml", "alpha.toml"]);
    let mut browser = ProfileBrowserModel::new();
    let shown = browser.update(
        ProfileBrowserInput::Show(ProfileBrowserInputParams::new("comp".to_string(), "pkg".to_string(), false, None)),
        &sources,
    );
    assert_eq!(shown, Ok(None));
    assert!(!browser.hidden);
    assert_eq!((browser.schematic.as_str(), browser.package_name.as_str()), ("comp", "pkg"));
    assert_eq!(browser.profiles.iter().map(|p| p.title.as_str()).collect::<Vec<&str>>(), vec!["alpha (first)", "zeta"]);
    let menu = browser.menu_items();
    assert_eq!(menu[0], ProfileDataMenuItem::new("alpha.toml".to_string(), "alpha (first)".to_string()));
    browser.search = "al".to_string();
    assert!(browser.passes_filter(&menu[0]));
    assert!(!browser.passes_filter(&menu[1]));
    assert_eq!(browser.update(ProfileBrowserInput::FilterChange, &sources), Ok(None));
    assert_eq!(browser.update(ProfileBrowserInput::Selected(1), &sources), Ok(Some((1, "zeta.toml".to_string()))));
    assert_eq!(browser.file, Some("zeta.toml".to_string()));
    assert_eq!(browser.update(ProfileBrowserInput::Selected(9), &sources), Ok(None));
    assert_eq!(
        browser.update(ProfileBrowserInput::Select("/cfg/pkg/comp/alpha.toml".to_string()), &sources),
        Ok(Some((0, "alpha.toml".to_string())))
    );
    assert_eq!(browser.file, Some("alpha.toml".to_string()));
    assert_eq!(browser.update(ProfileBrowserInput::Select("gone.toml".to_string()), &sources), Ok(None));
    assert_eq!(find_profile(&browser.profiles, "zeta.toml"), Some(1));
    assert_eq!(browser.update(ProfileBrowserInput::Hide, &sources), Ok(None));
    assert!(browser.hidden);
    assert_eq!(browser.profiles.len(), 2);
    assert_eq!(browser.update(ProfileBrowserInput::Clear, &sources), Ok(None));
    assert!(browser.profiles.is_empty() && browser.file.is_none() && browser.schematic.is_empty());
}

#[test]
fn browser_chooses_nothing_only_where_no_profile_lies_in_the_file() {
    let sources = vec![source("b.toml", "[meta]\n[data]\n"), source("a.toml", "[meta]\n[data]\n")];
    let show = |clear: bool, file: Option<&str>| {
        ProfileBrowserInput::Show(ProfileBrowserInputParams::new(
            "comp".to_string(),
            "pkg".to_string(),
            clear,
            file.map(|f| f.to_string()),
        ))
    };
    let mut browser = ProfileBrowserModel::new();
    browser.file = Some("kept.toml".to_string());
    browser.search = "x".to_string();
    assert_eq!(browser.update(show(false, Some("/cfg/gone.toml")), &sources), Ok(None));
    assert_eq!(browser.file, Some("kept.toml".to_string()));
    assert_eq!(browser.search, "x");
    assert_eq!(browser.update(show(false, None), &sources), Ok(None));
    assert_eq!(browser.file, Some("kept.toml".to_string()));
    assert_eq!(browser.profiles.len(), 2);
    assert_eq!(browser.update(show(false, Some("/cfg/a.toml")), &sources), Ok(Some((0, "a.toml".to_string()))));
    assert_eq!(browser.file, Some("a.toml".to_string()));
    assert_eq!(browser.profiles.len(), 2);
    assert_eq!(browser.update(show(true, Some("gone.toml")), &sources), Ok(None));
    assert_eq!(browser.file, None);
    assert_eq!(browser.search, "");
    assert!(!browser.hidden);
    let broken = vec![source("bad.toml", "= =")];
    browser.file = Some("kept.toml".to_string());
    assert_eq!(browser.update(show(false, Some("a.toml")), &broken), Err(ProfileError::NotToml));
    assert!(browser.profiles.is_empty());
    assert_eq!(browser.file, Some("kept.toml".to_string()));
    let mut lazy = ProfileBrowserModel::new();
    assert_eq!(lazy.update(ProfileBrowserInput::Select("a.toml".to_string()), &broken), Err(ProfileError::NotToml));
    assert!(lazy.profiles.is_empty() && lazy.file.is_none());
}

#[test]
fn executor_changes_nothing_but_the_banner_where_it_cannot_run() {
    let mut executor = SchematicExecutorModel::new();
    executor.update(
        SchematicExecutorInput::Show(SchematicExecutorInputParams {
            params: vec![Param::new("name".to_string(), "x".to_string(), InputType::Text)],
            schematic: "comp".to_string(),
            settings: settings(),
        }),
        NOTHING,
    );
    executor.update(SchematicExecutorInput::AllowGoogleOptions(true), NOTHING);
    executor.update(SchematicExecutorInput::SetOutput("line".to_string()), NOTHING);
    let builder = executor.builder.clone();
    let command = executor.command.clone();
    assert_eq!(executor.update(SchematicExecutorInput::Execute, NOTHING), None);
    assert!(executor.banner.error);
    assert_eq!(executor.banner.message, "Error: The cwd field is mandatory!");
    assert_eq!(executor.builder, builder);
    assert_eq!(executor.command, command);
    assert_eq!(executor.cwd, "");
    assert_eq!(executor.output, "line\n");
    assert_eq!(executor.settings, Some(settings()));
    assert!(executor.use_dry_run && !executor.hidden && !executor.executing && !executor.submitted);
}

#[test]
fn browser_shows_and_selects_in_one_go() {
    let sources = vec![source("b.toml", "[meta]\n[data]\n"), source("a.toml", "[meta]\n[data]\n")];
    let mut browser = ProfileBrowserModel::new();
    let shown = browser.update(
        ProfileBrowserInput::Show(ProfileBrowserInputParams::new(
            "comp".to_string(),
            "pkg".to_string(),
            true,
            Some("b.toml".to_string()),
        )),
        &sources,
    );
    assert_eq!(shown, Ok(Some((1, "b.toml".to_string()))));
    let broken = vec![source("a.toml", "[meta]\n[data]\n"), source("bad.toml", "= =")];
    let mut other = ProfileBrowserModel::new();
    assert_eq!(
        other.update(
            ProfileBrowserInput::Show(ProfileBrowserInputParams::new("c".to_string(), "p".to_string(), false, None)),
            &broken
        ),
        Err(ProfileError::NotToml)
    );
    assert_eq!(read_profiles(&broken), Err(ProfileError::NotToml));
    let mut lazy = ProfileBrowserModel::new();
    assert_eq!(
        lazy.update(ProfileBrowserInput::Select("a.toml".to_string()), &sources),
        Ok(Some((0, "a.toml".to_string())))
    );
}

#[test]
fn json_is_laid_out_and_its_faults_are_told() {
    let mut view = SchemaViewModel::new();
    assert!(view.update(SchemaViewInput::Show("x".to_string()), r#"{"b":1,"a":[true,null]}"#));
    assert_eq!(view.json, "{\n  \"b\": 1,\n  \"a\": [\n    true,\n    null\n  ]\n}");
    let mut editor = ConfigEditorDialogModel::new();
    editor.json = "{".to_string();
    assert_eq!(editor.update(ConfigEditorDialogInput::Apply, ""), None);
    assert_eq!(editor.banner.message, "Error: Invalid JSON! EOF while parsing an object at line 1 column 1");
    assert!(parse_json("{").is_none());
}

#[test]
fn config_editor_writes_only_json() {
    let mut editor = ConfigEditorDialogModel::new();
    assert_eq!(editor.update(ConfigEditorDialogInput::Show("/p/cfg.json".to_string()), r#"{"a":1}"#), None);
    assert!(!editor.hidden);
    assert_eq!(editor.config_file, "/p/cfg.json");
    assert_eq!(editor.json, "{\n  \"a\": 1\n}");
    editor.json = "{\"a\": }".to_string();
    assert_eq!(editor.update(ConfigEditorDialogInput::Apply, ""), None);
    assert!(editor.banner.error && !editor.hidden);
    assert_eq!(editor.banner.message, "Error: Invalid JSON! expected value at line 1 column 7");
    editor.json = String::new();
    assert_eq!(editor.update(ConfigEditorDialogInput::Apply, ""), None);
    assert!(editor.banner.message.starts_with("Error: Invalid JSON! EOF"));
    editor.json = "{\"a\": 2}".to_string();
    assert_eq!(
        editor.update(ConfigEditorDialogInput::Apply, ""),
        Some(ConfigEditorAction::Write { file: "/p/cfg.json".to_string(), text: "{\"a\": 2}".to_string() })
    );
    assert!(editor.hidden && !editor.banner.error);
    assert_eq!(editor.update(ConfigEditorDialogInput::Show("/q".to_string()), "nope"), Some(ConfigEditorAction::Unreadable));
    assert_eq!(editor.update(ConfigEditorDialogInput::Cancel, ""), None);
    assert!(editor.hidden);
}

#[test]
fn schema_view_shows_title_and_text() {
    let mut view = SchemaViewModel::new();
    assert!(view.update(SchemaViewInput::Show("/s.json".to_string()), r#"{"title":"T","x":1}"#));
    assert!(!view.hidden);
    assert_eq!(view.title, "T");
    assert_eq!(view.json, "{\n  \"title\": \"T\",\n  \"x\": 1\n}");
    assert!(view.update(SchemaViewInput::Show("/s.json".to_string()), r#"{"title":5}"#));
    assert_eq!(view.title, "");
    assert!(!view.update(SchemaViewInput::Show("/s.json".to_string()), "nope"));
    assert_eq!(view.json, "{\n  \"title\": 5\n}");
}

#[test]
fn package_is_shown_with_unknown_for_what_is_missing() {
    let full = r#"{"name": "pkg", "version": "1.2.3", "description": "d",
        "author": {"name": "Ann", "email": "a@x"}, "homepage": "https://h",
        "bugs": "https://bugs", "repository": {"type": "git", "url": "https://repo"}}"#;
    let mut model = PackageInfoModel::new();
    match model.update(PackageInfoInput::Show("/p/package.json".to_string()), full) {
        Some(PackageInfoOutput::PackageData(p)) => assert_eq!(p.name, "pkg"),
        other => panic!("{:?}", other),
    }
    assert!(!model.hidden);
    assert_eq!(
        (model.pkg_name.as_str(), model.version.as_str(), model.description.as_str(), model.author.as_str()),
        ("pkg", "1.2.3", "d", "Ann")
    );
    assert_eq!((model.homepage.as_str(), model.bugs.as_str(), model.repo.as_str()), ("https://h", "https://bugs", "https://repo"));
    let bare = PartialPackageJsonData::from_json(&parse_json(r#"{"name": "n", "version": "0", "author": "Bob", "bugs": {"url": "u"}, "repository": "r"}"#).unwrap()).unwrap();
    let mut other = PackageInfoModel::new();
    other.populate_view(bare);
    assert_eq!((other.description.as_str(), other.homepage.as_str()), ("Unknown", "Unknown"));
    assert_eq!((other.author.as_str(), other.bugs.as_str(), other.repo.as_str()), ("Bob", "u", "r"));
    let none = PartialPackageJsonData::from_json(&parse_json(r#"{"name": "n", "version": "0"}"#).unwrap()).unwrap();
    other.populate_view(none);
    assert_eq!((other.author.as_str(), other.bugs.as_str(), other.repo.as_str()), ("Unknown", "Unknown", "Unknown"));
    for broken in [r#"{"name": "n"}"#, r#"{"name": 1, "version": "0"}"#, r#"{"name": "n", "version": "0", "author": 5}"#, r#"{"name": "n", "version": "0", "bugs": {}}"#, r#"{"name": "n", "version": "0", "description": []}"#, "[]"] {
        assert!(PartialPackageJsonData::from_json(&parse_json(broken).unwrap()).is_none(), "{}", broken);
    }
    assert!(model.update(PackageInfoInput::Show("/p".to_string()), "nope").is_none());
    assert_eq!(PartialPackageJsonData::shown(None), "Unknown");
    assert_eq!(PartialPackageJsonData::shown(Some("x".to_string())), "x");
}

const COLLECTION: &str = r#"{"schematics": {"comp": {"schema": "./comp/schema.json"}, "secret": {"private": true}}}"#;

#[test]
fn selector_lists_the_schematics_of_the_collection() {
    let mut selector = SchematicSelectorModel::new(true);
    assert_eq!(selector.schematics, vec![String::new()]);
    assert!(selector.update(SchematicSelectorInput::Show(settings()), true, COLLECTION).is_none());
    assert!(!selector.hidden);
    assert_eq!(selector.schematics, vec!["comp".to_string()]);
    assert_eq!(selector.settings, Some(settings()));
    match selector.update(SchematicSelectorInput::Selected(0), true, "") {
        Some(SchematicSelectorOutput::Selected(name)) => assert_eq!(name, "comp"),
        other => panic!("{:?}", other),
    }
    assert!(selector.update(SchematicSelectorInput::Selected(5), true, "").is_none());
    selector.search = "co".to_string();
    assert!(selector.passes_filter("comp"));
    assert!(!selector.passes_filter("other"));
    assert!(selector.update(SchematicSelectorInput::FilterChange, true, "").is_none());
    assert_eq!(SchematicSelectorModel::load_options(&settings(), false, COLLECTION), vec![String::new()]);
    assert_eq!(SchematicSelectorModel::load_options(&settings(), true, "nope"), vec![String::new()]);
    let all = SettingsData { show_private: true, ..settings() };
    assert_eq!(SchematicSelectorModel::load_options(&all, true, COLLECTION), vec!["comp".to_string(), "secret".to_string()]);
}

#[test]
fn details_pages_follow_the_messages() {
    let mut pages = SchematicsDetailsModel::new();
    assert!(pages.update(SchematicsDetailsInput::ShowSchematic("comp".to_string()), COLLECTION).is_none());
    assert!(pages.update(SchematicsDetailsInput::ShowExecutor(Vec::new()), COLLECTION).is_none());
    assert!(pages.update(SchematicsDetailsInput::Show(None), COLLECTION).is_none());
    assert!(pages.hidden);
    match pages.update(SchematicsDetailsInput::Show(Some(settings())), COLLECTION) {
        Some(DetailsAction::ShowPackage { path }) => assert_eq!(path, "/pkg/package.json"),
        other => panic!("{:?}", other),
    }
    assert!(!pages.hidden);
    let package = PartialPackageJsonData::from_json(&parse_json(r#"{"name": "pkg", "version": "1"}"#).unwrap()).unwrap();
    assert!(pages.update(SchematicsDetailsInput::SetPackage(Box::new(package)), COLLECTION).is_none());
    match pages.update(SchematicsDetailsInput::ShowSchematic("comp".to_string()), COLLECTION) {
        Some(DetailsAction::ShowSchematic { collection, schema, schematic, package_name }) => {
            assert_eq!(collection, "/pkg/collection.json");
            assert_eq!(schema, "./comp/schema.json");
            assert_eq!(schematic, "comp");
            assert_eq!(package_name, "pkg");
        }
        other => panic!("{:?}", other),
    }
    assert_eq!((pages.tab, pages.schematic.as_str()), (2, "comp"));
    match pages.update(SchematicsDetailsInput::ShowSchematic("secret".to_string()), COLLECTION) {
        Some(DetailsAction::ShowSchematic { schema, .. }) => assert_eq!(schema, ""),
        other => panic!("{:?}", other),
    }
    let params = vec![Param::new("a".to_string(), "1".to_string(), InputType::Text)];
    match pages.update(SchematicsDetailsInput::ShowExecutor(params.clone()), COLLECTION) {
        Some(DetailsAction::ShowExecutor(p)) => {
            assert_eq!(p.params, params);
            assert_eq!(p.schematic, "secret");
            assert_eq!(p.settings, settings());
        }
        other => panic!("{:?}", other),
    }
    assert_eq!(pages.tab, 3);
    assert!(pages.update(SchematicsDetailsInput::BacktToUi, COLLECTION).is_none());
    assert_eq!(pages.tab, 2);
    match pages.update(SchematicsDetailsInput::CwdChanged("/w".to_string()), COLLECTION) {
        Some(DetailsAction::CwdChanged { path }) => assert_eq!(path, "/w"),
        other => panic!("{:?}", other),
    }
    pages.show_package();
    assert_eq!(pages.tab, 0);
    pages.show_schema();
    assert_eq!(pages.tab, 1);
    pages.show_ui();
    assert_eq!(pages.tab, 2);
    pages.show_shell();
    assert_eq!(pages.tab, 3);
}

#[test]
fn executor_runs_only_in_a_directory() {
    let mut executor = SchematicExecutorModel::new();
    let params = vec![
        Param::new("name".to_string(), "x".to_string(), InputType::Text),
        Param::new("dryRun".to_string(), "false".to_string(), InputType::Switch),
    ];
    let shown = executor.update(
        SchematicExecutorInput::Show(SchematicExecutorInputParams {
            params,
            schematic: "comp".to_string(),
            settings: settings(),
        }),
        NOTHING,
    );
    assert_eq!(shown, None);
    assert!(!executor.hidden);
    assert_eq!(executor.command, "/opt/bin/schematics comp --name x --dry-run false");
    assert_eq!(executor.update(SchematicExecutorInput::Execute, NOTHING), None);
    assert_eq!(executor.banner.message, "Error: The cwd field is mandatory!");
    assert!(!executor.executing && !executor.submitted);
    assert_eq!(
        executor.update(SchematicExecutorInput::SetCwd("/work".to_string()), NOTHING),
        Some(ExecutorAction::CwdChanged { path: "/work".to_string() })
    );
    assert_eq!(executor.update(SchematicExecutorInput::Execute, FILE), None);
    assert_eq!(executor.banner.message, "Error: The '/work' doesn't exist or it's not a directory!");
    assert_eq!(
        executor.update(SchematicExecutorInput::Execute, DIR),
        Some(ExecutorAction::Run {
            executable: "/opt/bin/schematics".to_string(),
            cwd: "/work".to_string(),
            args: vec!["comp", "--name", "x", "--dry-run", "false"].iter().map(|s| s.to_string()).collect(),
        })
    );
    assert!(executor.executing && executor.submitted && !executor.banner.error);
    executor.update(SchematicExecutorInput::SetOutput("line 1".to_string()), DIR);
    executor.update(SchematicExecutorInput::SetOutput("line 2".to_string()), DIR);
    executor.update(SchematicExecutorInput::SetErrorOutput("oops".to_string()), DIR);
    assert_eq!((executor.output.as_str(), executor.error_output.as_str()), ("line 1\nline 2\n", "oops\n"));
    executor.update(SchematicExecutorInput::Done, DIR);
    assert!(!executor.executing && executor.submitted);
    executor.update(SchematicExecutorInput::ClearOutput, DIR);
    assert_eq!((executor.output.as_str(), executor.error_output.as_str()), ("", ""));
    assert_eq!(
        executor.update(SchematicExecutorInput::CopyToClipboard, DIR),
        Some(ExecutorAction::Copy { text: "/opt/bin/schematics comp --name x --dry-run false".to_string() })
    );
}

#[test]
fn executor_adds_the_dry_run_options_for_runners_that_know_them() {
    let show = |runner: Runner| {
        let mut executor = SchematicExecutorModel::new();
        executor.update(
            SchematicExecutorInput::Show(SchematicExecutorInputParams {
                params: vec![Param::new("a".to_string(), "1".to_string(), InputType::Text)],
                schematic: "comp".to_string(),
                settings: SettingsData { runner, ..settings() },
            }),
            DIR,
        );
        executor.update(SchematicExecutorInput::SetCwd("/w".to_string()), DIR);
        executor
    };
    let args_of = |action: Option<ExecutorAction>| match action {
        Some(ExecutorAction::Run { args, .. }) => args,
        other => panic!("{:?}", other),
    };
    let mut google = show(Runner::Google);
    assert!(google.has_dry_run());
    assert_eq!(args_of(google.update(SchematicExecutorInput::Execute, DIR)), vec!["comp", "--a", "1"]);
    google.update(SchematicExecutorInput::AllowGoogleOptions(true), DIR);
    assert_eq!(
        args_of(google.update(SchematicExecutorInput::Execute, DIR)),
        vec!["comp", "--a", "1", "--dry-run", "true", "--no-interactive", "true"]
    );
    let mut custom = show(Runner::Custom);
    assert!(!custom.has_dry_run());
    custom.update(SchematicExecutorInput::AllowGoogleOptions(true), DIR);
    assert_eq!(args_of(custom.update(SchematicExecutorInput::Execute, DIR)), vec!["comp", "--a", "1"]);
    assert!(!SchematicExecutorModel::new().has_dry_run());
}

#[test]
fn lines_of_the_process_lose_their_escape_sequences() {
    assert_eq!(SchematicExecutorModel::clean_line("\u{1b}[32mCREATE\u{1b}[0m src/a.ts"), "CREATE src/a.ts");
    assert_eq!(SchematicExecutorModel::clean_line("plain"), "plain");
    assert_eq!(SchematicExecutorModel::clean_line(""), "");
    assert_eq!(
        SchematicExecutorModel::arguments_of(&vec![Param::new("a".to_string(), String::new(), InputType::Switch)]),
        vec!["--a".to_string(), String::new()]
    );
}

const SCHEMA: &str = r#"{"$schema": "s", "$id": "comp", "title": "Comp", "type": "object",
  "configurable": "useConfig",
  "properties": {
    "path": {"type": "string", "default": "./comp.json"},
    "useConfig": {"type": "boolean"},
    "module": {"type": "string", "x-prompt": {"type": "list", "message": "m", "items": "$modules"}}
  }}"#;

fn show(model: &mut SchematicUiModel, content: &str) -> Result<Option<UiAction>, UiError> {
    model.update(
        SchematicUiInput::Show(SchematicUiInputParams {
            schema_path: "/pkg/comp/schema.json".to_string(),
            schematic: "comp".to_string(),
            package_name: "pkg".to_string(),
        }),
        content,
        &no_profile(),
    )
}

#[test]
fn form_model_opens_a_schema() {
    let mut model = SchematicUiModel::new();
    assert!(matches!(show(&mut model, "nope"), Err(UiError::Schema(ParseError::Json))));
    assert!(matches!(show(&mut model, "{}"), Err(UiError::Schema(ParseError::Document))));
    assert!(model.hidden);
    assert!(matches!(show(&mut model, SCHEMA), Ok(Some(UiAction::Reset))));
    assert!(!model.hidden && !model.loader && model.has_directives);
    assert_eq!((model.schematic.as_str(), model.package_name.as_str()), ("comp", "pkg"));
    let option = model.configurable.clone().unwrap();
    assert_eq!((option.config_option.as_str(), option.config_file.as_str()), ("useConfig", "./comp.json"));
    assert!(!model.can_submit());
    assert!(matches!(
        model.update(SchematicUiInput::CwdChanged("/work".to_string()), "", &no_profile()),
        Ok(Some(UiAction::Rebuild))
    ));
    assert_eq!(model.cwd, Some("/work".to_string()));
    assert!(model.can_submit());
    match model.update(SchematicUiInput::ShowConfig, "", &no_profile()) {
        Ok(Some(UiAction::ShowConfig { cwd, config_file })) => {
            assert_eq!((cwd.as_str(), config_file.as_str()), ("/work", "./comp.json"))
        }
        other => panic!("{:?}", other),
    }
    assert!(matches!(model.update(SchematicUiInput::ConfigDone, "", &no_profile()), Ok(None)));
    assert_eq!(SchematicUiModel::get_loaded_profile_file(&None), "Profile: none");
    assert_eq!(SchematicUiModel::get_loaded_profile_file(&Some("/a.toml".to_string())), "Profile: /a.toml");
}

#[test]
fn form_model_submits_and_saves_what_the_form_holds() {
    let mut model = SchematicUiModel::new();
    model.set_form(vec![
        Widget { name: "name".to_string(), control: Control::Entry { text: "x".to_string() } },
        Widget { name: "verbose".to_string(), control: Control::Switch { active: true } },
    ]);
    model.schematic = "comp".to_string();
    model.package_name = "pkg".to_string();
    match model.update(SchematicUiInput::Submit, "", &no_profile()) {
        Ok(Some(UiAction::Output(SchematicUiOutput::Params(params, configurable)))) => {
            assert_eq!(
                params,
                vec![
                    Param::new("name".to_string(), "x".to_string(), InputType::Text),
                    Param::new("verbose".to_string(), "true".to_string(), InputType::Switch),
                ]
            );
            assert!(!configurable);
        }
        other => panic!("{:?}", other),
    }
    match model.update(SchematicUiInput::ShowSave(false), "", &no_profile()) {
        Ok(Some(UiAction::ShowSave(p))) => {
            assert_eq!(p.form_data, "name='x'\nverbose='true'");
            assert_eq!((p.schematic.as_str(), p.package_name.as_str()), ("comp", "pkg"));
            assert_eq!((p.file, p.description, p.auto_save), (None, None, false));
        }
        other => panic!("{:?}", other),
    }
    let loaded = LoadedProfile {
        file: Some("/cfg/a.toml".to_string()),
        description: Some("d".to_string()),
        data: Vec::new(),
    };
    match model.update(SchematicUiInput::ShowSave(false), "", &loaded) {
        Ok(Some(UiAction::ShowSave(p))) => {
            assert_eq!((p.file, p.description, p.auto_save), (Some("/cfg/a.toml".to_string()), Some("d".to_string()), true))
        }
        other => panic!("{:?}", other),
    }
    match model.update(SchematicUiInput::ShowSave(true), "", &loaded) {
        Ok(Some(UiAction::ShowSave(p))) => assert!(!p.auto_save),
        other => panic!("{:?}", other),
    }
    match model.update(SchematicUiInput::Saved("a.toml".to_string()), "", &no_profile()) {
        Ok(Some(UiAction::ShowBrowser(p))) => {
            assert_eq!((p.schematic.as_str(), p.package_name.as_str(), p.clear), ("comp", "pkg", false));
            assert_eq!(p.file, Some("a.toml".to_string()));
        }
        other => panic!("{:?}", other),
    }
    assert_eq!(model.file, Some("a.toml".to_string()));
    assert!(model.banner.success);
    assert_eq!(model.banner.message, "Saved");
    match model.update(SchematicUiInput::ShowBrowser, "", &no_profile()) {
        Ok(Some(UiAction::ShowBrowser(p))) => assert_eq!(p.file, None),
        other => panic!("{:?}", other),
    }
    assert!(model.loader);
    assert!(matches!(model.update(SchematicUiInput::HideBrowser, "", &no_profile()), Ok(None)));
    assert!(!model.loader);
}

#[test]
fn form_model_loads_a_profile() {
    let mut model = SchematicUiModel::new();
    model.set_form(vec![
        Widget { name: "name".to_string(), control: Control::Entry { text: String::new() } },
        Widget { name: "kind".to_string(), control: Control::DropDown { items: vec!["a".to_string()], selected: 0 } },
    ]);
    let good = LoadedProfile {
        file: None,
        description: None,
        data: vec![("name".to_string(), "loaded".to_string()), ("kind".to_string(), "a".to_string())],
    };
    assert!(matches!(model.update(SchematicUiInput::Selected(0, "a.toml".to_string()), "", &good), Ok(None)));
    assert_eq!(model.form[0].control, Control::Entry { text: "loaded".to_string() });
    assert_eq!(model.file, Some("a.toml".to_string()));
    let stale = LoadedProfile { data: vec![("kind".to_string(), "b".to_string())], ..good };
    assert!(matches!(
        model.update(SchematicUiInput::Selected(1, "b.toml".to_string()), "", &stale),
        Err(UiError::Load(LoadError::NoSuchChoice))
    ));
    assert_eq!(model.file, Some("a.toml".to_string()));
}
