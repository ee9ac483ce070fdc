pub mod command_builder;
pub mod config_editor_dialog;
pub mod default_widget_builder;
pub mod form_builder;
pub mod form_utils;
pub mod items;
pub mod json;
pub mod package_info;
pub mod pattern;
pub mod primitive;
pub mod profile_browser;
pub mod profile_data_list_item;
pub mod resolver;
pub mod round_trip;
pub mod save_dialog;
pub mod schema;
pub mod schema_enums;
pub mod schema_parsing;
pub mod schema_view;
pub mod schematic_executor;
pub mod schematic_selector;
pub mod schematic_ui;
pub mod schematics;
pub mod schematics_details;
pub mod settings;
pub mod settings_utils;
pub mod text;
pub mod toml_value;
pub mod traits;
pub mod value_extractor;
pub mod value_loader;
pub mod widget;
pub mod xwidget_builder;
