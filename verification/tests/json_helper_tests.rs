use buildme::error::BuildError;
use buildme::json_helper::{JsonUtil, Member};
use buildme::string_map::StringMap;

fn pairs(map: &StringMap) -> Vec<(String, String)> {
    (0..map.len()).map(|i| (map.key_at(i).to_string(), map.value_at(i).to_string())).collect()
}

fn expected(entries: &[(&str, &str)]) -> Vec<(String, String)> {
    entries.iter().map(|(key, value)| (key.to_string(), value.to_string())).collect()
}

fn table(entries: &[(&str, Option<&str>)]) -> Member {
    Member::Table(
        entries.iter().map(|(key, value)| (key.to_string(), value.map(|v| v.to_string()))).collect(),
    )
}

fn parse_error(message: &str) -> BuildError {
    BuildError::ConfigParse { message: message.to_string() }
}

#[test]
fn settings_are_read_from_a_document() {
    let text = r#"{
        "workspace_dir": "/work/space",
        "project_options": { "-DFOO": "ON", "-DBAR": "OFF" },
        "extra_args": { "-DCMAKE_CXX_STANDARD": "20" }
    }"#;
    let (options, extra, workspace) = JsonUtil::parse_json(text).unwrap();
    assert_eq!(workspace, "/work/space");
    assert_eq!(pairs(&options), expected(&[("-DBAR", "OFF"), ("-DFOO", "ON")]));
    assert_eq!(pairs(&extra), expected(&[("-DCMAKE_CXX_STANDARD", "20")]));
}

#[test]
fn empty_objects_give_empty_maps() {
    let text = r#"{"extra_args": {}, "project_options": {}, "workspace_dir": "w", "more": [1, 2]}"#;
    let (options, extra, workspace) = JsonUtil::parse_json(text).unwrap();
    assert_eq!(workspace, "w");
    assert_eq!(options.len(), 0);
    assert_eq!(extra.len(), 0);
}

#[test]
fn a_text_that_is_no_document_is_refused() {
    assert!(matches!(JsonUtil::parse_json("{ not json"), Err(BuildError::ConfigParse { .. })));
    assert!(matches!(JsonUtil::parse_json(""), Err(BuildError::ConfigParse { .. })));
}

#[test]
fn a_missing_member_is_refused() {
    assert_eq!(
        JsonUtil::parse_json(r#"{"project_options": {}, "extra_args": {}}"#).err(),
        Some(parse_error("`workspace_dir` is missing or is not a string"))
    );
    assert_eq!(
        JsonUtil::parse_json(r#"{"workspace_dir": "w", "extra_args": {}}"#).err(),
        Some(parse_error("`project_options` is missing or is not an object of strings"))
    );
    assert_eq!(
        JsonUtil::parse_json(r#"{"workspace_dir": "w", "project_options": {}}"#).err(),
        Some(parse_error("`extra_args` is missing or is not an object of strings"))
    );
    assert_eq!(
        JsonUtil::parse_json("[1, 2, 3]").err(),
        Some(parse_error("`workspace_dir` is missing or is not a string"))
    );
}

#[test]
fn a_member_of_the_wrong_kind_is_refused() {
    assert_eq!(
        JsonUtil::parse_json(r#"{"workspace_dir": 7, "project_options": {}, "extra_args": {}}"#).err(),
        Some(parse_error("`workspace_dir` is missing or is not a string"))
    );
    assert_eq!(
        JsonUtil::parse_json(r#"{"workspace_dir": "w", "project_options": {"-DX": true}, "extra_args": {}}"#)
            .err(),
        Some(parse_error("`project_options` is missing or is not an object of strings"))
    );
    assert_eq!(
        JsonUtil::parse_json(r#"{"workspace_dir": "w", "project_options": {}, "extra_args": "none"}"#).err(),
        Some(parse_error("`extra_args` is missing or is not an object of strings"))
    );
}

#[test]
fn settings_come_from_the_members_of_a_document() {
    let members = vec![
        ("project_options".to_string(), table(&[("-DB", Some("ON")), ("-DA", Some("OFF"))])),
        ("workspace_dir".to_string(), Member::Text("w".to_string())),
        ("extra_args".to_string(), table(&[])),
        ("workspace_dir".to_string(), Member::Text("second".to_string())),
    ];
    let (options, extra, workspace) = JsonUtil::settings_from(&members).unwrap();
    assert_eq!(workspace, "w");
    assert_eq!(pairs(&options), expected(&[("-DB", "ON"), ("-DA", "OFF")]));
    assert_eq!(extra.len(), 0);
}

#[test]
fn members_are_found_by_name() {
    let members = vec![
        ("a".to_string(), Member::Other),
        ("b".to_string(), Member::Text("x".to_string())),
    ];
    assert_eq!(JsonUtil::find_member(&members, "b"), Some(&Member::Text("x".to_string())));
    assert_eq!(JsonUtil::find_member(&members, "a"), Some(&Member::Other));
    assert_eq!(JsonUtil::find_member(&members, "c"), None);
}

#[test]
fn a_table_with_a_member_that_is_no_string_is_no_map() {
    let good = vec![("k".to_string(), Some("v".to_string())), ("k".to_string(), Some("w".to_string()))];
    assert_eq!(pairs(&JsonUtil::table_map(&good).unwrap()), expected(&[("k", "w")]));
    let bad = vec![("k".to_string(), Some("v".to_string())), ("l".to_string(), None)];
    assert!(JsonUtil::table_map(&bad).is_none());
    assert_eq!(
        JsonUtil::table_member(&vec![("t".to_string(), Member::Table(bad))], "t").err(),
        Some(parse_error("`t` is missing or is not an object of strings"))
    );
}

#[test]
fn fresh_settings_hold_the_placeholder_and_the_options() {
    let mut options = StringMap::new();
    options.insert("-DFOO".to_string(), "ON".to_string());
    assert_eq!(
        JsonUtil::default_document(&options),
        vec![
            ("workspace_dir".to_string(), Member::Text("path/to/valid/directory".to_string())),
            ("project_options".to_string(), table(&[("-DFOO", Some("ON"))])),
            ("extra_args".to_string(), table(&[])),
        ]
    );
}

#[test]
fn fresh_settings_are_written_as_an_indented_document() {
    let mut options = StringMap::new();
    options.insert("-DFOO".to_string(), "ON".to_string());
    let text = JsonUtil::create_project_setting(&options).unwrap();
    assert_eq!(
        text,
        "{\n  \"extra_args\": {},\n  \"project_options\": {\n    \"-DFOO\": \"ON\"\n  },\n  \"workspace_dir\": \"path/to/valid/directory\"\n}"
    );
}

#[test]
fn fresh_settings_can_be_read_back() {
    let mut options = StringMap::new();
    options.insert("-DFOO".to_string(), "ON".to_string());
    options.insert("-DBAR".to_string(), "OFF".to_string());
    let text = JsonUtil::create_project_setting(&options).unwrap();
    let (read, extra, workspace) = JsonUtil::parse_json(&text).unwrap();
    assert_eq!(workspace, "path/to/valid/directory");
    assert_eq!(pairs(&read), expected(&[("-DBAR", "OFF"), ("-DFOO", "ON")]));
    assert_eq!(extra.len(), 0);
}

#[test]
fn the_settings_stand_in_the_project_directory() {
    let expected = std::path::Path::new("some").join("project").join("project_settings.json");
    let base = std::path::Path::new("some").join("project");
    assert_eq!(
        JsonUtil::project_setting_path(&base.to_string_lossy()),
        expected.to_string_lossy()
    );
}
