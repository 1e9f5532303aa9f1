use kernel_supervisor::window_info::{
    default_fields, get_core_logs, get_left_window_info, merge_key, Field, WindowInfoDefaults,
};
use std::collections::BTreeMap;

fn field(key: &str, value: &str) -> Field<String> {
    Field { key: key.to_string(), value: value.to_string() }
}

/// The object that a list of fields stands for.
fn object(fields: Vec<Field<String>>) -> BTreeMap<String, String> {
    let mut map = BTreeMap::new();
    for f in fields {
        map.insert(f.key, f.value);
    }
    map
}

fn defaults() -> WindowInfoDefaults<String> {
    WindowInfoDefaults {
        attached: "false".to_string(),
        id: "null".to_string(),
        visible: "false".to_string(),
        focused: "false".to_string(),
        devtools: "false".to_string(),
        loading: "false".to_string(),
        url: "\"\"".to_string(),
        left_bounds: "{\"x\":0,\"y\":0,\"width\":0,\"height\":0}".to_string(),
        main_bounds: "{\"x\":10,\"y\":20,\"width\":800,\"height\":600}".to_string(),
        display: "{\"id\":\"\",\"scaleFactor\":1.0}".to_string(),
    }
}

#[test]
fn default_fields_have_the_keys_of_the_window_info() {
    let fields = default_fields(defaults());
    let keys: Vec<&str> = fields.iter().map(|f| f.key.as_str()).collect();
    assert_eq!(
        keys,
        vec![
            "attached",
            "id",
            "visible",
            "focused",
            "devtools",
            "loading",
            "url",
            "leftBounds",
            "mainBounds",
            "display"
        ]
    );
    assert_eq!(fields[1].value, "null");
    assert_eq!(fields[6].value, "\"\"");
    assert_eq!(fields[8].value, "{\"x\":10,\"y\":20,\"width\":800,\"height\":600}");
}

#[test]
fn bounds_are_renamed_and_other_keys_copied() {
    let status = vec![
        field("attached", "true"),
        field("bounds", "{\"x\":-490,\"y\":20,\"width\":500,\"height\":600}"),
        field("title", "\"home\""),
    ];
    let info = object(get_left_window_info(defaults(), Some(status)));
    assert_eq!(info.len(), 11);
    assert_eq!(info["attached"], "true");
    assert_eq!(info["visible"], "false");
    assert_eq!(info["url"], "\"\"");
    assert_eq!(info["leftBounds"], "{\"x\":-490,\"y\":20,\"width\":500,\"height\":600}");
    assert_eq!(info["mainBounds"], "{\"x\":10,\"y\":20,\"width\":800,\"height\":600}");
    assert_eq!(info["title"], "\"home\"");
    assert!(!info.contains_key("bounds"));
}

#[test]
fn defaults_stay_without_a_report() {
    let info = object(get_left_window_info(defaults(), None));
    assert_eq!(info, object(default_fields(defaults())));
    assert_eq!(info.len(), 10);
    let info = object(get_left_window_info(defaults(), Some(Vec::new())));
    assert_eq!(info, object(default_fields(defaults())));
}

#[test]
fn later_field_of_the_report_wins() {
    let status = vec![field("bounds", "1"), field("leftBounds", "2")];
    let info = object(get_left_window_info(defaults(), Some(status)));
    assert_eq!(info["leftBounds"], "2");
    let status = vec![field("leftBounds", "2"), field("bounds", "1")];
    let info = object(get_left_window_info(defaults(), Some(status)));
    assert_eq!(info["leftBounds"], "1");
}

#[test]
fn only_the_bounds_key_is_renamed() {
    assert_eq!(merge_key("bounds".to_string()), "leftBounds");
    assert_eq!(merge_key("Bounds".to_string()), "Bounds");
    assert_eq!(merge_key("bounds ".to_string()), "bounds ");
    assert_eq!(merge_key("leftBounds".to_string()), "leftBounds");
    assert_eq!(merge_key("".to_string()), "");
}

#[test]
fn core_logs_are_always_empty() {
    let logs = get_core_logs(1, 50).unwrap();
    assert!(logs.items.is_empty());
    assert_eq!(logs.total, 0);
    let logs = get_core_logs(u32::MAX, 0).unwrap();
    assert!(logs.items.is_empty());
    assert_eq!(logs.total, 0);
}
