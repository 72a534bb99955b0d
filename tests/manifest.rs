use minivaneger::manifest::{AddonsCfg, Item, ParseError};
use minivaneger::state::AppState;
use minivaneger::settings::SettingsCfg;
use serde_json::Value;

const SAMPLE: &str = r#"{
  "addons": [
    {"name": "alpha", "enabled": true, "author": "x", "weight": 1.5},
    {"name": "beta", "enabled": false}
  ],
  "version": 3,
  "notes": {"a": [1, 2]}
}"#;

fn parse(text: &str) -> Result<AddonsCfg, ParseError> {
    AddonsCfg::parse(text.as_bytes(), "/p/scripts/ls.json".to_string(), "p".to_string())
}

fn num(n: u64) -> Value {
    Value::from(n)
}

#[test]
fn parse_reads_entries_in_order() {
    let cfg = parse(SAMPLE).unwrap();
    assert_eq!(cfg.addons.len(), 2);
    assert_eq!(cfg.addons[0].name, "alpha");
    assert!(cfg.addons[0].enabled);
    assert_eq!(cfg.addons[1].name, "beta");
    assert!(!cfg.addons[1].enabled);
    assert_eq!(cfg.config_path, "/p/scripts/ls.json");
    assert_eq!(cfg.dirname, "p");
}

#[test]
fn parse_keeps_unknown_keys_in_order() {
    let cfg = parse(SAMPLE).unwrap();
    let keys: Vec<&str> = cfg.addons[0].extra.iter().map(|e| e.0.as_str()).collect();
    assert_eq!(keys, vec!["author", "weight"]);
    assert_eq!(cfg.addons[0].extra[0].1, Value::String("x".to_string()));
    assert!(cfg.addons[1].extra.is_empty());
    let top: Vec<&str> = cfg.extra.iter().map(|e| e.0.as_str()).collect();
    assert_eq!(top, vec!["version", "notes"]);
    assert_eq!(cfg.extra[0].1, num(3));
}

#[test]
fn round_trip_keeps_entries_and_extra() {
    let cfg = parse(SAMPLE).unwrap();
    let bytes = cfg.save();
    let again = AddonsCfg::parse(&bytes, "q".to_string(), "q".to_string()).unwrap();
    assert_eq!(again.addons.len(), cfg.addons.len());
    for (a, b) in cfg.addons.iter().zip(again.addons.iter()) {
        assert_eq!(a.name, b.name);
        assert_eq!(a.enabled, b.enabled);
        assert_eq!(a.extra, b.extra);
    }
    assert_eq!(again.extra, cfg.extra);
}

#[test]
fn save_is_pretty_and_deterministic() {
    let cfg = parse(SAMPLE).unwrap();
    let a = cfg.save();
    let b = cfg.save();
    assert_eq!(a, b);
    let text = String::from_utf8(a).unwrap();
    assert!(text.contains('\n'));
    assert!(text.starts_with("{\n  \"addons\""));
}

#[test]
fn equal_manifests_give_equal_bytes() {
    let a = parse(SAMPLE).unwrap();
    let b = AddonsCfg::parse(SAMPLE.as_bytes(), "other".to_string(), "o".to_string()).unwrap();
    assert_eq!(a.save(), b.save());
    let text = String::from_utf8(a.save()).unwrap();
    assert!(!text.contains("other"));
    assert!(!text.contains("/p/scripts"));
}

#[test]
fn syntax_error_for_non_json() {
    assert_eq!(parse("not json").err(), Some(ParseError::Syntax));
    assert_eq!(parse("").err(), Some(ParseError::Syntax));
}

#[test]
fn shape_errors() {
    assert_eq!(parse("[]").err(), Some(ParseError::Shape));
    assert_eq!(parse(r#"{"version": 1}"#).err(), Some(ParseError::Shape));
    assert_eq!(parse(r#"{"addons": 5}"#).err(), Some(ParseError::Shape));
    assert_eq!(parse(r#"{"addons": [{"enabled": true}]}"#).err(), Some(ParseError::Shape));
    assert_eq!(parse(r#"{"addons": [{"name": "a"}]}"#).err(), Some(ParseError::Shape));
    assert_eq!(parse(r#"{"addons": [{"name": 1, "enabled": true}]}"#).err(), Some(ParseError::Shape));
    assert_eq!(parse(r#"{"addons": [{"name": "a", "enabled": "yes"}]}"#).err(), Some(ParseError::Shape));
    assert_eq!(parse(r#"{"addons": [3]}"#).err(), Some(ParseError::Shape));
}

#[test]
fn empty_addons_array_is_a_manifest() {
    let cfg = parse(r#"{"addons": []}"#).unwrap();
    assert!(cfg.addons.is_empty());
    assert!(cfg.extra.is_empty());
}

#[test]
fn item_from_value_and_back() {
    let v: Value = serde_json::from_str(r#"{"enabled": false, "k": null, "name": "n"}"#).unwrap();
    let it = Item::from_value(v).unwrap();
    assert_eq!(it.name, "n");
    assert!(!it.enabled);
    assert_eq!(it.extra, vec![("k".to_string(), Value::Null)]);
    let back = it.to_value();
    let expected: Value = serde_json::from_str(r#"{"name": "n", "enabled": false, "k": null}"#).unwrap();
    assert_eq!(back, expected);
}

#[test]
fn toggle_saves_once_with_only_that_change() {
    let cfg = parse(SAMPLE).unwrap();
    let before = cfg.save();
    let mut st = AppState::new(vec![parse(SAMPLE).unwrap(), cfg], SettingsCfg::default());
    let save = st.toggle(1, 1);
    assert_eq!(save, Some(1));
    assert!(st.vss[1].addons[1].enabled);
    assert!(st.vss[1].addons[0].enabled);
    assert!(!st.vss[0].addons[1].enabled);
    let after = st.vss[1].save();
    let a: Value = serde_json::from_slice(&before).unwrap();
    let mut b: Value = serde_json::from_slice(&after).unwrap();
    assert_ne!(a, b);
    b["addons"][1]["enabled"] = Value::Bool(false);
    assert_eq!(a, b);
}
