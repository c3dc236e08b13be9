use ntscrs_android::params::{
    parse_render_params, read_raw_params, render_params_from_json, render_params_from_raw,
    RawParams, TextField,
};
use serde_json::Value;

fn object(members: &[(&str, Value)]) -> Value {
    let mut map = serde_json::Map::new();
    for (k, v) in members {
        map.insert(k.to_string(), v.clone());
    }
    Value::Object(map)
}

fn text(s: &str) -> Value {
    Value::String(s.to_string())
}

fn needed() -> Vec<(&'static str, Value)> {
    vec![
        ("in_path", text("/in.mp4")),
        ("out_path", text("/out.mp4")),
        ("settings_json", text("{}")),
    ]
}

#[test]
fn defaults() {
    let p = render_params_from_json(&object(&needed())).unwrap();
    assert_eq!(p.in_path, "/in.mp4");
    assert_eq!(p.out_path, "/out.mp4");
    assert_eq!(p.settings_json, "{}");
    assert_eq!((p.easy, p.use444, p.interlaced), (false, false, false));
    assert_eq!((p.quality, p.speed), (27, 5));
    assert_eq!((p.trim_start_us, p.trim_end_us), (0, i64::MAX));
    assert_eq!((p.out_w, p.out_h), (0, 0));
    assert!(p.effect_enabled);
}

#[test]
fn given_members_are_used() {
    let mut members = needed();
    members.push(("easy", Value::Bool(true)));
    members.push(("quality", Value::from(48)));
    members.push(("speed", Value::from(-8)));
    members.push(("use444", Value::Bool(true)));
    members.push(("interlaced", Value::Bool(true)));
    members.push(("trim_start_us", Value::from(5_000_000_000i64)));
    members.push(("trim_end_us", Value::from(6_000_000_000i64)));
    members.push(("out_w", Value::from(640)));
    members.push(("out_h", Value::from(480)));
    members.push(("effect_enabled", Value::Bool(false)));
    members.push(("unknown", Value::Null));
    let p = render_params_from_json(&object(&members)).unwrap();
    assert_eq!((p.easy, p.use444, p.interlaced), (true, true, true));
    assert_eq!((p.quality, p.speed), (48, -8));
    assert_eq!((p.trim_start_us, p.trim_end_us), (5_000_000_000, 6_000_000_000));
    assert_eq!((p.out_w, p.out_h), (640, 480));
    assert!(!p.effect_enabled);
}

#[test]
fn members_of_the_wrong_type_fall_back() {
    let mut members = needed();
    members.push(("easy", Value::from(1)));
    members.push(("quality", text("40")));
    members.push(("speed", Value::from(2.5)));
    members.push(("trim_end_us", Value::from(u64::MAX)));
    members.push(("effect_enabled", Value::Null));
    let p = render_params_from_json(&object(&members)).unwrap();
    assert!(!p.easy);
    assert_eq!((p.quality, p.speed), (27, 5));
    assert_eq!(p.trim_end_us, i64::MAX);
    assert!(p.effect_enabled);
}

#[test]
fn small_numbers_keep_their_low_bits() {
    let mut members = needed();
    members.push(("quality", Value::from(0x1_0000_0007i64)));
    members.push(("speed", Value::from(0x8000_0000i64)));
    members.push(("out_w", Value::from(i64::MIN)));
    members.push(("out_h", Value::from(-1)));
    let p = render_params_from_json(&object(&members)).unwrap();
    assert_eq!((p.quality, p.speed), (7, i32::MIN));
    assert_eq!((p.out_w, p.out_h), (0, -1));
}

#[test]
fn needed_text_is_named_when_missing() {
    for key in ["in_path", "out_path", "settings_json"] {
        let members: Vec<_> = needed().into_iter().filter(|(k, _)| *k != key).collect();
        let e = render_params_from_json(&object(&members)).unwrap_err();
        assert_eq!(e, format!("missing '{}'", key));
    }
}

#[test]
fn needed_text_is_named_when_bad() {
    for key in ["in_path", "out_path", "settings_json"] {
        let members: Vec<_> = needed()
            .into_iter()
            .map(|(k, v)| if k == key { (k, Value::from(3)) } else { (k, v) })
            .collect();
        let e = render_params_from_json(&object(&members)).unwrap_err();
        assert_eq!(e, format!("bad '{}'", key));
    }
}

#[test]
fn the_first_fault_is_told() {
    assert_eq!(render_params_from_json(&object(&[])).unwrap_err(), "missing 'in_path'");
    let v = object(&[("in_path", text("a")), ("settings_json", Value::Null)]);
    assert_eq!(render_params_from_json(&v).unwrap_err(), "missing 'out_path'");
    let v = object(&[("in_path", text("a")), ("out_path", Value::Null)]);
    assert_eq!(render_params_from_json(&v).unwrap_err(), "bad 'out_path'");
    assert_eq!(render_params_from_json(&Value::Null).unwrap_err(), "missing 'in_path'");
}

#[test]
fn raw_params_tell_what_is_there() {
    let mut members = needed();
    members.remove(0);
    members[0].1 = Value::Bool(true);
    members.push(("easy", Value::Bool(false)));
    members.push(("quality", Value::from(12)));
    let raw = read_raw_params(&object(&members));
    assert!(matches!(raw.in_path, TextField::Missing));
    assert!(matches!(raw.out_path, TextField::NotText));
    assert!(matches!(raw.settings_json, TextField::Text(s) if s == "{}"));
    assert_eq!((raw.easy, raw.quality, raw.speed), (Some(false), Some(12), None));
}

#[test]
fn raw_params_become_params() {
    let raw = RawParams {
        in_path: TextField::Text("i".to_string()),
        out_path: TextField::Text("o".to_string()),
        settings_json: TextField::Text("s".to_string()),
        easy: None,
        quality: Some(-1),
        speed: None,
        use444: Some(true),
        interlaced: None,
        trim_start_us: None,
        trim_end_us: Some(9),
        out_w: None,
        out_h: None,
        effect_enabled: None,
    };
    let p = render_params_from_raw(raw).unwrap();
    assert_eq!((p.quality, p.speed, p.use444, p.trim_end_us), (-1, 5, true, 9));
}

#[test]
fn text_is_parsed() {
    let p = parse_render_params(
        "{\"in_path\":\"a\\n\",\"out_path\":\"b\",\"settings_json\":\"c\",\"quality\":30}",
    )
    .unwrap();
    assert_eq!((p.in_path.as_str(), p.quality), ("a\n", 30));
    assert_eq!(parse_render_params("[]").unwrap_err(), "missing 'in_path'");
}

#[test]
fn text_that_is_not_json_is_refused_with_the_reason() {
    let reason = serde_json::from_str::<Value>("{\"in_path\":").unwrap_err().to_string();
    assert_eq!(parse_render_params("{\"in_path\":").unwrap_err(), reason);
    assert_eq!(
        parse_render_params("").unwrap_err(),
        "EOF while parsing a value at line 1 column 0"
    );
}
