use ntscrs_android::descriptors::{
    append_descriptors, descriptors_json, MenuItem, SettingDescriptor, SettingKind,
};

fn setting(name: &str, id: u32, kind: SettingKind) -> SettingDescriptor {
    SettingDescriptor {
        name: name.to_string(),
        id,
        label: name.to_uppercase(),
        description: None,
        kind,
    }
}

fn percentage(name: &str) -> SettingDescriptor {
    setting(name, 0, SettingKind::Percentage { logarithmic: false })
}

fn group(name: &str, children: Vec<SettingDescriptor>) -> SettingDescriptor {
    setting(name, 0, SettingKind::Group { children })
}

fn settings(easy: bool) -> Vec<SettingDescriptor> {
    let mut list = vec![
        setting("random_seed", 1, SettingKind::IntRange { min: i32::MIN, max: i32::MAX }),
        setting("use_field", 2, SettingKind::Enumeration { options: Vec::new() }),
    ];
    if !easy {
        list.push(group("head_switching", vec![percentage("head_switching_height")]));
        list.push(group("tracking_noise", vec![percentage("tracking_noise_height")]));
        list.push(group("ringing", vec![percentage("ringing_frequency")]));
        list.push(group(
            "vhs",
            vec![percentage("vhs_tape_speed"), percentage("chroma_demodulation")],
        ));
        list.push(group(
            "scale",
            vec![percentage("bandwidth_scale"), percentage("scale_with_video_size")],
        ));
        list.push(group(
            "noise",
            vec![
                percentage("composite_noise"),
                group("luma_noise", vec![percentage("luma_noise_detail")]),
            ],
        ));
    }
    list
}

#[test]
fn descriptors_cover_all_settings() {
    for easy in [false, true] {
        let d = descriptors_json(&settings(easy));
        assert!(d.starts_with('['), "must be JSON array");
        assert!(d.contains("random_seed"), "easy={}", easy);
        assert!(d.contains("use_field"), "easy={}", easy);
        if !easy {
            for key in [
                "head_switching_height",
                "tracking_noise_height",
                "ringing_frequency",
                "vhs_tape_speed",
                "chroma_demodulation",
                "bandwidth_scale",
                "scale_with_video_size",
                "composite_noise",
                "luma_noise_detail",
            ] {
                assert!(d.contains(key), "missing {}", key);
            }
        }
    }
}

#[test]
fn no_settings() {
    assert_eq!(descriptors_json(&[]), "[]");
}

#[test]
fn settings_are_appended() {
    let mut out = String::from("x=");
    append_descriptors(&mut out, &[setting("b", 4294967295, SettingKind::Boolean)]);
    assert_eq!(
        out,
        "x=[{\"name\":\"b\",\"id\":4294967295,\"label\":\"B\",\"description\":null,\
         \"kind\":\"bool\"}]"
    );
}

#[test]
fn every_kind_has_its_form() {
    let mut first = setting(
        "e",
        1,
        SettingKind::Enumeration {
            options: vec![
                MenuItem { label: "A".to_string(), description: None, index: 0 },
                MenuItem {
                    label: "B".to_string(),
                    description: Some("say \"b\"".to_string()),
                    index: 10,
                },
            ],
        },
    );
    first.description = Some("two\nlines".to_string());
    let list = vec![
        first,
        setting("p", 2, SettingKind::Percentage { logarithmic: true }),
        setting("i", 3, SettingKind::IntRange { min: -5, max: 12 }),
        setting(
            "f",
            4,
            SettingKind::FloatRange {
                low: "-1.5".to_string(),
                high: "8".to_string(),
                logarithmic: false,
            },
        ),
        setting(
            "g",
            5,
            SettingKind::Group { children: vec![setting("b", 6, SettingKind::Boolean)] },
        ),
    ];
    assert_eq!(
        descriptors_json(&list),
        "[{\"name\":\"e\",\"id\":1,\"label\":\"E\",\"description\":\"two\\nlines\",\
         \"kind\":\"enum\",\"options\":[\
         {\"label\":\"A\",\"description\":null,\"index\":0},\
         {\"label\":\"B\",\"description\":\"say \\\"b\\\"\",\"index\":10}]},\
         {\"name\":\"p\",\"id\":2,\"label\":\"P\",\"description\":null,\
         \"kind\":\"percentage\",\"logarithmic\":true},\
         {\"name\":\"i\",\"id\":3,\"label\":\"I\",\"description\":null,\
         \"kind\":\"int\",\"min\":-5,\"max\":12},\
         {\"name\":\"f\",\"id\":4,\"label\":\"F\",\"description\":null,\
         \"kind\":\"float\",\"min\":-1.5,\"max\":8,\"logarithmic\":false},\
         {\"name\":\"g\",\"id\":5,\"label\":\"G\",\"description\":null,\
         \"kind\":\"group\",\"children\":[\
         {\"name\":\"b\",\"id\":6,\"label\":\"B\",\"description\":null,\"kind\":\"bool\"}]}]"
    );
}

#[test]
fn descriptors_are_json() {
    let mut list = settings(false);
    list[0].label = "quote \" and \\ and \u{1}".to_string();
    let v = serde_json::from_str::<serde_json::Value>(&descriptors_json(&list)).unwrap();
    let settings = v.as_array().unwrap();
    assert_eq!(settings.len(), list.len());
    assert_eq!(
        settings[0].get("label").unwrap().as_str(),
        Some("quote \" and \\ and \u{1}")
    );
    assert_eq!(settings[0].get("min").unwrap().as_i64(), Some(i32::MIN as i64));
    assert_eq!(settings[5].get("kind").unwrap().as_str(), Some("group"));
    assert_eq!(settings[5].get("children").unwrap().as_array().unwrap().len(), 2);
}
