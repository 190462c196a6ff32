use upmon::config::{ConfigError, DeviceConfig};
use upmon::property::{names, secs_to_hhmmss, Property, PropertyError, RawValue};
use zbus::zvariant::Value::{Bool, F64, I64, U32, U64};

#[test]
fn create_property() {
    let to_test = vec![
        (Property::from_key_value("UpdateTime", &U64(1707671976)), Property::UpdateTime(1707671976)),
        (Property::from_key_value("Online", &Bool(true)), Property::Online(true)),
        (Property::from_key_value("TimeToEmpty", &I64(12345)), Property::TimeToEmpty(12345)),
        (Property::from_key_value("TimeToFull", &I64(54321)), Property::TimeToFull(54321)),
        (Property::from_key_value("Percentage", &F64(54.22)), Property::Percentage(54.22f64.to_bits())),
        (Property::from_key_value("IsPresent", &Bool(false)), Property::IsPresent(false)),
        (Property::from_key_value("State", &U32(2)), Property::State(2)),
    ];
    for (actual, expected) in to_test {
        assert!(actual.is_ok());
        assert_eq!(actual.unwrap(), expected);
    }
    assert!(Property::from_key_value("SomeBadKey", &U32(2)).is_err());
    assert!(Property::from_key_value("UpdateTime", &Bool(true)).is_err());
}

#[test]
fn create_device_config() {
    let dev_path = "/org/freedesktop/UPower/devices/DisplayDevice";

    let single_r = DeviceConfig::new(dev_path, "TimeToFull");
    assert!(single_r.is_ok());
    let single = single_r.unwrap();
    assert_eq!(single.path(), dev_path);
    assert_eq!(single.targets(), &vec![String::from("TimeToFull")]);

    let multi_r = DeviceConfig::new(dev_path, "Online,State,Percentage");
    assert!(multi_r.is_ok());
    let multi = multi_r.unwrap();
    assert_eq!(multi.path(), dev_path);
    assert_eq!(
        multi.targets(),
        &vec![String::from("Online"), String::from("State"), String::from("Percentage")]
    );

    let zero_r = DeviceConfig::new(dev_path, "");
    println!("{zero_r:?}");
    assert!(zero_r.is_err());

    let invalid = DeviceConfig::new(dev_path, "Online,BadTarget");
    assert!(invalid.is_err());
}

#[test]
fn multi_device_configs() {
    let good_args: Vec<String> = [
        "/org/freedesktop/UPower/devices/DisplayDevice", "IsPresent,Percentage",
        "/org/freedesktop/UPower/devices/line_power_AC", "Online",
    ].iter().map(|s| String::from(*s)).collect();
    let confs_r = DeviceConfig::from_varargs(&good_args);
    assert!(confs_r.is_ok());
    let confs = confs_r.unwrap();
    assert_eq!(confs.len(), 2);

    let bad_number_args: Vec<String> = [
        "/org/freedesktop/UPower/devices/DisplayDevice", "IsPresent,Percentage",
        "/org/freedesktop/UPower/devices/line_power_AC",
    ].iter().map(|s| String::from(*s)).collect();
    let confs_r = DeviceConfig::from_varargs(&bad_number_args);
    assert!(confs_r.is_err());

    let invalid_args: Vec<String> = [
        "/org/freedesktop/UPower/devices/DisplayDevice", "IsPresent,BadTarget",
        "/org/freedesktop/UPower/devices/line_power_AC", "Online",
    ].iter().map(|s| String::from(*s)).collect();
    let confs_r = DeviceConfig::from_varargs(&invalid_args);
    assert!(confs_r.is_err());
}

#[test]
fn rules() {
    let dev_conf = DeviceConfig::new("/org/freedesktop/UPower/devices/DisplayDevice", "TimeToFull").unwrap();
    let rule_r = dev_conf.rule();
    assert!(rule_r.is_ok());
    let rule = rule_r.unwrap();
    let rule_str = "type='signal',interface='org.freedesktop.DBus.Properties',\
                        member='PropertiesChanged',\
                        path='/org/freedesktop/UPower/devices/DisplayDevice'";
    assert_eq!(rule.to_wire_string(), rule_str);
    assert_eq!(rule.match_rule().unwrap().to_string(), rule_str);
}

#[test]
fn rule_rejects_malformed_path() {
    let dev_conf = DeviceConfig::new("not a path", "Online").unwrap();
    assert!(dev_conf.rule().is_err());
}

#[test]
fn render_examples() {
    assert_eq!(Property::State(2).to_string(), "Discharging");
    assert_eq!(Property::State(0).to_string(), "Unknown");
    assert_eq!(Property::State(6).to_string(), "PendingDischarge");
    assert_eq!(Property::TimeToEmpty(-5).to_string(), "00:00:00");
    assert_eq!(Property::TimeToEmpty(0).to_string(), "00:00:00");
    assert_eq!(Property::TimeToFull(54321).to_string(), "15:05:21");
    assert_eq!(Property::TimeToFull(360000).to_string(), "100:00:00");
    assert_eq!(Property::Online(true).to_string(), "true");
    assert_eq!(Property::IsPresent(false).to_string(), "false");
    assert_eq!(Property::UpdateTime(1707671976).to_string(), "2024-02-11T17:19:36Z");
    assert_eq!(Property::UpdateTime(0).to_string(), "1970-01-01T00:00:00Z");
}

#[test]
fn hhmmss_values() {
    assert_eq!(secs_to_hhmmss(1), "00:00:01");
    assert_eq!(secs_to_hhmmss(3661), "01:01:01");
    assert_eq!(secs_to_hhmmss(i64::MIN), "00:00:00");
}

#[test]
fn parse_fitting_values() {
    assert_eq!(Property::parse("State", &RawValue::U32(2)), Ok(Property::State(2)));
    assert_eq!(Property::parse("TimeToEmpty", &RawValue::I64(-5)), Ok(Property::TimeToEmpty(-5)));
    assert_eq!(Property::parse("Online", &RawValue::Bool(false)), Ok(Property::Online(false)));
}

#[test]
fn parse_type_mismatch() {
    assert_eq!(Property::parse("UpdateTime", &RawValue::Bool(true)), Err(PropertyError::TypeMismatch));
    assert_eq!(Property::parse("State", &RawValue::U64(2)), Err(PropertyError::TypeMismatch));
    assert_eq!(Property::parse("Percentage", &RawValue::Other), Err(PropertyError::TypeMismatch));
}

#[test]
fn parse_unknown_name() {
    assert_eq!(Property::parse("SomeBadKey", &RawValue::U32(2)), Err(PropertyError::UnknownProperty));
    assert_eq!(Property::parse("", &RawValue::Bool(true)), Err(PropertyError::UnknownProperty));
    assert_eq!(Property::parse("online", &RawValue::Bool(true)), Err(PropertyError::UnknownProperty));
}

#[test]
fn property_names_listed() {
    assert_eq!(
        names(),
        vec!["UpdateTime", "Online", "TimeToEmpty", "TimeToFull", "Percentage", "IsPresent", "State"]
    );
}

#[test]
fn empty_target_list() {
    assert_eq!(DeviceConfig::new("/any", "").unwrap_err(), ConfigError::EmptyTargetList);
    assert_eq!(DeviceConfig::new("", "").unwrap_err(), ConfigError::EmptyTargetList);
}

#[test]
fn unrecognized_target() {
    assert_eq!(
        DeviceConfig::new("/org/freedesktop/UPower/devices/DisplayDevice", "Online,BadTarget").unwrap_err(),
        ConfigError::UnrecognizedProperty(String::from("BadTarget"))
    );
    assert_eq!(
        DeviceConfig::new("/p", "Online,").unwrap_err(),
        ConfigError::UnrecognizedProperty(String::new())
    );
}

#[test]
fn odd_argument_count() {
    let args: Vec<String> = vec![String::from("Online")];
    assert_eq!(DeviceConfig::from_varargs(&args).unwrap_err(), ConfigError::OddArgumentCount(1));
    let args: Vec<String> = vec![String::from("/a"), String::from(""), String::from("/b")];
    assert_eq!(DeviceConfig::from_varargs(&args).unwrap_err(), ConfigError::OddArgumentCount(3));
    assert_eq!(DeviceConfig::from_varargs(&[]).unwrap().len(), 0);
}

#[test]
fn first_failing_pair_error() {
    let args: Vec<String> = ["/a", "Online", "/b", "", "/c", "Nope"].iter().map(|s| String::from(*s)).collect();
    assert_eq!(DeviceConfig::from_varargs(&args).unwrap_err(), ConfigError::EmptyTargetList);
}

#[test]
fn collect_picks_targets() {
    let conf = DeviceConfig::new("/d", "TimeToFull,State,Online").unwrap();
    let changed = vec![
        (String::from("State"), RawValue::U64(3)),
        (String::from("TimeToFull"), RawValue::I64(54321)),
        (String::from("Percentage"), RawValue::F64(1)),
    ];
    let set = conf.collect_changes(&changed);
    assert_eq!(set.changes, vec![(String::from("TimeToFull"), Property::TimeToFull(54321))]);
    assert_eq!(set.mismatched, vec![String::from("State")]);
}

#[test]
fn rule_follows_object_path_syntax() {
    for good in ["/", "/a", "/org/freedesktop/UPower/devices/line_power_AC", "/A_1/b2"] {
        let conf = DeviceConfig::new(good, "Online").unwrap();
        let f = conf.rule().unwrap();
        assert_eq!(
            f.to_wire_string(),
            format!(
                "type='signal',interface='org.freedesktop.DBus.Properties',member='PropertiesChanged',path='{good}'"
            )
        );
    }
    for bad in ["", "no/leading/slash", "/a//b", "/trailing/", "/a-b", "/é"] {
        let conf = DeviceConfig::new(bad, "Online").unwrap();
        assert!(conf.rule().is_err());
    }
}

#[test]
fn render_update_time_beyond_four_digit_years() {
    assert_eq!(Property::UpdateTime(253402300800).to_string(), "+10000-01-01T00:00:00Z");
    assert_eq!(Property::UpdateTime(8210266876799).to_string(), "+262142-12-31T23:59:59Z");
}
