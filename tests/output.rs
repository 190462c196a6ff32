use upmon::output::LineFormat;
use upmon::property::Property;

fn format(sep: &str, delim: &str) -> LineFormat {
    LineFormat { separator: String::from(sep), delimiter: String::from(delim), timestamp: false }
}

#[test]
fn single_change_line() {
    let pairs = vec![(String::from("TimeToFull"), Property::TimeToFull(54321).to_string())];
    let line = format("=", " ").format_line(None, "/org/freedesktop/UPower/devices/DisplayDevice", &pairs);
    assert_eq!(line, "/org/freedesktop/UPower/devices/DisplayDevice TimeToFull=15:05:21\n");
    assert_eq!(format("=", " ").line("/org/freedesktop/UPower/devices/DisplayDevice", &pairs), line);
}

#[test]
fn several_changes_with_time() {
    let pairs = vec![
        (String::from("Online"), String::from("true")),
        (String::from("State"), String::from("Charging")),
    ];
    let line = format("xx", "yy").format_line(Some("2024-02-11T17:19:36.000Z"), "/d", &pairs);
    assert_eq!(line, "2024-02-11T17:19:36.000Z /d OnlinexxtrueyyStatexxCharging\n");
}

#[test]
fn timestamped_line_ends_with_record() {
    let mut f = format("=", " ");
    f.timestamp = true;
    let pairs = vec![(String::from("Online"), String::from("false"))];
    let line = f.line("/d", &pairs);
    assert!(line.ends_with("Z /d Online=false\n"));
    assert!(line.len() > "Z /d Online=false\n".len());
}
