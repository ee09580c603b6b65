use bepinex_gui::bepinex_log::{BepInExLog, BepInExLogEntry, LogLevel};
use bepinex_gui::bepinex_mod::{parse_mod_bytes, parse_mod_record, BepInExMod};
use bepinex_gui::receiver::LogReceiverThread;

#[test]
fn mod_record_parsed_from_marker_line() {
    let text = b"... Loading [a][b][MyMod 1.2.3]".to_vec();
    let record = parse_mod_record(&text).unwrap();
    assert_eq!(record.name(), "MyMod");
    assert_eq!(record.version(), "1.2.3");
}

#[test]
fn mod_name_keeps_inner_spaces() {
    let text = b"[Info   :   BepInEx] Loading [x][My Longer Mod 0.9.17]".to_vec();
    let record = parse_mod_record(&text).unwrap();
    assert_eq!(record.name(), "My Longer Mod");
    assert_eq!(record.version(), "0.9.17");
}

#[test]
fn no_space_before_bracket_yields_no_record() {
    let text = b"... Loading [a][b][NameWithoutVersion]".to_vec();
    assert!(parse_mod_record(&text).is_none());
}

#[test]
fn line_without_marker_yields_no_record() {
    let text = b"just an ordinary [bracketed] [line] [x y]".to_vec();
    assert!(parse_mod_record(&text).is_none());
}

#[test]
fn too_few_brackets_yield_no_record() {
    let text = b"something Loading [only-one-segment".to_vec();
    assert!(parse_mod_bytes(&text).is_none());
}

#[test]
fn trailing_space_yields_no_record() {
    let text = b"x Loading [a][b][ab ".to_vec();
    assert!(parse_mod_record(&text).is_none());
}

#[test]
fn empty_version_is_allowed() {
    let text = b"x Loading [a][b][name ]".to_vec();
    let record = parse_mod_record(&text).unwrap();
    assert_eq!(record.name(), "name");
    assert_eq!(record.version(), "");
}

#[test]
fn entry_is_still_made_when_mod_parse_fails() {
    let bytes = b"... Loading [a][b][NameWithoutVersion]".to_vec();
    let (entry, record) = LogReceiverThread::make_log_entry_from_packet_data(
        LogLevel::Info,
        &bytes,
    );
    assert!(record.is_none());
    assert_eq!(entry.data(), "... Loading [a][b][NameWithoutVersion]");
    assert_eq!(entry.level(), LogLevel::Info);
}

#[test]
fn entry_and_record_made_from_marker_packet() {
    let bytes = b"... Loading [a][b][MyMod 1.2.3]".to_vec();
    let (entry, record) = LogReceiverThread::make_log_entry_from_packet_data(
        LogLevel::Message,
        &bytes,
    );
    assert_eq!(entry.data(), "... Loading [a][b][MyMod 1.2.3]");
    assert!(!entry.is_selected());
    let record = record.unwrap();
    assert_eq!(record.name(), "MyMod");
    assert_eq!(record.version(), "1.2.3");
}

#[test]
fn mod_display_form_joins_name_and_version() {
    let m = BepInExMod::new("SomeMod", "2.0.1");
    assert_eq!(m.to_string(), "SomeMod 2.0.1");
}

#[test]
fn entry_caches_its_case_folding() {
    let entry = BepInExLogEntry::new(LogLevel::Debug, "MiXeD Case TEXT");
    assert_eq!(entry.data(), "MiXeD Case TEXT");
    assert_eq!(entry.data_lowercase(), "mixed case text");
}

#[test]
fn plain_log_struct_keeps_its_fields() {
    let log = BepInExLog::new(LogLevel::Error, String::from("boom"));
    assert_eq!(log.level, LogLevel::Error);
    assert_eq!(log.data, "boom");
}
