use vi_ime::ibus::{address_from_bus_file, ibus_bus_file_path, ibus_display};
use vi_ime::ibus_wire::{
    extract_ibus_string, ibus_attr_list_empty, ibus_attr_list_value, ibus_component_value,
    ibus_engine_desc_value, ibus_preedit_text_owned, ibus_text_owned, ibus_text_value,
    EngineMetadata, IbusAttribute, IbusError, WireField, WireValue, IBUS_ATTR_TYPE_NONE,
    IBUS_ATTR_UNDERLINE_SINGLE,
};
use vi_ime::memory::{first_word_of, parse_u64, rss_kb_from_status};
use vi_ime::text::{strip_prefix_str, trim};

fn metadata() -> EngineMetadata {
    EngineMetadata {
        longname: "Vietnamese".to_string(),
        description: "Vietnamese input method".to_string(),
        language: "vi".to_string(),
        license: "GPL".to_string(),
        icon: "vi-ime".to_string(),
        rank: 99,
        setup: "/usr/bin/vi-ui".to_string(),
    }
}

fn ibus_text_wire(text: &str) -> WireValue {
    WireValue::Structure {
        fields: vec![
            WireField::Str("IBusText".to_string()),
            WireField::Dict,
            WireField::Str(text.to_string()),
            WireField::Other,
        ],
        debug: format!("IBusText({text})"),
    }
}

// ── IBusText and attributes ──────────────────────────────────────────────────

#[test]
fn test_extract_ibus_string_valid() {
    let owned = ibus_text_wire("hello");
    assert_eq!(extract_ibus_string(&owned).unwrap(), "hello");
}

#[test]
fn test_extract_ibus_string_malformed() {
    let bare = WireValue::Other { debug: "Str(\"not a structure\")".to_string() };
    assert!(matches!(extract_ibus_string(&bare), Err(IbusError::MalformedSurroundingText(_))));
}

#[test]
fn extract_reports_each_malformation() {
    let bare = WireValue::Other { debug: "U32(7)".to_string() };
    assert_eq!(
        extract_ibus_string(&bare),
        Err(IbusError::MalformedSurroundingText("expected IBusText structure, got U32(7)".to_string()))
    );
    let short = WireValue::Structure {
        fields: vec![WireField::Str("IBusText".to_string()), WireField::Dict],
        debug: "S".to_string(),
    };
    assert_eq!(
        extract_ibus_string(&short),
        Err(IbusError::MalformedSurroundingText(
            "expected (sa{sv}sv) IBusText, got structure with 2 fields: S".to_string()
        ))
    );
    let not_string = WireValue::Structure {
        fields: vec![WireField::Str("IBusText".to_string()), WireField::Dict, WireField::Other],
        debug: "S".to_string(),
    };
    assert_eq!(
        extract_ibus_string(&not_string),
        Err(IbusError::MalformedSurroundingText("text field is not a string".to_string()))
    );
}

#[test]
fn test_ibus_surrounding_text_extraction() {
    let wrapped = WireValue::Variant(Box::new(ibus_text_wire("việt")));
    assert_eq!(extract_ibus_string(&wrapped).unwrap(), "việt");
}

#[test]
fn extract_unwraps_up_to_eight_variants() {
    let mut v = ibus_text_wire("a");
    for _ in 0..8 {
        v = WireValue::Variant(Box::new(v));
    }
    assert_eq!(extract_ibus_string(&v).unwrap(), "a");
    let deeper = WireValue::Variant(Box::new(v));
    assert_eq!(
        extract_ibus_string(&deeper),
        Err(IbusError::MalformedSurroundingText("variant nesting depth exceeded".to_string()))
    );
}

#[test]
fn test_ibus_text_owned_is_single_variant() {
    let owned = ibus_text_owned("test");
    assert_eq!(owned.text, "test");
    assert!(owned.attributes.is_empty());
}

#[test]
fn test_ibus_text_owned_unicode() {
    let owned = ibus_text_owned("nhà");
    assert_eq!(owned.text, "nhà");
    assert!(owned.attributes.is_empty());
}

#[test]
fn ibus_text_owned_vietnamese_composition_chars() {
    for text in &["v", "vi", "vie", "viet", "việt", "nhà", "ổn"] {
        let owned = ibus_text_owned(text);
        assert_eq!(owned.text, *text, "text field must round-trip for: {text}");
    }
}

#[test]
fn preedit_text_carries_placeholder_over_characters() {
    let t = ibus_preedit_text_owned("việt");
    assert_eq!(t.text, "việt");
    assert_eq!(
        t.attributes,
        vec![IbusAttribute {
            attr_type: IBUS_ATTR_TYPE_NONE,
            value: IBUS_ATTR_UNDERLINE_SINGLE,
            start_index: 0,
            end_index: 4,
        }]
    );
    assert_eq!(ibus_text_value("ab", true).attributes[0].end_index, 2);
    assert!(ibus_text_value("ab", false).attributes.is_empty());
    assert_eq!(ibus_attr_list_value(5).len(), 1);
    assert_eq!(ibus_attr_list_value(5)[0].end_index, 5);
    assert!(ibus_attr_list_empty().is_empty());
}

#[test]
fn test_ibus_component_value_structure() {
    let meta = metadata();
    let val = ibus_component_value("vhttechkey", &meta);
    assert_eq!(val.name, "org.freedesktop.IBus.vhttechkey");
    assert!(val.observed_paths.is_empty());
    assert_eq!(val.engines.len(), 1);
    assert!(val.command_line.is_empty());
    let desc = ibus_engine_desc_value("vhttechkey", &meta);
    assert_eq!(desc.name, "vhttechkey");
    assert_eq!(desc.language, "vi");
    assert!(!desc.setup.is_empty());
    assert_eq!(desc.layout, "default");
    assert_eq!(desc.rank, 99);
    assert_eq!(val.engines[0].name, "vhttechkey");
}

// ── Bus address ──────────────────────────────────────────────────────────────

#[test]
fn display_prefers_non_empty_wayland_display() {
    assert_eq!(ibus_display(Some("wayland-0"), Some(":1")), "wayland-0");
    assert_eq!(ibus_display(Some(""), Some(":1")), ":1");
    assert_eq!(ibus_display(None, Some(":1")), ":1");
    assert_eq!(ibus_display(None, None), ":0");
}

#[test]
fn bus_file_path_cleans_display_and_machine_id() {
    assert_eq!(
        ibus_bus_file_path(":0", "abc123\n", "/home/u"),
        "/home/u/.config/ibus/bus/abc123-unix-0"
    );
    assert_eq!(
        ibus_bus_file_path("wayland-0", " m ", "/h"),
        "/h/.config/ibus/bus/m-unix-wayland-0"
    );
    assert_eq!(ibus_bus_file_path("::host:1.0", "m", "/h"), "/h/.config/ibus/bus/m-unix-host-1.0");
}

#[test]
fn bus_file_address_is_first_address_line() {
    let content = "# comment\nIBUS_ADDRESS=unix:path=/tmp/ibus,guid=1\nIBUS_DAEMON_PID=42\n";
    assert_eq!(address_from_bus_file(content).as_deref(), Some("unix:path=/tmp/ibus,guid=1"));
    assert_eq!(address_from_bus_file("IBUS_DAEMON_PID=1\n"), None);
    assert_eq!(address_from_bus_file("IBUS_ADDRESS=a\r\nIBUS_ADDRESS=b"), Some("a".to_string()));
}

#[test]
fn text_helpers_trim_and_strip() {
    assert_eq!(trim("  x y \n"), "x y");
    assert_eq!(trim(" \t "), "");
    assert_eq!(strip_prefix_str("VmRSS: 1", "VmRSS:").as_deref(), Some(" 1"));
    assert_eq!(strip_prefix_str("Vm", "VmRSS:"), None);
}

// ── Resident memory ──────────────────────────────────────────────────────────

#[test]
fn rss_is_read_from_the_vm_rss_line() {
    let status = "Name:\tvi\nVmPeak:\t  9000 kB\nVmRSS:\t    4321 kB\nThreads:\t1\n";
    assert_eq!(rss_kb_from_status(status), 4321);
    assert_eq!(rss_kb_from_status("Name: x\n"), 0);
    assert_eq!(rss_kb_from_status("VmRSS: lots kB\nVmRSS: 12 kB\n"), 12);
    assert_eq!(rss_kb_from_status(""), 0);
}

#[test]
fn u64_parsing_and_words() {
    assert_eq!(parse_u64("18446744073709551615"), Some(u64::MAX));
    assert_eq!(parse_u64("18446744073709551616"), None);
    assert_eq!(parse_u64("+7"), Some(7));
    assert_eq!(parse_u64("+"), None);
    assert_eq!(parse_u64(""), None);
    assert_eq!(parse_u64("1a"), None);
    assert_eq!(first_word_of("  \t 123 kB"), "123");
    assert_eq!(first_word_of("   "), "");
}
