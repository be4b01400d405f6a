use eink::iddcx::{
    ctl_code, disp_filter_enable_ioctl, iddcx_request_ioctl, request_text, request_units,
    utf16_units, DevicePathLookup, IddcxRequest, LookupStep, LOOKUP_ATTEMPTS,
};

#[test]
fn control_codes() {
    assert_eq!(iddcx_request_ioctl(), 0x2A_C000);
    assert_eq!(disp_filter_enable_ioctl(), 0x8000_E003);
    assert_eq!(ctl_code(0x22, 0x800, 0, 0), 0x0022_2000);
    assert_eq!(ctl_code(0x2a, 1, 2, 1), 0x002A_4006);
}

#[test]
fn request_texts() {
    assert_eq!(
        request_text(IddcxRequest::AddMonitor { width: 2560, height: 1600 }),
        "{\"method\":\"add_monitor\",\"params\":{\"modes\":[{\"height\":1600,\"width\":2560}]}}"
    );
    assert_eq!(
        request_text(IddcxRequest::RemoveMonitor { monitor_id: 3 }),
        "{\"method\":\"remove_monitor\",\"monitor_id\":3}"
    );
}

#[test]
fn request_text_is_json_with_sorted_keys() {
    let text = request_text(IddcxRequest::AddMonitor { width: 1920, height: 1080 });
    let parsed: serde_json::Value = serde_json::from_str(&text).unwrap();
    assert_eq!(serde_json::to_string(&parsed).unwrap(), text);
    assert_eq!(parsed["params"]["modes"][0]["width"], 1920);
}

#[test]
fn request_units_are_utf16() {
    let req = IddcxRequest::RemoveMonitor { monitor_id: 12 };
    let expected: Vec<u16> = request_text(req).encode_utf16().collect();
    assert_eq!(request_units(req), expected);
    assert_eq!(utf16_units("aé"), vec![0x61, 0xE9]);
    assert_eq!(utf16_units("a\u{1F600}"), vec![0x61, 0xD83D, 0xDE00]);
    let text = "x\u{10FFFF}\u{FFFF}\u{10000}";
    assert_eq!(utf16_units(text), text.encode_utf16().collect::<Vec<u16>>());
}

#[test]
fn lookup_gives_up_after_ten_failures() {
    let mut l = DevicePathLookup::new();
    for _ in 1..LOOKUP_ATTEMPTS {
        assert!(matches!(l.on_attempt(None), LookupStep::PauseAndRetry));
    }
    assert!(matches!(l.on_attempt(None), LookupStep::PauseAndGiveUp));
    assert_eq!(l.failures, 10);
}

#[test]
fn lookup_reports_found_path() {
    let mut l = DevicePathLookup::new();
    assert!(matches!(l.on_attempt(None), LookupStep::PauseAndRetry));
    match l.on_attempt(Some("\\\\?\\root#iddcx".to_string())) {
        LookupStep::Found(p) => assert_eq!(p, "\\\\?\\root#iddcx"),
        _ => panic!("expected the path"),
    }
    assert_eq!(l.failures, 1);
}
