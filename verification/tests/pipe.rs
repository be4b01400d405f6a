use eink::pipe::{
    incoming_disposition, method, new_request_id, params, pipe_name, reading_light_level,
    runs_handler, service_of, BlockingServer, Disposition, RpcKind, ServiceCall, ServicePipe,
};

#[test]
fn dispositions() {
    assert_eq!(incoming_disposition(RpcKind::Request, true, true), Disposition::SendHandlerReply);
    assert_eq!(incoming_disposition(RpcKind::Request, false, true), Disposition::SendInternalError);
    assert_eq!(incoming_disposition(RpcKind::Request, true, false), Disposition::Nothing);
    assert_eq!(incoming_disposition(RpcKind::Notification, false, true), Disposition::SendInvalidRequest);
    assert_eq!(incoming_disposition(RpcKind::Notification, false, false), Disposition::Nothing);
    assert_eq!(incoming_disposition(RpcKind::Success, true, true), Disposition::ProtocolViolation);
    assert_eq!(incoming_disposition(RpcKind::Error, false, false), Disposition::ProtocolViolation);
    assert!(runs_handler(RpcKind::Request));
    assert!(!runs_handler(RpcKind::Notification));
    let _server = BlockingServer::new();
}

#[test]
fn request_ids_are_uuids_of_the_bytes() {
    let b: [u8; 16] = [0xa0, 0xb1, 0xc2, 0xd3, 0xe4, 0xf5, 0x06, 0x17, 0xc8, 0x29, 0x3a, 0x4b, 0x5c, 0x6d, 0x7e, 0x8f];
    let id = new_request_id(b);
    assert_eq!(id, "a0b1c2d3-e4f5-4617-8829-3a4b5c6d7e8f");
    assert_eq!(id, uuid::Builder::from_random_bytes(b).into_uuid().hyphenated().to_string());
    let r = new_request_id(uuid::Uuid::new_v4().into_bytes());
    let c: Vec<char> = r.chars().collect();
    assert_eq!((c.len(), c[14]), (36, '4'));
    assert!(matches!(c[19], '8' | '9' | 'a' | 'b'));
}

#[test]
fn service_routing() {
    assert_eq!(pipe_name(ServicePipe::Keyboard), "\\\\.\\pipe\\lenovo\\eink-service\\keyboard");
    assert_eq!(pipe_name(ServicePipe::Tcon), "\\\\.\\pipe\\lenovo\\eink-service\\tcon");
    assert_eq!(service_of(ServiceCall::EnableWinKey), ServicePipe::Keyboard);
    assert_eq!(service_of(ServiceCall::ClearAllWindowsTopmost), ServicePipe::Topmost);
    assert_eq!(service_of(ServiceCall::GetReadingLightStatus), ServicePipe::Wmi);
    assert_eq!(service_of(ServiceCall::Refresh), ServicePipe::Tcon);
    assert_eq!(method(ServiceCall::SetWindowTopmost { hwnd: 1 }), "set_window_topmost");
    assert_eq!(method(ServiceCall::AdjustTopmostOnAppLaunched { pid: 1 }), "adjust_topmost_on_app_launched");
}

#[test]
fn call_parameters() {
    assert_eq!(params(ServiceCall::SetWindowTopmost { hwnd: 66 }), "{\"hwnd\":66}");
    assert_eq!(params(ServiceCall::AdjustTopmostOnAppLaunched { pid: -5 }), "{\"pid\":-5}");
    assert_eq!(params(ServiceCall::SetReadingLightStatus { level: 3 }), "{\"level\":3}");
    assert_eq!(params(ServiceCall::SetMipiMode { mode: 240 }), "{\"mode\":240}");
    assert_eq!(params(ServiceCall::DisableWinKey), "{}");
    let v: serde_json::Value = serde_json::from_str(&params(ServiceCall::UnsetWindowTopmost { hwnd: 9 })).unwrap();
    assert_eq!(v["hwnd"], 9);
}

#[test]
fn reading_light_levels() {
    assert_eq!(reading_light_level(Some(5)), 5);
    assert_eq!(reading_light_level(None), u32::MAX);
    assert_eq!(reading_light_level(Some((1u64 << 32) + 7)), 7);
}
