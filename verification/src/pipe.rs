//! The message rules of the named-pipe RPC link and the calls that the
//! service API makes over it.
use vstd::prelude::*;
use crate::text::{decimal, signed_decimal, push_decimal, push_signed_decimal, random_uuid_bytes, random_uuid_text, uuid_text};

verus! {

/// The blocking server end of the link (it keeps no state).
pub struct BlockingServer {}

impl BlockingServer {
    /// A blocking server.
    pub fn new() -> (s: BlockingServer)
        ensures
            s == (BlockingServer {}),
    {
        BlockingServer {}
    }
}

/// The kind of a JSON-RPC message.
#[derive(PartialEq, Eq, Structural, Debug, Clone, Copy)]
pub enum RpcKind {
    Request,
    Notification,
    Success,
    Error,
}

/// What an endpoint does with an incoming message.
#[derive(PartialEq, Eq, Structural, Debug, Clone, Copy)]
pub enum Disposition {
    /// Send the handler's reply back.
    SendHandlerReply,
    /// Send an "internal error" reply carrying the request's id.
    SendInternalError,
    /// Send an "invalid request" reply with id 0.
    SendInvalidRequest,
    /// Send nothing.
    Nothing,
    /// The peer sent a reply on a link that only carries requests and
    /// notifications: the endpoint stops with a panic.
    ProtocolViolation,
}

/// Whether the request handlers run for a message: only requests are handled.
pub fn runs_handler(kind: RpcKind) -> (b: bool)
    ensures
        b == (kind == RpcKind::Request),
{
    kind == RpcKind::Request
}

/// What to do with an incoming message. A request gets the handler's reply,
/// or an internal error when no handler replied; a notification gets an
/// invalid-request error; nothing is sent when the peer gave no reply channel;
/// replies are not expected on this link.
pub open spec fn disposition_spec(kind: RpcKind, handler_replied: bool, has_reply_channel: bool) -> Disposition {
    match kind {
        RpcKind::Request => if !has_reply_channel {
            Disposition::Nothing
        } else if handler_replied {
            Disposition::SendHandlerReply
        } else {
            Disposition::SendInternalError
        },
        RpcKind::Notification => if has_reply_channel {
            Disposition::SendInvalidRequest
        } else {
            Disposition::Nothing
        },
        _ => Disposition::ProtocolViolation,
    }
}

/// What to do with an incoming message.
pub fn incoming_disposition(kind: RpcKind, handler_replied: bool, has_reply_channel: bool) -> (d:
    Disposition)
    ensures
        d == disposition_spec(kind, handler_replied, has_reply_channel),
{
    match kind {
        RpcKind::Request => {
            if !has_reply_channel {
                Disposition::Nothing
            } else if handler_replied {
                Disposition::SendHandlerReply
            } else {
                Disposition::SendInternalError
            }
        },
        RpcKind::Notification => {
            if has_reply_channel {
                Disposition::SendInvalidRequest
            } else {
                Disposition::Nothing
            }
        },
        _ => Disposition::ProtocolViolation,
    }
}

/// Whether a disposition sends a message back.
pub open spec fn sends_reply(d: Disposition) -> bool {
    d == Disposition::SendHandlerReply || d == Disposition::SendInternalError || d
        == Disposition::SendInvalidRequest
}

/// Every request that can be answered gets exactly one answer, the handler's
/// own reply whenever it gave one; nothing is ever sent without a reply
/// channel; and only a reply arriving on the link is a protocol violation.
pub proof fn law_requests_are_answered(kind: RpcKind, handler_replied: bool, has_reply_channel: bool)
    ensures
        kind == RpcKind::Request && has_reply_channel ==> sends_reply(
            disposition_spec(kind, handler_replied, has_reply_channel),
        ),
        kind == RpcKind::Request && has_reply_channel && handler_replied ==> disposition_spec(
            kind,
            handler_replied,
            has_reply_channel,
        ) == Disposition::SendHandlerReply,
        !has_reply_channel ==> !sends_reply(disposition_spec(kind, handler_replied, has_reply_channel)),
        (disposition_spec(kind, handler_replied, has_reply_channel) == Disposition::ProtocolViolation)
            <==> (kind == RpcKind::Success || kind == RpcKind::Error),
{
}

/// The id of an outgoing request: the hyphenated random UUID built from
/// `random_bytes`.
pub fn new_request_id(random_bytes: [u8; 16]) -> (id: String)
    ensures
        id@ == uuid_text(random_uuid_bytes(random_bytes@)),
{
    random_uuid_text(random_bytes)
}

/// The service pipes of the e-ink service.
#[derive(PartialEq, Eq, Structural, Debug, Clone, Copy)]
pub enum ServicePipe {
    Keyboard,
    Topmost,
    Wmi,
    Tcon,
}

/// The pipe path of a service.
pub open spec fn pipe_name_spec(p: ServicePipe) -> Seq<char> {
    match p {
        ServicePipe::Keyboard => "\\\\.\\pipe\\lenovo\\eink-service\\keyboard"@,
        ServicePipe::Topmost => "\\\\.\\pipe\\lenovo\\eink-service\\topmost"@,
        ServicePipe::Wmi => "\\\\.\\pipe\\lenovo\\eink-service\\wmi"@,
        ServicePipe::Tcon => "\\\\.\\pipe\\lenovo\\eink-service\\tcon"@,
    }
}

/// The pipe path of a service.
pub fn pipe_name(p: ServicePipe) -> (s: &'static str)
    ensures
        s@ == pipe_name_spec(p),
{
    match p {
        ServicePipe::Keyboard => "\\\\.\\pipe\\lenovo\\eink-service\\keyboard",
        ServicePipe::Topmost => "\\\\.\\pipe\\lenovo\\eink-service\\topmost",
        ServicePipe::Wmi => "\\\\.\\pipe\\lenovo\\eink-service\\wmi",
        ServicePipe::Tcon => "\\\\.\\pipe\\lenovo\\eink-service\\tcon",
    }
}

/// A call of the service API.
#[derive(PartialEq, Eq, Structural, Debug, Clone, Copy)]
pub enum ServiceCall {
    DisableWinKey,
    EnableWinKey,
    SetWindowTopmost { hwnd: u32 },
    UnsetWindowTopmost { hwnd: u32 },
    ClearAllWindowsTopmost,
    AdjustTopmostOnAppLaunched { pid: isize },
    SetReadingLightStatus { level: u32 },
    GetReadingLightStatus,
    SetMipiMode { mode: u32 },
    Refresh,
}

/// The service that answers a call.
pub open spec fn service_of_spec(c: ServiceCall) -> ServicePipe {
    match c {
        ServiceCall::DisableWinKey | ServiceCall::EnableWinKey => ServicePipe::Keyboard,
        ServiceCall::SetWindowTopmost { .. } | ServiceCall::UnsetWindowTopmost { .. }
        | ServiceCall::ClearAllWindowsTopmost | ServiceCall::AdjustTopmostOnAppLaunched {
            ..
        } => ServicePipe::Topmost,
        ServiceCall::SetReadingLightStatus { .. } | ServiceCall::GetReadingLightStatus => ServicePipe::Wmi,
        ServiceCall::SetMipiMode { .. } | ServiceCall::Refresh => ServicePipe::Tcon,
    }
}

/// The service that answers a call.
pub fn service_of(c: ServiceCall) -> (p: ServicePipe)
    ensures
        p == service_of_spec(c),
{
    match c {
        ServiceCall::DisableWinKey | ServiceCall::EnableWinKey => ServicePipe::Keyboard,
        ServiceCall::SetWindowTopmost { .. } | ServiceCall::UnsetWindowTopmost { .. }
        | ServiceCall::ClearAllWindowsTopmost | ServiceCall::AdjustTopmostOnAppLaunched {
            ..
        } => ServicePipe::Topmost,
        ServiceCall::SetReadingLightStatus { .. } | ServiceCall::GetReadingLightStatus => ServicePipe::Wmi,
        ServiceCall::SetMipiMode { .. } | ServiceCall::Refresh => ServicePipe::Tcon,
    }
}

/// The remote method of a call.
pub open spec fn method_spec(c: ServiceCall) -> Seq<char> {
    match c {
        ServiceCall::DisableWinKey => "disable_win_key"@,
        ServiceCall::EnableWinKey => "enable_win_key"@,
        ServiceCall::SetWindowTopmost { .. } => "set_window_topmost"@,
        ServiceCall::UnsetWindowTopmost { .. } => "unset_window_topmost"@,
        ServiceCall::ClearAllWindowsTopmost => "clear_all_windows_topmost"@,
        ServiceCall::AdjustTopmostOnAppLaunched { .. } => "adjust_topmost_on_app_launched"@,
        ServiceCall::SetReadingLightStatus { .. } => "set_reading_light_status"@,
        ServiceCall::GetReadingLightStatus => "get_reading_light_status"@,
        ServiceCall::SetMipiMode { .. } => "set_mipi_mode"@,
        ServiceCall::Refresh => "refresh"@,
    }
}

/// The remote method of a call.
pub fn method(c: ServiceCall) -> (m: &'static str)
    ensures
        m@ == method_spec(c),
{
    match c {
        ServiceCall::DisableWinKey => "disable_win_key",
        ServiceCall::EnableWinKey => "enable_win_key",
        ServiceCall::SetWindowTopmost { .. } => "set_window_topmost",
        ServiceCall::UnsetWindowTopmost { .. } => "unset_window_topmost",
        ServiceCall::ClearAllWindowsTopmost => "clear_all_windows_topmost",
        ServiceCall::AdjustTopmostOnAppLaunched { .. } => "adjust_topmost_on_app_launched",
        ServiceCall::SetReadingLightStatus { .. } => "set_reading_light_status",
        ServiceCall::GetReadingLightStatus => "get_reading_light_status",
        ServiceCall::SetMipiMode { .. } => "set_mipi_mode",
        ServiceCall::Refresh => "refresh",
    }
}

/// The JSON parameters of a call: an object with the call's one argument, or
/// an empty object.
pub open spec fn params_spec(c: ServiceCall) -> Seq<char> {
    match c {
        ServiceCall::SetWindowTopmost { hwnd } => "{\"hwnd\":"@ + decimal(hwnd as nat) + "}"@,
        ServiceCall::UnsetWindowTopmost { hwnd } => "{\"hwnd\":"@ + decimal(hwnd as nat) + "}"@,
        ServiceCall::AdjustTopmostOnAppLaunched { pid } => "{\"pid\":"@ + signed_decimal(pid as int)
            + "}"@,
        ServiceCall::SetReadingLightStatus { level } => "{\"level\":"@ + decimal(level as nat)
            + "}"@,
        ServiceCall::SetMipiMode { mode } => "{\"mode\":"@ + decimal(mode as nat) + "}"@,
        _ => "{}"@,
    }
}

/// The JSON parameters of a call.
pub fn params(c: ServiceCall) -> (p: String)
    ensures
        p@ == params_spec(c),
{
    let mut p = String::new();
    match c {
        ServiceCall::SetWindowTopmost { hwnd } => {
            p.append("{\"hwnd\":");
            push_decimal(&mut p, hwnd as u64);
            p.append("}");
        },
        ServiceCall::UnsetWindowTopmost { hwnd } => {
            p.append("{\"hwnd\":");
            push_decimal(&mut p, hwnd as u64);
            p.append("}");
        },
        ServiceCall::AdjustTopmostOnAppLaunched { pid } => {
            p.append("{\"pid\":");
            push_signed_decimal(&mut p, pid as i64);
            p.append("}");
        },
        ServiceCall::SetReadingLightStatus { level } => {
            p.append("{\"level\":");
            push_decimal(&mut p, level as u64);
            p.append("}");
        },
        ServiceCall::SetMipiMode { mode } => {
            p.append("{\"mode\":");
            push_decimal(&mut p, mode as u64);
            p.append("}");
        },
        _ => {
            p.append("{}");
        },
    }
    p
}

/// The level an API caller gets from a reading-light query: the number in the
/// reply (cut to 32 bits), or `u32::MAX` when there is no numeric result or no
/// connection.
pub fn reading_light_level(result: Option<u64>) -> (level: u32)
    ensures
        level == match result {
            Some(l) => l as u32,
            None => u32::MAX,
        },
{
    match result {
        Some(l) => l as u32,
        None => u32::MAX,
    }
}


/// The number of a call's kind, one per variant, whatever its arguments.
pub open spec fn call_kind(c: ServiceCall) -> nat {
    match c {
        ServiceCall::DisableWinKey => 0,
        ServiceCall::EnableWinKey => 1,
        ServiceCall::SetWindowTopmost { .. } => 2,
        ServiceCall::UnsetWindowTopmost { .. } => 3,
        ServiceCall::ClearAllWindowsTopmost => 4,
        ServiceCall::AdjustTopmostOnAppLaunched { .. } => 5,
        ServiceCall::SetReadingLightStatus { .. } => 6,
        ServiceCall::GetReadingLightStatus => 7,
        ServiceCall::SetMipiMode { .. } => 8,
        ServiceCall::Refresh => 9,
    }
}

/// Different kinds of call name different remote methods, so no call can be
/// taken by the service for another (disabling the Windows key is never sent
/// as enabling it).
pub proof fn law_methods_tell_calls_apart(c1: ServiceCall, c2: ServiceCall)
    ensures
        call_kind(c1) != call_kind(c2) ==> method_spec(c1) != method_spec(c2),
{
    reveal_strlit("disable_win_key");
    reveal_strlit("enable_win_key");
    reveal_strlit("set_window_topmost");
    reveal_strlit("unset_window_topmost");
    reveal_strlit("clear_all_windows_topmost");
    reveal_strlit("adjust_topmost_on_app_launched");
    reveal_strlit("set_reading_light_status");
    reveal_strlit("get_reading_light_status");
    reveal_strlit("set_mipi_mode");
    reveal_strlit("refresh");
    if call_kind(c1) != call_kind(c2) {
        let m1 = method_spec(c1);
        let m2 = method_spec(c2);
        if m1.len() == m2.len() {
            assert(m1[0] != m2[0] || m1[1] != m2[1]);
        }
    }
}

/// Whether `s` ends with `suffix`.
pub open spec fn ends_with(s: Seq<char>, suffix: Seq<char>) -> bool {
    s.len() >= suffix.len() && s.subrange(s.len() - suffix.len(), s.len() as int) == suffix
}

/// The calls of one service API go over one pipe, the four APIs over four
/// different pipes, each named after its service: the Windows-key calls over
/// the keyboard pipe, the topmost calls over the topmost pipe, both
/// reading-light calls over the WMI pipe and the panel calls over the tcon pipe.
pub proof fn law_calls_go_to_their_service(hwnd: u32, pid: isize, level: u32, mode: u32)
    ensures
        service_of_spec(ServiceCall::DisableWinKey) == service_of_spec(ServiceCall::EnableWinKey),
        service_of_spec(ServiceCall::SetWindowTopmost { hwnd }) == service_of_spec(
            ServiceCall::UnsetWindowTopmost { hwnd },
        ),
        service_of_spec(ServiceCall::SetWindowTopmost { hwnd }) == service_of_spec(
            ServiceCall::ClearAllWindowsTopmost,
        ),
        service_of_spec(ServiceCall::SetWindowTopmost { hwnd }) == service_of_spec(
            ServiceCall::AdjustTopmostOnAppLaunched { pid },
        ),
        service_of_spec(ServiceCall::SetReadingLightStatus { level }) == service_of_spec(
            ServiceCall::GetReadingLightStatus,
        ),
        service_of_spec(ServiceCall::SetMipiMode { mode }) == service_of_spec(ServiceCall::Refresh),
        ends_with(pipe_name_spec(service_of_spec(ServiceCall::DisableWinKey)), "\\keyboard"@),
        ends_with(
            pipe_name_spec(service_of_spec(ServiceCall::SetWindowTopmost { hwnd })),
            "\\topmost"@,
        ),
        ends_with(
            pipe_name_spec(service_of_spec(ServiceCall::SetReadingLightStatus { level })),
            "\\wmi"@,
        ),
        ends_with(pipe_name_spec(service_of_spec(ServiceCall::Refresh)), "\\tcon"@),
        pipe_name_spec(service_of_spec(ServiceCall::DisableWinKey)) != pipe_name_spec(
            service_of_spec(ServiceCall::SetWindowTopmost { hwnd }),
        ),
        pipe_name_spec(service_of_spec(ServiceCall::SetReadingLightStatus { level }))
            != pipe_name_spec(service_of_spec(ServiceCall::SetWindowTopmost { hwnd })),
        pipe_name_spec(service_of_spec(ServiceCall::SetReadingLightStatus { level }))
            != pipe_name_spec(service_of_spec(ServiceCall::Refresh)),
{
    reveal_strlit("\\\\.\\pipe\\lenovo\\eink-service\\keyboard");
    reveal_strlit("\\\\.\\pipe\\lenovo\\eink-service\\topmost");
    reveal_strlit("\\\\.\\pipe\\lenovo\\eink-service\\wmi");
    reveal_strlit("\\\\.\\pipe\\lenovo\\eink-service\\tcon");
    reveal_strlit("\\keyboard");
    reveal_strlit("\\topmost");
    reveal_strlit("\\wmi");
    reveal_strlit("\\tcon");
    let k = pipe_name_spec(service_of_spec(ServiceCall::DisableWinKey));
    let t = pipe_name_spec(service_of_spec(ServiceCall::SetWindowTopmost { hwnd }));
    let w = pipe_name_spec(service_of_spec(ServiceCall::SetReadingLightStatus { level }));
    let c = pipe_name_spec(service_of_spec(ServiceCall::Refresh));
    assert(k.subrange(k.len() - 9, k.len() as int) =~= "\\keyboard"@);
    assert(t.subrange(t.len() - 8, t.len() as int) =~= "\\topmost"@);
    assert(w.subrange(w.len() - 4, w.len() as int) =~= "\\wmi"@);
    assert(c.subrange(c.len() - 5, c.len() as int) =~= "\\tcon"@);
    assert(k.len() != t.len());
    assert(w.len() != t.len());
    assert(w[w.len() - 1] != c[c.len() - 1]);
}

} // verus!
