//! Requests to the indirect display driver: the I/O control code they travel
//! with, their text, and the lookup of the driver's device path.
use vstd::prelude::*;
use crate::text::{decimal, push_decimal};

verus! {

/// Packs a device type, function number, transfer method and access into an
/// I/O control code: device type from bit 16, access from bit 14, function
/// from bit 2, method in the lowest bits.
pub fn ctl_code(device_type: u32, function: u32, method: u32, access: u32) -> (code: u32)
    ensures
        code == ((device_type << 16u32) | (access << 14u32) | (function << 2u32) | method),
{
    (device_type << 16) | (access << 14) | (function << 2) | method
}

/// The fields of a control code, when each fits its bit range, come back out of it.
pub proof fn lemma_ctl_code_fields(device_type: u32, function: u32, method: u32, access: u32)
    requires
        device_type < 0x10000,
        function < 0x1000,
        method < 4,
        access < 4,
    ensures
        ({
            let code = (device_type << 16u32) | (access << 14u32) | (function << 2u32) | method;
            &&& code >> 16u32 == device_type
            &&& (code >> 14u32) & 3 == access
            &&& (code >> 2u32) & 0xFFF == function
            &&& code & 3 == method
            &&& code == device_type * 0x10000 + access * 0x4000 + function * 4 + method
        }),
{
    assert({
        let code = (device_type << 16u32) | (access << 14u32) | (function << 2u32) | method;
        &&& code >> 16u32 == device_type
        &&& (code >> 14u32) & 3 == access
        &&& (code >> 2u32) & 0xFFF == function
        &&& code & 3 == method
        &&& code == device_type * 0x10000 + access * 0x4000 + function * 4 + method
    }) by (bit_vector)
        requires
            device_type < 0x10000,
            function < 0x1000,
            method < 4,
            access < 4,
    ;
}

/// Device type of bus extenders.
pub const FILE_DEVICE_BUS_EXTENDER: u32 = 0x2a;
/// Buffered transfer.
pub const METHOD_BUFFERED: u32 = 0;
/// Direct transfer without buffering.
pub const METHOD_NEITHER: u32 = 3;
/// No access check.
pub const FILE_ANY_ACCESS: u32 = 0;
/// Read access.
pub const FILE_READ_ACCESS: u32 = 1;
/// Write access.
pub const FILE_WRITE_ACCESS: u32 = 2;
/// Device type of the display filter driver.
pub const DISP_FILTER_DEVICE: u32 = 0x8000;

/// The control code that carries requests to the indirect display driver.
pub fn iddcx_request_ioctl() -> (code: u32)
    ensures
        code == 0x2A_C000,
{
    let code = ctl_code(
        FILE_DEVICE_BUS_EXTENDER,
        0,
        METHOD_BUFFERED,
        FILE_ANY_ACCESS | FILE_READ_ACCESS | FILE_WRITE_ACCESS,
    );
    proof {
        lemma_ctl_code_fields(0x2a, 0, 0, 3);
    }
    assert(0u32 | 1u32 | 2u32 == 3u32) by (bit_vector);
    code
}

/// The control code that enables the display filter driver.
pub fn disp_filter_enable_ioctl() -> (code: u32)
    ensures
        code == 0x8000_E003,
{
    let code = ctl_code(
        DISP_FILTER_DEVICE,
        0x800,
        METHOD_NEITHER,
        FILE_WRITE_ACCESS | FILE_READ_ACCESS,
    );
    assert(2u32 | 1u32 == 3u32) by (bit_vector);
    assert((0x8000u32 << 16u32) | (3u32 << 14u32) | (0x800u32 << 2u32) | 3u32 == 0x8000_E003u32)
        by (bit_vector);
    code
}

/// A request to the indirect display driver.
#[derive(PartialEq, Eq, Structural, Debug, Clone, Copy)]
pub enum IddcxRequest {
    /// Adds a virtual monitor with one display mode.
    AddMonitor { width: u32, height: u32 },
    /// Removes a virtual monitor.
    RemoveMonitor { monitor_id: u32 },
}

/// The JSON text of a request, keys in sorted order and without spaces.
pub open spec fn request_text_spec(req: IddcxRequest) -> Seq<char> {
    match req {
        IddcxRequest::AddMonitor { width, height } => "{\"method\":\"add_monitor\",\"params\":{\"modes\":[{\"height\":"@
            + decimal(height as nat) + ",\"width\":"@ + decimal(width as nat) + "}]}}"@,
        IddcxRequest::RemoveMonitor { monitor_id } => "{\"method\":\"remove_monitor\",\"monitor_id\":"@
            + decimal(monitor_id as nat) + "}"@,
    }
}

/// The JSON text of a request.
pub fn request_text(req: IddcxRequest) -> (text: String)
    ensures
        text@ == request_text_spec(req),
{
    let mut text = String::new();
    match req {
        IddcxRequest::AddMonitor { width, height } => {
            text.append("{\"method\":\"add_monitor\",\"params\":{\"modes\":[{\"height\":");
            push_decimal(&mut text, height as u64);
            text.append(",\"width\":");
            push_decimal(&mut text, width as u64);
            text.append("}]}}");
        },
        IddcxRequest::RemoveMonitor { monitor_id } => {
            text.append("{\"method\":\"remove_monitor\",\"monitor_id\":");
            push_decimal(&mut text, monitor_id as u64);
            text.append("}");
        },
    }
    text
}

/// The UTF-16 code units of one character: one unit in the basic plane, a
/// surrogate pair above it.
pub open spec fn utf16_of_char(c: char) -> Seq<u16> {
    let v = c as u32;
    if v < 0x10000 {
        seq![v as u16]
    } else {
        let w = v - 0x10000;
        seq![(0xD800 + w / 1024) as u16, (0xDC00 + w % 1024) as u16]
    }
}

/// The UTF-16 code units of a text.
pub open spec fn utf16_encode(s: Seq<char>) -> Seq<u16>
    decreases s.len(),
{
    if s.len() == 0 {
        Seq::empty()
    } else {
        utf16_encode(s.drop_last()) + utf16_of_char(s.last())
    }
}

/// The UTF-16 code units of a text (`str::encode_utf16`).
pub fn utf16_units(s: &str) -> (units: Vec<u16>)
    ensures
        units@ == utf16_encode(s@),
{
    let n = s.unicode_len();
    let mut units: Vec<u16> = Vec::new();
    let mut i: usize = 0;
    while i < n
        invariant
            0 <= i <= n,
            n == s@.len(),
            units@ == utf16_encode(s@.take(i as int)),
        decreases n - i,
    {
        let c = s.get_char(i);
        let v = c as u32;
        if v < 0x10000 {
            units.push(v as u16);
        } else {
            let w = v - 0x10000;
            assert(w < 0x100000);
            units.push((0xD800 + w / 1024) as u16);
            units.push((0xDC00 + w % 1024) as u16);
        }
        proof {
            assert(s@.take(i + 1).drop_last() == s@.take(i as int));
            assert(s@.take(i + 1).last() == c);
            assert(units@ =~= utf16_encode(s@.take(i as int)) + utf16_of_char(c));
        }
        i = i + 1;
    }
    proof {
        assert(s@.take(n as int) == s@);
    }
    units
}

/// The UTF-16 units of a request, as they are sent to the driver.
pub fn request_units(req: IddcxRequest) -> (units: Vec<u16>)
    ensures
        units@ == utf16_encode(request_text_spec(req)),
{
    let text = request_text(req);
    utf16_units(text.as_str())
}

/// Number of times the driver's device path is looked up before giving up.
pub const LOOKUP_ATTEMPTS: u32 = 10;

/// What to do after one lookup of the driver's device path.
pub enum LookupStep {
    /// The path was found.
    Found(String),
    /// Not found: pause, then look again.
    PauseAndRetry,
    /// Not found for the last time: pause, then report that the path cannot be found.
    PauseAndGiveUp,
}

/// The state of a repeated lookup of the driver's device path.
#[derive(PartialEq, Eq, Structural, Debug, Clone, Copy)]
pub struct DevicePathLookup {
    pub failures: u32,
}

impl DevicePathLookup {
    /// A lookup that has not failed yet.
    pub fn new() -> (l: DevicePathLookup)
        ensures
            l.failures == 0,
    {
        DevicePathLookup { failures: 0 }
    }

    /// Handles the outcome of one lookup.
    pub fn on_attempt(&mut self, found: Option<String>) -> (step: LookupStep)
        requires
            old(self).failures < LOOKUP_ATTEMPTS,
        ensures
            match found {
                Some(p) => step matches LookupStep::Found(q) && q@ == p@ && final(self).failures
                    == old(self).failures,
                None => {
                    &&& final(self).failures == old(self).failures + 1
                    &&& if final(self).failures < LOOKUP_ATTEMPTS {
                        step is PauseAndRetry
                    } else {
                        step is PauseAndGiveUp
                    }
                },
            },
    {
        match found {
            Some(p) => LookupStep::Found(p),
            None => {
                self.failures = self.failures + 1;
                if self.failures < LOOKUP_ATTEMPTS {
                    LookupStep::PauseAndRetry
                } else {
                    LookupStep::PauseAndGiveUp
                }
            },
        }
    }
}

} // verus!
