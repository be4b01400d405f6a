//! Frame pacing of the display output: which buffer is scanned out next,
//! which fence value a frame signals, and which colour channel the animated
//! clear colour lights; shader definitions and the names of display-manager
//! outcomes.
use vstd::prelude::*;
use vstd::string::StringSliceAdditionalSpecFns;

verus! {

/// Number of buffers the display output cycles through.
pub const SURFACE_COUNT: usize = 2;

/// Frames per step of the animated clear colour.
pub const FRAMES_PER_COLOUR: u64 = 30;

/// The colour channel (0 red, 1 green, 2 blue) lit at frame `frame_count`:
/// each channel stays lit for thirty frames, in turn.
pub open spec fn lit_channel_spec(frame_count: u64) -> usize {
    ((frame_count / 30) % 3) as usize
}

/// The colour channel lit at frame `frame_count`.
pub fn lit_channel(frame_count: u64) -> (c: usize)
    ensures
        c == lit_channel_spec(frame_count),
        c < 3,
{
    ((frame_count / FRAMES_PER_COLOUR) % 3) as usize
}

/// A preprocessor definition handed to the shader compiler.
#[derive(Clone, Debug)]
pub struct ShaderMacro<'a, 'b> {
    pub name: &'a str,
    pub definition: &'b str,
}

/// The bytes of a C string holding `s`: its UTF-8 bytes and a closing NUL.
pub open spec fn c_string_bytes(s: &str) -> Seq<u8> {
    s.spec_bytes().push(0u8)
}

/// The UTF-8 bytes of `s` followed by a NUL byte.
fn c_string(s: &str) -> (v: Vec<u8>)
    ensures
        v@ == c_string_bytes(s),
{
    let b = s.as_bytes();
    let mut v: Vec<u8> = Vec::new();
    let mut i: usize = 0;
    while i < b.len()
        invariant
            0 <= i <= b@.len(),
            b@ == s.spec_bytes(),
            v@ == b@.take(i as int),
        decreases b@.len() - i,
    {
        v.push(b[i]);
        proof {
            assert(b@.take(i + 1) == b@.take(i as int).push(b@[i as int]));
        }
        i = i + 1;
    }
    v.push(0u8);
    proof {
        assert(b@.take(b@.len() as int) == b@);
    }
    v
}

impl<'a, 'b> ShaderMacro<'a, 'b> {
    /// The definition of `name` as `definition`.
    pub fn new(name: &'a str, definition: &'b str) -> (m: Self)
        ensures
            m.name@ == name@,
            m.definition@ == definition@,
    {
        ShaderMacro { name, definition }
    }

    /// The name and the definition as NUL-terminated C strings; neither may
    /// hold a NUL byte of its own.
    pub fn to_c_strings(&self) -> (c: (Vec<u8>, Vec<u8>))
        requires
            !self.name.spec_bytes().contains(0u8),
            !self.definition.spec_bytes().contains(0u8),
        ensures
            c.0@ == c_string_bytes(self.name),
            c.1@ == c_string_bytes(self.definition),
    {
        (c_string(self.name), c_string(self.definition))
    }
}

/// Marker of the input-layout objects of a graphics device.
pub trait IInputLayout {}

/// Settings of a display path beyond those the display API offers directly.
pub trait DisplayPathExt {
    /// Turns interlaced scan-out of the path on or off; an error carries the
    /// status code of the display API.
    fn set_is_interlaced(&self, is_interlaced: bool) -> Result<(), i32>;
}

/// The outcome of a request to the display manager.
#[derive(PartialEq, Eq, Structural, Debug, Clone, Copy)]
pub enum DisplayManagerResult {
    Success,
    UnknownFailure,
    TargetAccessDenied,
    TargetStale,
    RemoteSessionNotSupported,
}

/// The name of a display-manager outcome.
pub open spec fn display_manager_result_name(result: DisplayManagerResult) -> Seq<char> {
    match result {
        DisplayManagerResult::Success => "Success"@,
        DisplayManagerResult::TargetAccessDenied => "TargetAccessDenied"@,
        DisplayManagerResult::TargetStale => "TargetStale"@,
        DisplayManagerResult::RemoteSessionNotSupported => "RemoteSessionNotSupported"@,
        DisplayManagerResult::UnknownFailure => "UnknownFailure"@,
    }
}

/// The name of a display-manager outcome, for messages.
pub fn display_manager_result_to_string(result: DisplayManagerResult) -> (s: &'static str)
    ensures
        s@ == display_manager_result_name(result),
{
    match result {
        DisplayManagerResult::Success => "Success",
        DisplayManagerResult::TargetAccessDenied => "TargetAccessDenied",
        DisplayManagerResult::TargetStale => "TargetStale",
        DisplayManagerResult::RemoteSessionNotSupported => "RemoteSessionNotSupported",
        DisplayManagerResult::UnknownFailure => "UnknownFailure",
    }
}

/// Whether a display target is the e-ink panel, by its stable monitor id.
pub fn is_eink_target(id: &str) -> (b: bool)
    ensures
        b == (id@ == "GBR01560_21_07E3_EF"@),
{
    let expected = "GBR01560_21_07E3_EF";
    proof {
        reveal_strlit("GBR01560_21_07E3_EF");
    }
    let n = id.unicode_len();
    if n != expected.unicode_len() {
        return false;
    }
    let mut i: usize = 0;
    while i < n
        invariant
            0 <= i <= n,
            n == id@.len(),
            n == expected@.len(),
            expected@ == "GBR01560_21_07E3_EF"@,
            forall|j: int| 0 <= j < i ==> id@[j] == expected@[j],
        decreases n - i,
    {
        if id.get_char(i) != expected.get_char(i) {
            return false;
        }
        i = i + 1;
    }
    proof {
        assert(id@ =~= expected@);
    }
    true
}

/// Whether a vertical sync rate `num / den` is 60 Hz, in whole hertz.
pub fn is_sixty_hz(num: u32, den: u32) -> (b: bool)
    requires
        den > 0,
    ensures
        b == (num / den == 60),
{
    num / den == 60
}

/// Whether every mode before position `k` has a non-zero denominator and is
/// not a 60 Hz mode: reading the rates in order gets past them to `k`.
pub open spec fn modes_passed(rates: Seq<(u32, u32)>, k: int) -> bool {
    forall|j: int| 0 <= j < k ==> #[trigger] passed_over(rates[j])
}

/// A rate with a non-zero denominator that is not 60 Hz in whole hertz.
pub open spec fn passed_over(rate: (u32, u32)) -> bool {
    rate.1 > 0 && rate.0 / rate.1 != 60
}

/// Every rate that is read, in order up to the first 60 Hz mode, has a
/// non-zero denominator.
pub open spec fn rates_readable(rates: Seq<(u32, u32)>) -> bool {
    forall|k: int| 0 <= k < rates.len() && #[trigger] modes_passed(rates, k) ==> rates[k].1 > 0
}

/// The first of the offered display modes, given by their vertical sync
/// rates, that runs at 60 Hz in whole hertz; the rates are read in order up
/// to that mode.
pub fn first_sixty_hz_mode(rates: &Vec<(u32, u32)>) -> (r: Option<usize>)
    requires
        rates_readable(rates@),
    ensures
        match r {
            Some(i) => {
                &&& i < rates@.len()
                &&& modes_passed(rates@, i as int)
                &&& rates@[i as int].1 > 0
                &&& rates@[i as int].0 / rates@[i as int].1 == 60
            },
            None => modes_passed(rates@, rates@.len() as int),
        },
{
    let mut i: usize = 0;
    while i < rates.len()
        invariant
            0 <= i <= rates@.len(),
            rates_readable(rates@),
            modes_passed(rates@, i as int),
        decreases rates@.len() - i,
    {
        let (num, den) = rates[i];
        assert(modes_passed(rates@, i as int));
        assert(den > 0);
        if is_sixty_hz(num, den) {
            return Some(i);
        }
        proof {
            assert(passed_over(rates@[i as int]));
            assert forall|j: int| 0 <= j < i + 1 implies #[trigger] passed_over(rates@[j]) by {
                if j < i {
                    assert(modes_passed(rates@, i as int));
                }
            }
        }
        i = i + 1;
    }
    None
}

/// How the system uses a monitor.
#[derive(PartialEq, Eq, Structural, Debug, Clone, Copy)]
pub enum MonitorUsageKind {
    Standard,
    HeadMounted,
    SpecialPurpose,
}

/// Whether a monitor must first be marked special-purpose before the display
/// output may drive it: every monitor that is not special-purpose yet.
pub fn needs_specialization(kind: MonitorUsageKind) -> (b: bool)
    ensures
        b == (kind != MonitorUsageKind::SpecialPurpose),
{
    !matches!(kind, MonitorUsageKind::SpecialPurpose)
}

/// Whether the display output may go on after asking for its target: not
/// when access to the target was denied (the output then stops).
pub fn target_acquired(result: DisplayManagerResult) -> (b: bool)
    ensures
        b == (result != DisplayManagerResult::TargetAccessDenied),
{
    !matches!(result, DisplayManagerResult::TargetAccessDenied)
}

/// Why a display operation failed.
#[derive(PartialEq, Eq, Structural, Debug, Clone, Copy)]
pub enum DisplayError {
    /// Fewer buffers were given than the output cycles through.
    MissingSurface,
}

/// Status codes are not inspected: every status is accepted.
pub fn check_hresult(hr: i32) -> (r: Result<(), DisplayError>)
    ensures
        r is Ok,
{
    Ok(())
}

/// What one present does: the fence value to signal and wait for, and the
/// buffer to scan out.
#[derive(PartialEq, Eq, Structural, Debug, Clone, Copy)]
pub struct PresentStep {
    pub fence_value: u64,
    pub scanout_index: usize,
}

/// The counters after a present and what the present does: the fence value
/// goes up by one, the current buffer is scanned out and the next buffer (in
/// turn) becomes current.
pub open spec fn present_spec(c: PresentCycle) -> (PresentCycle, PresentStep) {
    let fence_value = (c.fence_value + 1) as u64;
    (
        PresentCycle {
            fence_value,
            frame_count: c.frame_count,
            surface_index: ((c.surface_index + 1) % (SURFACE_COUNT as int)) as usize,
        },
        PresentStep { fence_value, scanout_index: c.surface_index },
    )
}

/// Presenting twice scans out both buffers, one after the other, comes back
/// to the buffer it started from, and signals two consecutive fence values.
pub proof fn law_buffers_alternate(c: PresentCycle)
    requires
        c.wf(),
        c.fence_value < u64::MAX - 1,
    ensures
        ({
            let (c1, s1) = present_spec(c);
            let (c2, s2) = present_spec(c1);
            &&& c1.wf() && c2.wf()
            &&& s1.scanout_index != s2.scanout_index
            &&& c2.surface_index == c.surface_index
            &&& s1.fence_value == c.fence_value + 1
            &&& s2.fence_value == s1.fence_value + 1
        }),
{
}

/// The counters after `n` presents starting from `c`.
pub open spec fn presents(c: PresentCycle, n: nat) -> PresentCycle
    decreases n,
{
    if n == 0 {
        c
    } else {
        present_spec(presents(c, (n - 1) as nat)).0
    }
}

/// From a new cycle, the `n`-th present signals fence value `n` and scans
/// out buffer `(n - 1) % 2`; after it the fence value is `n` and buffer
/// `n % 2` is current.
pub proof fn law_presents_from_new(n: nat)
    requires
        n <= u64::MAX,
    ensures
        ({
            let c0 = PresentCycle { fence_value: 0, frame_count: 0, surface_index: 0 };
            &&& presents(c0, n) == PresentCycle {
                fence_value: n as u64,
                frame_count: 0,
                surface_index: (n % 2) as usize,
            }
            &&& n > 0 ==> present_spec(presents(c0, (n - 1) as nat)).1 == PresentStep {
                fence_value: n as u64,
                scanout_index: ((n - 1) % 2) as usize,
            }
        }),
    decreases n,
{
    if n > 0 {
        law_presents_from_new((n - 1) as nat);
    }
}

/// The fence value and frame count of a renderer after `n` renders, starting
/// from `fence` and `frames`: each render raises both by one.
pub open spec fn renders(fence: u64, frames: u64, n: nat) -> (u64, u64)
    decreases n,
{
    if n == 0 {
        (fence, frames)
    } else {
        let (f, r) = renders(fence, frames, (n - 1) as nat);
        ((f + 1) as u64, (r + 1) as u64)
    }
}

/// From a new renderer, the `n`-th render returns fence value `n` and lights
/// the channel of frame `n`: successive renders return 1, 2, 3, ...
pub proof fn law_renders_from_new(n: nat)
    requires
        n <= u64::MAX,
    ensures
        renders(0, 0, n) == (n as u64, n as u64),
        n > 0 ==> (RenderStep {
            fence_value: renders(0, 0, n).0,
            lit_channel: lit_channel_spec(renders(0, 0, n).1),
        }) == (RenderStep { fence_value: n as u64, lit_channel: lit_channel_spec(n as u64) }),
    decreases n,
{
    if n > 0 {
        law_renders_from_new((n - 1) as nat);
    }
}

/// The counters of a display output that presents buffers in turn.
#[derive(PartialEq, Eq, Structural, Debug, Clone, Copy)]
pub struct PresentCycle {
    pub fence_value: u64,
    pub frame_count: u64,
    pub surface_index: usize,
}

impl PresentCycle {
    /// The buffer index stays within the buffers.
    pub open spec fn wf(&self) -> bool {
        self.surface_index < SURFACE_COUNT
    }

    /// Counters before the first frame.
    pub fn new() -> (c: PresentCycle)
        ensures
            c.wf(),
            c == (PresentCycle { fence_value: 0, frame_count: 0, surface_index: 0 }),
    {
        PresentCycle { fence_value: 0, frame_count: 0, surface_index: 0 }
    }

    /// The buffer to draw into.
    pub fn render_target_index(&self) -> (i: usize)
        requires
            self.wf(),
        ensures
            i == self.surface_index,
            i < SURFACE_COUNT,
    {
        self.surface_index
    }

    /// Counts a frame before it is drawn; with the test background on, it
    /// gives the colour channel to light (the others stay dark).
    pub fn pre_present(&mut self, test_background: bool) -> (lit: Option<usize>)
        requires
            old(self).wf(),
            old(self).frame_count < u64::MAX,
        ensures
            final(self).wf(),
            *final(self) == (PresentCycle {
                frame_count: (old(self).frame_count + 1) as u64,
                ..*old(self)
            }),
            lit == if test_background {
                Some(lit_channel_spec(final(self).frame_count))
            } else {
                None
            },
    {
        self.frame_count = self.frame_count + 1;
        if test_background {
            Some(lit_channel(self.frame_count))
        } else {
            None
        }
    }

    /// Presents the current buffer: signals the next fence value, scans the
    /// buffer out, and moves on to the next buffer.
    pub fn present(&mut self) -> (step: PresentStep)
        requires
            old(self).wf(),
            old(self).fence_value < u64::MAX,
        ensures
            final(self).wf(),
            (*final(self), step) == present_spec(*old(self)),
    {
        self.fence_value = self.fence_value + 1;
        let scanout_index = self.surface_index;
        self.surface_index = self.surface_index + 1;
        if self.surface_index >= SURFACE_COUNT {
            self.surface_index = 0;
        }
        PresentStep { fence_value: self.fence_value, scanout_index }
    }
}

/// What one rendered frame signals and lights.
#[derive(PartialEq, Eq, Structural, Debug, Clone, Copy)]
pub struct RenderStep {
    pub fence_value: u64,
    pub lit_channel: usize,
}

/// A renderer that draws into the display buffers; `S` are the graphics
/// objects of one buffer.
pub struct D3D11Renderer<S> {
    surfaces: Vec<S>,
    fence_value: u64,
    frame_count: u64,
}

impl<S> D3D11Renderer<S> {
    /// The buffers opened so far.
    pub closed spec fn surfaces(&self) -> Seq<S> {
        self.surfaces@
    }

    /// The last fence value signalled.
    pub closed spec fn fence(&self) -> u64 {
        self.fence_value
    }

    /// The number of frames rendered.
    pub closed spec fn frames(&self) -> u64 {
        self.frame_count
    }

    /// A renderer without buffers, before the first frame.
    pub fn new() -> (r: D3D11Renderer<S>)
        ensures
            r.surfaces() == Seq::<S>::empty(),
            r.fence() == 0,
            r.frames() == 0,
    {
        D3D11Renderer { surfaces: Vec::new(), fence_value: 0, frame_count: 0 }
    }

    /// Prepares the layers drawn on top of the clear colour (there are none).
    pub fn init_layers(&mut self) -> (r: Result<(), DisplayError>)
        ensures
            r is Ok,
            final(self).surfaces() == old(self).surfaces(),
            final(self).fence() == old(self).fence(),
            final(self).frames() == old(self).frames(),
    {
        Ok(())
    }

    /// Takes the first `SURFACE_COUNT` buffers, in order.
    pub fn open_surfaces(&mut self, surfaces: Vec<S>) -> (r: Result<(), DisplayError>)
        ensures
            surfaces@.len() < SURFACE_COUNT ==> r == Err::<(), DisplayError>(
                DisplayError::MissingSurface,
            ) && final(self).surfaces() == old(self).surfaces(),
            surfaces@.len() >= SURFACE_COUNT ==> r is Ok && final(self).surfaces() == old(
                self,
            ).surfaces() + surfaces@.take(SURFACE_COUNT as int),
            final(self).fence() == old(self).fence(),
            final(self).frames() == old(self).frames(),
    {
        if surfaces.len() < SURFACE_COUNT {
            return Err(DisplayError::MissingSurface);
        }
        let mut rest = surfaces;
        let first = rest.remove(0);
        let second = rest.remove(0);
        self.surfaces.push(first);
        self.surfaces.push(second);
        assert(self.surfaces@ =~= old(self).surfaces@ + surfaces@.take(SURFACE_COUNT as int));
        Ok(())
    }

    /// The graphics objects of buffer `i`.
    pub fn surface(&self, i: usize) -> (s: &S)
        requires
            i < self.surfaces().len(),
        ensures
            *s == self.surfaces()[i as int],
    {
        &self.surfaces[i]
    }

    /// Renders a frame into buffer `surface_index`: counts the frame, gives the
    /// channel its clear colour lights and the next fence value to signal.
    pub fn render_and_get_fence_value(&mut self, surface_index: usize) -> (step: RenderStep)
        requires
            surface_index < old(self).surfaces().len(),
            old(self).frames() < u64::MAX,
            old(self).fence() < u64::MAX,
        ensures
            final(self).surfaces() == old(self).surfaces(),
            final(self).frames() == old(self).frames() + 1,
            final(self).fence() == old(self).fence() + 1,
            step == (RenderStep {
                fence_value: final(self).fence(),
                lit_channel: lit_channel_spec(final(self).frames()),
            }),
    {
        self.frame_count = self.frame_count + 1;
        let lit = lit_channel(self.frame_count);
        self.fence_value = self.fence_value + 1;
        RenderStep { fence_value: self.fence_value, lit_channel: lit }
    }
}

} // verus!
