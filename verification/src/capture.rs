//! Decisions of the screen capturer: which source to capture, which windows
//! match a query, how the user's choice is read, and what each captured frame
//! asks of the compositor.
use vstd::prelude::*;
use crate::text::{decimal, digit_char, push_char};
use vstd::string::StringSliceAdditionalSpecFns;
use vstd::utf8::{decode_utf8, encode_utf8_decode_utf8, valid_utf8};

verus! {

/// Command-line options of the capturer.
pub struct Args {
    /// Capture the window with this handle.
    pub window_id: Option<isize>,
    /// Capture the window whose title matches this query.
    pub window_title: Option<String>,
    /// Capture the monitor with this number (numbers start at 1).
    pub monitor: Option<usize>,
    /// Capture the primary monitor (also the default).
    pub primary: bool,
    /// Target position.
    pub x: Option<i32>,
    pub y: Option<i32>,
}

/// What the capturer captures.
pub enum CaptureMode {
    WindowId(isize),
    WindowTitle(String),
    Monitor(usize),
    Primary,
}

impl CaptureMode {
    /// A window handle wins over a title, a title over a monitor number, and
    /// without any of them the primary monitor is captured.
    pub fn from_args(args: &Args) -> (mode: CaptureMode)
        ensures
            match args.window_id {
                Some(id) => mode == CaptureMode::WindowId(id),
                None => match args.window_title {
                    Some(t) => mode matches CaptureMode::WindowTitle(q) && q@ == t@,
                    None => match args.monitor {
                        Some(m) => mode == CaptureMode::Monitor(m),
                        None => mode is Primary,
                    },
                },
            },
    {
        if let Some(window_id) = &args.window_id {
            CaptureMode::WindowId(*window_id)
        } else if let Some(window_query) = &args.window_title {
            CaptureMode::WindowTitle(window_query.clone())
        } else if let Some(index) = &args.monitor {
            CaptureMode::Monitor(*index)
        } else {
            CaptureMode::Primary
        }
    }
}

/// How far the size check of a window of a launched program has come.
#[derive(PartialEq, Eq, Structural, Debug, Clone, Copy)]
pub enum SizeCheck {
    /// The size is read for the first time.
    First,
    /// The size is read again to confirm it.
    Confirm,
}

/// What to do after reading the size of a window of a launched program.
#[derive(PartialEq, Eq, Structural, Debug, Clone, Copy)]
pub enum LaunchStep {
    /// Pause this many milliseconds, then go on with the next new window.
    NextWindow { pause_ms: u64 },
    /// The size may not be stable yet: pause this many milliseconds, then read it again.
    Confirm { pause_ms: u64 },
    /// Capture this window.
    Accept,
}

/// A size reading of a new window: a failed reading or a size of zero by
/// zero passes on to the next window after 10 ms; a first usable size is read
/// again after 100 ms; a second usable size accepts the window.
pub fn on_size_poll(state: SizeCheck, size: Option<(i32, i32)>) -> (step: LaunchStep)
    ensures
        step == match size {
            None => LaunchStep::NextWindow { pause_ms: 10 },
            Some((w, h)) => if w == 0 && h == 0 {
                LaunchStep::NextWindow { pause_ms: 10 }
            } else {
                match state {
                    SizeCheck::First => LaunchStep::Confirm { pause_ms: 100 },
                    SizeCheck::Confirm => LaunchStep::Accept,
                }
            },
        },
{
    match size {
        None => LaunchStep::NextWindow { pause_ms: 10 },
        Some((w, h)) => {
            if !capture_size_usable(w, h) {
                LaunchStep::NextWindow { pause_ms: 10 }
            } else {
                match state {
                    SizeCheck::First => LaunchStep::Confirm { pause_ms: 100 },
                    SizeCheck::Confirm => LaunchStep::Accept,
                }
            }
        },
    }
}

/// Pause in milliseconds between two sweeps over the windows of a launched program.
pub const LAUNCH_SWEEP_PAUSE_MS: u64 = 1;

/// Whether a launched program has had its time to show a window: the wait
/// ends once more than ten seconds (`secs` whole seconds and `nanos`
/// nanoseconds) have passed since the launch.
pub fn launch_timed_out(secs: u64, nanos: u32) -> (b: bool)
    ensures
        b == (secs > 10 || (secs == 10 && nanos > 0)),
{
    secs > 10 || (secs == 10 && nanos > 0)
}

/// Why a monitor number was refused.
#[derive(PartialEq, Eq, Structural, Debug, Clone, Copy)]
pub enum MonitorSelectError {
    /// Monitor numbers start with 1.
    IdStartsWithOne,
    /// There are fewer monitors than the number given.
    IdTooHigh,
}

/// The index of monitor number `id` among `display_count` monitors.
pub fn monitor_index(id: usize, display_count: usize) -> (r: Result<usize, MonitorSelectError>)
    ensures
        id == 0 ==> r == Err::<usize, MonitorSelectError>(MonitorSelectError::IdStartsWithOne),
        id > 0 && id - 1 >= display_count ==> r == Err::<usize, MonitorSelectError>(
            MonitorSelectError::IdTooHigh,
        ),
        id > 0 && id - 1 < display_count ==> r == Ok::<usize, MonitorSelectError>(
            (id - 1) as usize,
        ),
{
    if id == 0 {
        return Err(MonitorSelectError::IdStartsWithOne);
    }
    let index = id - 1;
    if index >= display_count {
        return Err(MonitorSelectError::IdTooHigh);
    }
    Ok(index)
}

/// The window style bit of a visible window.
pub const WS_VISIBLE: u32 = 0x1000_0000;

/// Whether a window style has the visible bit set.
pub fn is_visible_style(style: u32) -> (b: bool)
    ensures
        b == ((style & WS_VISIBLE) == WS_VISIBLE),
{
    (style & WS_VISIBLE) == WS_VISIBLE
}

/// A captured item of zero width and zero height is not usable yet.
pub fn capture_size_usable(width: i32, height: i32) -> (b: bool)
    ensures
        b == !(width == 0 && height == 0),
{
    !(width == 0 && height == 0)
}

/// A window as the system enumerates it: its handle, the handle of its root
/// ancestor and its style bits.
#[derive(PartialEq, Eq, Structural, Debug, Clone, Copy)]
pub struct WindowEntry {
    pub handle: isize,
    pub root: isize,
    pub style: u32,
}

/// A window counts when it is a top-level window (its own root ancestor) and visible.
pub open spec fn is_candidate_window(e: WindowEntry) -> bool {
    e.root == e.handle && (e.style & WS_VISIBLE) == WS_VISIBLE
}

/// The handle of an enumerated window.
pub open spec fn handle_of() -> spec_fn(WindowEntry) -> isize {
    |e: WindowEntry| e.handle
}

/// `is_candidate_window` as a predicate.
pub open spec fn candidate_pred() -> spec_fn(WindowEntry) -> bool {
    |e: WindowEntry| is_candidate_window(e)
}

/// The handles of the top-level visible windows among `entries`, in
/// enumeration order.
pub fn candidate_windows(entries: &Vec<WindowEntry>) -> (r: Vec<isize>)
    ensures
        r@ == entries@.filter(candidate_pred()).map_values(handle_of()),
{
    let mut r: Vec<isize> = Vec::new();
    let mut i: usize = 0;
    while i < entries.len()
        invariant
            0 <= i <= entries@.len(),
            r@ == entries@.take(i as int).filter(candidate_pred()).map_values(handle_of()),
        decreases entries@.len() - i,
    {
        let e = entries[i];
        proof {
            reveal(Seq::filter);
            assert(entries@.take(i + 1).drop_last() == entries@.take(i as int));
            assert(entries@.take(i + 1).last() == e);
        }
        if e.root == e.handle && is_visible_style(e.style) {
            r.push(e.handle);
            proof {
                let f = entries@.take(i as int).filter(candidate_pred());
                assert(entries@.take(i + 1).filter(candidate_pred()) == f.push(e));
                assert(f.push(e).map_values(handle_of()) =~= f.map_values(handle_of()).push(e.handle));
            }
        } else {
            proof {
                assert(entries@.take(i + 1).filter(candidate_pred())
                    == entries@.take(i as int).filter(candidate_pred()));
            }
        }
        i = i + 1;
    }
    proof {
        assert(entries@.take(entries@.len() as int) == entries@);
    }
    r
}

/// Whether some enumerated window with handle `h` is its own root ancestor
/// and has the visible style bit (0x1000_0000) set.
pub open spec fn visible_top_level_entry(entries: Seq<WindowEntry>, h: isize) -> bool {
    exists|j: int|
        0 <= j < entries.len() && #[trigger] entries[j].handle == h && entries[j].root == h
            && entries[j].style & 0x1000_0000u32 != 0
}

/// The capture candidates are exactly the handles of the enumerated windows
/// that are their own root ancestor and have the visible style bit
/// (0x1000_0000) set; hidden windows and child windows never are.
pub proof fn law_candidates_are_visible_top_level(entries: Seq<WindowEntry>)
    ensures
        forall|k: int|
            0 <= k < entries.filter(candidate_pred()).map_values(handle_of()).len()
                ==> visible_top_level_entry(
                entries,
                #[trigger] entries.filter(candidate_pred()).map_values(handle_of())[k],
            ),
        forall|j: int|
            0 <= j < entries.len() && entries[j].root == entries[j].handle && #[trigger] (
            entries[j].style & 0x1000_0000u32) != 0 ==> entries.filter(candidate_pred()).map_values(
                handle_of(),
            ).contains(entries[j].handle),
{
    let pred = candidate_pred();
    let f = entries.filter(pred);
    let r = f.map_values(handle_of());
    assert forall|k: int| 0 <= k < r.len() implies visible_top_level_entry(entries, #[trigger] r[k]) by {
        entries.lemma_filter_pred(pred, k);
        assert(f.contains(f[k]));
        entries.lemma_filter_contains_rev(pred, f[k]);
        let j = choose|j: int| 0 <= j < entries.len() && entries[j] == f[k];
        assert(is_candidate_window(f[k]));
        let st = entries[j].style;
        assert((st & 0x1000_0000u32) == 0x1000_0000u32 ==> (st & 0x1000_0000u32) != 0)
            by (bit_vector);
        assert(r[k] == f[k].handle);
        assert(entries[j].handle == r[k]);
    }
    assert forall|j: int|
        0 <= j < entries.len() && entries[j].root == entries[j].handle && #[trigger] (
        entries[j].style & 0x1000_0000u32) != 0 implies r.contains(entries[j].handle) by {
        let st = entries[j].style;
        assert((st & 0x1000_0000u32) != 0 ==> (st & 0x1000_0000u32) == 0x1000_0000u32)
            by (bit_vector);
        assert(is_candidate_window(entries[j]));
        assert(pred(entries[j]));
        entries.lemma_filter_contains(pred, j);
        let k = choose|k: int| 0 <= k < f.len() && f[k] == entries[j];
        assert(r[k] == entries[j].handle);
        assert(r.contains(entries[j].handle));
    }
}

/// The windows of `after` that were not in `before`, in the order of `after`.
pub fn new_windows(before: &Vec<isize>, after: &Vec<isize>) -> (r: Vec<isize>)
    ensures
        r@ == after@.filter(|h: isize| !before@.contains(h)),
{
    let mut r: Vec<isize> = Vec::new();
    let mut i: usize = 0;
    while i < after.len()
        invariant
            0 <= i <= after@.len(),
            r@ == after@.take(i as int).filter(|h: isize| !before@.contains(h)),
        decreases after@.len() - i,
    {
        let h = after[i];
        let mut seen = false;
        let mut j: usize = 0;
        while j < before.len()
            invariant
                0 <= j <= before@.len(),
                seen == (exists|m: int| 0 <= m < j && before@[m] == h),
            decreases before@.len() - j,
        {
            if before[j] == h {
                seen = true;
            }
            j = j + 1;
        }
        proof {
            assert(seen == before@.contains(h));
            reveal(Seq::filter);
            assert(after@.take(i + 1).drop_last() == after@.take(i as int));
        }
        if !seen {
            r.push(h);
        }
        i = i + 1;
    }
    proof {
        assert(after@.take(after@.len() as int) == after@);
    }
    r
}

/// The lower-case form of a text, as `str::to_lowercase` computes it.
pub uninterp spec fn lowercase(s: Seq<char>) -> Seq<char>;

/// Lower-cases a text (`str::to_lowercase`).
#[verifier::external_body]
fn to_lowercase(s: &str) -> (r: String)
    ensures
        r@ == lowercase(s@),
{
    s.to_lowercase()
}

/// The characters of a text.
pub fn chars_of(s: &str) -> (v: Vec<char>)
    ensures
        v@ == s@,
{
    let n = s.unicode_len();
    let mut v: Vec<char> = Vec::new();
    let mut i: usize = 0;
    while i < n
        invariant
            0 <= i <= n,
            n == s@.len(),
            v@ == s@.take(i as int),
        decreases n - i,
    {
        let c = s.get_char(i);
        v.push(c);
        proof {
            assert(s@.take(i + 1) == s@.take(i as int).push(c));
        }
        i = i + 1;
    }
    proof {
        assert(s@.take(n as int) == s@);
    }
    v
}

/// Why a window text could not be read.
#[derive(PartialEq, Eq, Structural, Debug, Clone, Copy)]
pub enum WindowTextError {
    /// The bytes the system wrote are not UTF-8.
    InvalidUtf8,
}

/// The text without NUL characters at its end.
pub open spec fn trim_trailing_nul(s: Seq<char>) -> Seq<char>
    decreases s.len(),
{
    if s.len() > 0 && s.last() == '\0' {
        trim_trailing_nul(s.drop_last())
    } else {
        s
    }
}

/// The text whose UTF-8 bytes are `bytes` (`std::str::from_utf8`): there is
/// one exactly when the bytes are valid UTF-8.
#[verifier::external_body]
fn utf8_text(bytes: &[u8]) -> (r: Option<&str>)
    ensures
        r is Some <==> valid_utf8(bytes@),
        r matches Some(t) ==> t.spec_bytes() == bytes@,
{
    std::str::from_utf8(bytes).ok()
}

/// A window text, class name or real class name as the system wrote it into
/// a zeroed buffer ending in NUL: the bytes before the last one, read as
/// UTF-8, without the NUL characters at their end.
pub fn window_text_from_buffer(buf: &[u8]) -> (r: Result<String, WindowTextError>)
    requires
        buf@.len() > 0,
        buf@.last() == 0u8,
    ensures
        valid_utf8(buf@.drop_last()) ==> (r matches Ok(t) && t@ == trim_trailing_nul(
            decode_utf8(buf@.drop_last()),
        )),
        !valid_utf8(buf@.drop_last()) ==> r == Err::<String, WindowTextError>(
            WindowTextError::InvalidUtf8,
        ),
{
    let n = buf.len() - 1;
    let (body, _) = buf.split_at(n);
    assert(body@ == buf@.drop_last());
    match utf8_text(body) {
        None => Err(WindowTextError::InvalidUtf8),
        Some(text) => {
            proof {
                encode_utf8_decode_utf8(text@);
            }
            let cs = chars_of(text);
            let mut end = cs.len();
            proof {
                assert(cs@.subrange(0, end as int) == cs@);
            }
            while end > 0 && cs[end - 1] == '\0'
                invariant
                    end <= cs@.len(),
                    trim_trailing_nul(cs@) == trim_trailing_nul(cs@.subrange(0, end as int)),
                decreases end,
            {
                proof {
                    assert(cs@.subrange(0, end as int).drop_last() == cs@.subrange(0, end - 1));
                }
                end = end - 1;
            }
            proof {
                let kept = cs@.subrange(0, end as int);
                assert(trim_trailing_nul(kept) == kept);
            }
            let mut t = String::new();
            let mut i: usize = 0;
            while i < end
                invariant
                    0 <= i <= end <= cs@.len(),
                    t@ == cs@.subrange(0, i as int),
                decreases end - i,
            {
                push_char(&mut t, cs[i]);
                proof {
                    assert(cs@.subrange(0, i + 1) == cs@.subrange(0, i as int).push(cs@[i as int]));
                }
                i = i + 1;
            }
            Ok(t)
        },
    }
}

/// Whether `needle` occurs in `hay`.
pub open spec fn contains_text(hay: Seq<char>, needle: Seq<char>) -> bool {
    exists|i: int| 0 <= i && i + needle.len() <= hay.len() && #[trigger] text_at(hay, needle, i)
}

/// Whether `needle` occurs in `hay` starting at position `i`.
pub open spec fn text_at(hay: Seq<char>, needle: Seq<char>, i: int) -> bool {
    hay.subrange(i, i + needle.len()) == needle
}

/// Whether `needle` occurs in `hay` at position `i`.
fn occurs_at(hay: &Vec<char>, needle: &Vec<char>, i: usize) -> (b: bool)
    requires
        i + needle@.len() <= hay@.len(),
    ensures
        b == text_at(hay@, needle@, i as int),
{
    let hay_len = hay.len();
    let mut k: usize = 0;
    while k < needle.len()
        invariant
            hay_len == hay@.len(),
            0 <= k <= needle@.len(),
            i + needle@.len() <= hay@.len(),
            forall|m: int| 0 <= m < k ==> hay@[i + m] == needle@[m],
        decreases needle@.len() - k,
    {
        if hay[i + k] != needle[k] {
            proof {
                assert(hay@.subrange(i as int, i + needle@.len())[k as int] != needle@[k as int]);
            }
            return false;
        }
        k = k + 1;
    }
    proof {
        assert(hay@.subrange(i as int, i + needle@.len()) =~= needle@);
    }
    true
}

/// Whether `needle` occurs anywhere in `hay`.
fn contains_chars(hay: &Vec<char>, needle: &Vec<char>) -> (b: bool)
    ensures
        b == contains_text(hay@, needle@),
{
    if needle.len() > hay.len() {
        return false;
    }
    let last = hay.len() - needle.len();
    let mut i: usize = 0;
    loop
        invariant
            last == hay@.len() - needle@.len(),
            needle@.len() <= hay@.len(),
            0 <= i <= last,
            forall|j: int| 0 <= j < i ==> !#[trigger] text_at(hay@, needle@, j),
        decreases last - i,
    {
        if occurs_at(hay, needle, i) {
            return true;
        }
        if i == last {
            return false;
        }
        i = i + 1;
    }
}

/// A lower-cased title matches a lower-cased query when the query occurs in it.
pub open spec fn title_matches(title: Seq<char>, query: Seq<char>) -> bool {
    contains_text(title, query)
}

/// Whether a window title contains a query, both compared in lower case.
pub fn window_title_matches(title: &str, query: &str) -> (b: bool)
    ensures
        b == title_matches(lowercase(title@), lowercase(query@)),
{
    let title_lower = to_lowercase(title);
    let query_lower = to_lowercase(query);
    let t = chars_of(title_lower.as_str());
    let q = chars_of(query_lower.as_str());
    contains_chars(&t, &q)
}

/// The positions of the windows whose titles match the query, in window order.
pub fn find_window(titles: &Vec<String>, query: &str) -> (r: Vec<usize>)
    ensures
        forall|k: int| 0 <= k < r@.len() ==> r@[k] < titles@.len(),
        forall|k: int, l: int| 0 <= k < l < r@.len() ==> r@[k] < r@[l],
        forall|i: int|
            0 <= i < titles@.len() ==> (r@.contains(i as usize) <==> title_matches(
                lowercase(titles@[i]@),
                lowercase(query@),
            )),
{
    let mut r: Vec<usize> = Vec::new();
    let mut i: usize = 0;
    while i < titles.len()
        invariant
            0 <= i <= titles@.len(),
            forall|k: int| 0 <= k < r@.len() ==> r@[k] < i,
            forall|k: int, l: int| 0 <= k < l < r@.len() ==> r@[k] < r@[l],
            forall|m: int|
                0 <= m < i ==> (r@.contains(m as usize) <==> title_matches(
                    lowercase(titles@[m]@),
                    lowercase(query@),
                )),
        decreases titles@.len() - i,
    {
        let matched = window_title_matches(titles[i].as_str(), query);
        let ghost before = r@;
        if matched {
            r.push(i);
        }
        proof {
            assert forall|m: int|
                0 <= m < i + 1 implies (r@.contains(m as usize) <==> title_matches(
                lowercase(titles@[m]@),
                lowercase(query@),
            )) by {
                if m < i {
                    if r@.contains(m as usize) {
                        let k = choose|k: int| 0 <= k < r@.len() && r@[k] == m as usize;
                        if k < before.len() {
                            assert(before[k] == m as usize);
                        }
                    }
                    if before.contains(m as usize) {
                        let k = choose|k: int| 0 <= k < before.len() && before[k] == m as usize;
                        assert(r@[k] == m as usize);
                    }
                } else {
                    if r@.contains(m as usize) {
                        let k = choose|k: int| 0 <= k < r@.len() && r@[k] == m as usize;
                        if k < before.len() {
                            assert(before[k] < i);
                        }
                    }
                    if matched {
                        assert(r@[before.len() as int] == i);
                    }
                }
            }
        }
        i = i + 1;
    }
    r
}

/// How a window query turned out.
#[derive(PartialEq, Eq, Structural, Debug, Clone, Copy)]
pub enum QueryOutcome {
    /// No window matches: the capturer stops with exit code 1.
    NoMatch,
    /// Exactly one window matches: it is captured.
    Single,
    /// Several windows match: the user is asked to pick one.
    Ask,
}

/// What a number of matching windows leads to.
pub fn query_outcome(match_count: usize) -> (o: QueryOutcome)
    ensures
        o == if match_count == 0 {
            QueryOutcome::NoMatch
        } else if match_count == 1 {
            QueryOutcome::Single
        } else {
            QueryOutcome::Ask
        },
{
    if match_count == 0 {
        QueryOutcome::NoMatch
    } else if match_count == 1 {
        QueryOutcome::Single
    } else {
        QueryOutcome::Ask
    }
}

/// What the user typed when asked to pick a window.
#[derive(PartialEq, Eq, Structural, Debug, Clone, Copy)]
pub enum SelectionInput {
    /// The user asked to quit: the capturer stops with exit code 0.
    Quit,
    /// A valid position in the list of matching windows.
    Choose(usize),
    /// Anything else: the user is asked again.
    Invalid,
}

/// White space as `char::is_whitespace` sees it (the Unicode White_Space property).
pub open spec fn is_white_space(c: char) -> bool {
    let v = c as u32;
    ||| 9 <= v <= 13
    ||| v == 32
    ||| v == 0x85
    ||| v == 0xA0
    ||| v == 0x1680
    ||| 0x2000 <= v <= 0x200A
    ||| v == 0x2028
    ||| v == 0x2029
    ||| v == 0x202F
    ||| v == 0x205F
    ||| v == 0x3000
}

/// `char::is_whitespace`.
pub fn white_space(c: char) -> (b: bool)
    ensures
        b == is_white_space(c),
{
    let v = c as u32;
    (9 <= v && v <= 13) || v == 32 || v == 0x85 || v == 0xA0 || v == 0x1680 || (0x2000 <= v && v
        <= 0x200A) || v == 0x2028 || v == 0x2029 || v == 0x202F || v == 0x205F || v == 0x3000
}

/// The text without leading white space.
pub open spec fn trim_start(s: Seq<char>) -> Seq<char>
    decreases s.len(),
{
    if s.len() > 0 && is_white_space(s[0]) {
        trim_start(s.drop_first())
    } else {
        s
    }
}

/// The text without trailing white space.
pub open spec fn trim_end(s: Seq<char>) -> Seq<char>
    decreases s.len(),
{
    if s.len() > 0 && is_white_space(s.last()) {
        trim_end(s.drop_last())
    } else {
        s
    }
}

/// The text without white space at either end (`str::trim`).
pub open spec fn trim(s: Seq<char>) -> Seq<char> {
    trim_end(trim_start(s))
}

/// Whether every character is an ASCII digit.
pub open spec fn all_digits(s: Seq<char>) -> bool {
    forall|i: int| 0 <= i < s.len() ==> '0' <= #[trigger] s[i] <= '9'
}

/// The number that a run of decimal digits denotes.
pub open spec fn digits_value(s: Seq<char>) -> nat
    decreases s.len(),
{
    if s.len() == 0 {
        0
    } else {
        digits_value(s.drop_last()) * 10 + ((s.last() as u32) - 48) as nat
    }
}

/// The unsigned number that `str::parse::<usize>` reads from a text: an
/// optional '+' and then at least one decimal digit, with a value that fits.
pub open spec fn parse_usize(s: Seq<char>) -> Option<nat> {
    let d = if s.len() > 0 && s[0] == '+' {
        s.drop_first()
    } else {
        s
    };
    if d.len() > 0 && all_digits(d) && digits_value(d) <= usize::MAX {
        Some(digits_value(d))
    } else {
        None
    }
}

/// What a typed line means when `count` windows are offered: any 'q' (in
/// either case) quits, a number below `count` (white space around it allowed)
/// picks that window, and anything else is invalid.
pub open spec fn selection_spec(input: Seq<char>, count: nat) -> SelectionInput {
    if lowercase(input).contains('q') {
        SelectionInput::Quit
    } else {
        match parse_usize(trim(input)) {
            Some(n) => if n < count {
                SelectionInput::Choose(n as usize)
            } else {
                SelectionInput::Invalid
            },
            None => SelectionInput::Invalid,
        }
    }
}

/// Extending a run of digits never lowers its value.
pub proof fn lemma_digits_value_grows(s: Seq<char>, k: int)
    requires
        0 <= k <= s.len(),
    ensures
        digits_value(s.take(k)) <= digits_value(s),
    decreases s.len() - k,
{
    if k < s.len() {
        lemma_digits_value_grows(s, k + 1);
        assert(s.take(k + 1).drop_last() == s.take(k));
    } else {
        assert(s.take(k) == s);
    }
}

/// Reads an unsigned number from `s[from..to]` as `str::parse::<usize>` does.
fn parse_usize_range(s: &Vec<char>, from: usize, to: usize) -> (r: Option<usize>)
    requires
        from <= to <= s@.len(),
    ensures
        match parse_usize(s@.subrange(from as int, to as int)) {
            Some(n) => r == Some(n as usize),
            None => r is None,
        },
{
    let ghost t = s@.subrange(from as int, to as int);
    let mut start = from;
    if from < to && s[from] == '+' {
        start = from + 1;
    }
    let ghost d = s@.subrange(start as int, to as int);
    proof {
        if from < to && s@[from as int] == '+' {
            assert(d == t.drop_first());
        } else {
            assert(d == t);
        }
    }
    if start == to {
        return None;
    }
    let mut value: usize = 0;
    let mut i = start;
    while i < to
        invariant
            from <= start <= i <= to <= s@.len(),
            d == s@.subrange(start as int, to as int),
            t == s@.subrange(from as int, to as int),
            d == (if t.len() > 0 && t[0] == '+' {
                t.drop_first()
            } else {
                t
            }),
            all_digits(d.take(i - start)),
            value == digits_value(d.take(i - start)),
        decreases to - i,
    {
        let c = s[i];
        proof {
            assert(d.take(i - start + 1).drop_last() == d.take(i - start));
            assert(d[i - start] == c);
        }
        if c < '0' || c > '9' {
            proof {
                assert(!all_digits(d));
            }
            return None;
        }
        let digit = (c as u32 - 48) as usize;
        let next = match value.checked_mul(10) {
            Some(v) => v.checked_add(digit),
            None => None,
        };
        match next {
            Some(v) => {
                value = v;
            },
            None => {
                proof {
                    assert(digits_value(d.take(i - start + 1)) > usize::MAX);
                    lemma_digits_value_grows(d, i - start + 1);
                    assert(d.take(d.len() as int) == d);
                }
                return None;
            },
        }
        i = i + 1;
    }
    proof {
        assert(d.take(d.len() as int) == d);
    }
    Some(value)
}

/// Reads the user's pick among `count` matching windows.
pub fn read_selection(input: &str, count: usize) -> (r: SelectionInput)
    ensures
        r == selection_spec(input@, count as nat),
{
    let lower_text = to_lowercase(input);
    let lower = chars_of(lower_text.as_str());
    assert(lower@ == lowercase(input@));
    let mut i: usize = 0;
    while i < lower.len()
        invariant
            0 <= i <= lower@.len(),
            lower@ == lowercase(input@),
            forall|j: int| 0 <= j < i ==> lower@[j] != 'q',
        decreases lower@.len() - i,
    {
        if lower[i] == 'q' {
            proof {
                assert(lower@.contains('q'));
            }
            return SelectionInput::Quit;
        }
        i = i + 1;
    }
    let s = chars_of(input);
    proof {
        assert(s@.subrange(0, s@.len() as int) == s@);
        assert(!lowercase(input@).contains('q'));
    }
    let mut from: usize = 0;
    while from < s.len() && white_space(s[from])
        invariant
            0 <= from <= s@.len(),
            trim_start(s@) == trim_start(s@.subrange(from as int, s@.len() as int)),
        decreases s@.len() - from,
    {
        proof {
            let rest = s@.subrange(from as int, s@.len() as int);
            assert(rest.drop_first() == s@.subrange(from + 1, s@.len() as int));
        }
        from = from + 1;
    }
    let ghost started = s@.subrange(from as int, s@.len() as int);
    proof {
        assert(trim_start(started) == started);
    }
    let mut to: usize = s.len();
    while to > from && white_space(s[to - 1])
        invariant
            from <= to <= s@.len(),
            trim_end(started) == trim_end(s@.subrange(from as int, to as int)),
        decreases to,
    {
        proof {
            let cur = s@.subrange(from as int, to as int);
            assert(cur.drop_last() == s@.subrange(from as int, to - 1));
        }
        to = to - 1;
    }
    proof {
        let cur = s@.subrange(from as int, to as int);
        assert(trim_end(cur) == cur);
        assert(trim(s@) == cur);
    }
    match parse_usize_range(&s, from, to) {
        Some(n) => if n < count {
            SelectionInput::Choose(n)
        } else {
            SelectionInput::Invalid
        },
        None => SelectionInput::Invalid,
    }
}

/// A rectangle on the display.
#[derive(PartialEq, Eq, Structural, Debug, Clone, Copy)]
pub struct Bounds {
    pub x: i32,
    pub y: i32,
    pub width: i32,
    pub height: i32,
}

/// What one captured frame asks for, in this order.
#[derive(PartialEq, Eq, Structural, Debug, Clone, Copy)]
pub struct FramePlan {
    /// Recreate the frame pool for the new item size (the capturer stops if that fails).
    pub recreate_pool: bool,
    /// Move the compositor surface to these bounds.
    pub move_surface: Option<Bounds>,
    /// Create the compositor surface at these bounds: the position held before
    /// this frame (the target position on the first frame) with the content size.
    pub create_surface: Option<Bounds>,
}

/// The tracker after a frame and what the frame asks for (see `CaptureTracker::on_frame`).
pub open spec fn frame_step(
    t: CaptureTracker,
    window_origin: Option<(i32, i32)>,
    item_width: i32,
    item_height: i32,
    texture_width: u32,
    texture_height: u32,
    content_width: i32,
    content_height: i32,
) -> (CaptureTracker, FramePlan) {
    let position_updated = match window_origin {
        Some(o) => o.0 != t.x || o.1 != t.y,
        None => false,
    };
    let size_updated = item_width != texture_width as i32 || item_height != texture_height as i32;
    let (nx, ny) = match window_origin {
        Some(o) => (o.0, o.1),
        None => (t.x, t.y),
    };
    (
        CaptureTracker { x: nx, y: ny, has_surface: true },
        FramePlan {
            recreate_pool: size_updated,
            move_surface: if (position_updated || size_updated) && t.has_surface {
                Some(Bounds { x: nx, y: ny, width: item_width, height: item_height })
            } else {
                None
            },
            create_surface: if t.has_surface {
                None
            } else {
                Some(Bounds { x: t.x, y: t.y, width: content_width, height: content_height })
            },
        },
    )
}

/// What the capturer remembers between frames: where the surface goes (the
/// target position, then the last window position seen) and whether its
/// compositor surface exists.
#[derive(PartialEq, Eq, Structural, Debug, Clone, Copy)]
pub struct CaptureTracker {
    pub x: i32,
    pub y: i32,
    pub has_surface: bool,
}

impl CaptureTracker {
    /// A tracker before the first frame, for the target position `(x, y)`.
    pub fn new(x: i32, y: i32) -> (t: CaptureTracker)
        ensures
            t == (CaptureTracker { x, y, has_surface: false }),
    {
        CaptureTracker { x, y, has_surface: false }
    }

    /// Decides what a frame needs. The position changes when the captured
    /// window (if any) moved; the size changes when the item size differs from
    /// the frame's texture. Either change moves an existing surface to the
    /// window position with the item size, a size change also recreates the
    /// frame pool, and the first frame creates the surface at the position held
    /// before it (the target position) with the content size.
    pub fn on_frame(
        &mut self,
        window_origin: Option<(i32, i32)>,
        item_width: i32,
        item_height: i32,
        texture_width: u32,
        texture_height: u32,
        content_width: i32,
        content_height: i32,
    ) -> (plan: FramePlan)
        ensures
            (*final(self), plan) == frame_step(
                *old(self),
                window_origin,
                item_width,
                item_height,
                texture_width,
                texture_height,
                content_width,
                content_height,
            ),
    {
        let (start_x, start_y) = (self.x, self.y);
        let mut position_updated = false;
        if let Some((left, top)) = window_origin {
            if self.x != left || self.y != top {
                self.x = left;
                self.y = top;
                position_updated = true;
            }
        }
        let size_updated = item_width != texture_width as i32 || item_height
            != texture_height as i32;
        let move_surface = if (position_updated || size_updated) && self.has_surface {
            Some(Bounds { x: self.x, y: self.y, width: item_width, height: item_height })
        } else {
            None
        };
        let create_surface = if self.has_surface {
            None
        } else {
            Some(Bounds { x: start_x, y: start_y, width: content_width, height: content_height })
        };
        self.has_surface = true;
        FramePlan { recreate_pool: size_updated, move_surface, create_surface }
    }
}

/// After waiting a frame period without a frame, capturing goes on unless the
/// captured window is known to be gone.
pub fn keep_capturing_after_timeout(window_exists: Option<bool>) -> (b: bool)
    ensures
        b == !(window_exists == Some(false)),
{
    match window_exists {
        Some(false) => false,
        _ => true,
    }
}

/// The compositor surface is created by the first frame and never again, and
/// a surface is only moved once it exists.
pub proof fn law_surface_created_once(
    t: CaptureTracker,
    o1: Option<(i32, i32)>,
    iw1: i32,
    ih1: i32,
    tw1: u32,
    th1: u32,
    cw1: i32,
    ch1: i32,
    o2: Option<(i32, i32)>,
    iw2: i32,
    ih2: i32,
    tw2: u32,
    th2: u32,
    cw2: i32,
    ch2: i32,
)
    ensures
        ({
            let (t1, p1) = frame_step(t, o1, iw1, ih1, tw1, th1, cw1, ch1);
            let (t2, p2) = frame_step(t1, o2, iw2, ih2, tw2, th2, cw2, ch2);
            &&& (p1.create_surface is Some <==> !t.has_surface)
            &&& p2.create_surface is None
            &&& (p1.move_surface is Some ==> t.has_surface)
            &&& t1.has_surface && t2.has_surface
        }),
{
}

/// A frame moves the surface only when the window moved or the item size no
/// longer matches the frame's texture, and never before the surface exists.
pub proof fn law_move_only_on_change(
    t: CaptureTracker,
    o: Option<(i32, i32)>,
    item_width: i32,
    item_height: i32,
    texture_width: u32,
    texture_height: u32,
    content_width: i32,
    content_height: i32,
)
    ensures
        frame_step(
            t,
            o,
            item_width,
            item_height,
            texture_width,
            texture_height,
            content_width,
            content_height,
        ).1.move_surface is Some ==> t.has_surface && (match o {
            Some((ox, oy)) => ox != t.x || oy != t.y,
            None => false,
        } || item_width != texture_width as i32 || item_height != texture_height as i32),
{
}

/// The surface follows the captured window: when the window's origin differs
/// from the tracked position in either coordinate and the surface exists,
/// the frame moves the surface to the new origin with the item size, and the
/// tracker takes up that origin.
pub proof fn law_surface_follows_window(
    t: CaptureTracker,
    ox: i32,
    oy: i32,
    item_width: i32,
    item_height: i32,
    texture_width: u32,
    texture_height: u32,
    content_width: i32,
    content_height: i32,
)
    requires
        t.has_surface,
        ox != t.x || oy != t.y,
    ensures
        ({
            let (t1, p) = frame_step(
                t,
                Some((ox, oy)),
                item_width,
                item_height,
                texture_width,
                texture_height,
                content_width,
                content_height,
            );
            &&& p.move_surface == Some(Bounds { x: ox, y: oy, width: item_width, height: item_height })
            &&& p.create_surface is None
            &&& t1.x == ox && t1.y == oy
        }),
{
}

/// The surface is created at the target position, whether or not a window
/// is captured; without a captured window every later move keeps it there.
pub proof fn law_surface_at_target(
    x: i32,
    y: i32,
    o: Option<(i32, i32)>,
    iw1: i32,
    ih1: i32,
    tw1: u32,
    th1: u32,
    cw1: i32,
    ch1: i32,
    iw2: i32,
    ih2: i32,
    tw2: u32,
    th2: u32,
    cw2: i32,
    ch2: i32,
)
    ensures
        ({
            let t = CaptureTracker { x, y, has_surface: false };
            let (t1, p1) = frame_step(t, None, iw1, ih1, tw1, th1, cw1, ch1);
            let (t2, p2) = frame_step(t1, None, iw2, ih2, tw2, th2, cw2, ch2);
            &&& p1.create_surface == Some(Bounds { x, y, width: cw1, height: ch1 })
            &&& frame_step(t, o, iw1, ih1, tw1, th1, cw1, ch1).1.create_surface == Some(
                Bounds { x, y, width: cw1, height: ch1 },
            )
            &&& p2.move_surface matches Some(b) ==> b.x == x && b.y == y
            &&& t2.x == x && t2.y == y
        }),
{
}

/// A frame of a window that stayed in place, with the texture matching the
/// item size, asks for nothing but possibly the first creation.
pub proof fn law_still_frame_changes_nothing(
    t: CaptureTracker,
    item_width: i32,
    item_height: i32,
    content_width: i32,
    content_height: i32,
)
    requires
        item_width >= 0,
        item_height >= 0,
    ensures
        ({
            let (t1, p) = frame_step(
                t,
                Some((t.x, t.y)),
                item_width,
                item_height,
                item_width as u32,
                item_height as u32,
                content_width,
                content_height,
            );
            &&& !p.recreate_pool
            &&& p.move_surface is None
            &&& t1.x == t.x && t1.y == t.y
        }),
{
}

/// Every character of a decimal rendering is a digit, and the digits denote the number.
pub proof fn lemma_decimal_digits(n: nat)
    ensures
        decimal(n).len() > 0,
        all_digits(decimal(n)),
        digits_value(decimal(n)) == n,
    decreases n,
{
    let c = digit_char(n % 10);
    assert(c as u32 == 48 + n % 10);
    if n >= 10 {
        lemma_decimal_digits(n / 10);
        let d = decimal(n);
        assert(d.drop_last() == decimal(n / 10));
        assert(d.last() == c);
        assert forall|i: int| 0 <= i < d.len() implies '0' <= #[trigger] d[i] <= '9' by {
            if i < d.len() - 1 {
                assert(d[i] == decimal(n / 10)[i]);
            }
        }
        assert(digits_value(d) == digits_value(d.drop_last()) * 10 + ((d.last() as u32) - 48) as nat);
        assert((n / 10) * 10 + n % 10 == n);
    } else {
        let d = decimal(n);
        assert(d.drop_last() =~= Seq::<char>::empty());
        assert(digits_value(d.drop_last()) == 0);
        assert(digits_value(d) == digits_value(d.drop_last()) * 10 + ((d.last() as u32) - 48) as nat);
    }
}

/// Reading back the decimal rendering of a number gives the number: the
/// selection reader and the decimal writer agree.
pub proof fn law_parse_reads_decimal(n: nat)
    requires
        n <= usize::MAX,
    ensures
        parse_usize(decimal(n)) == Some(n),
{
    lemma_decimal_digits(n);
    assert('0' <= decimal(n)[0] <= '9');
}

/// A pick is always a valid position among the offered windows.
pub proof fn law_choice_in_range(input: Seq<char>, count: nat)
    ensures
        selection_spec(input, count) matches SelectionInput::Choose(i) ==> i < count,
{
}

} // verus!
