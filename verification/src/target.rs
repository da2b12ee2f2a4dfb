//! The capture-target boundary: a plain-value model of an enumerated
//! on-screen window, normalization of raw window titles, and resolution of
//! a human-readable selector to a capture-target descriptor by
//! case-insensitive substring match on the title, first match winning.
//!
//! Enumerating the windows themselves is operating-system work and stays
//! outside the library; the library receives the enumeration as plain
//! values and does everything that decides.

use vstd::prelude::*;
use crate::text::contains_ci;
use crate::text::contains_ci_str;
use crate::text::is_space;
use crate::text::trim_back;
use crate::text::trim_front;
use crate::text::trimmed;

verus! {

/// One enumerated on-screen window, as plain values: the opaque handle is
/// carried as its numeric value, the owning process by id and path.
#[derive(Debug, Clone)]
pub struct Window {
    pub title: String,
    pub minimized: bool,
    pub window_handle: u64,
    pub focused: bool,
    pub process_id: u32,
    pub process_path: Option<String>,
}

/// What the graph builder needs of a resolved capture target: the opaque
/// handle value, the display title for diagnostics, and the owning process.
/// Immutable once resolved.
#[derive(Debug, Clone)]
pub struct CaptureTargetDescriptor {
    pub window_handle: u64,
    pub title: String,
    pub process_id: u32,
}

/// Resolution of a selector against an enumeration can fail only one way:
/// no window title matched.
#[derive(Debug, Clone, PartialEq, Eq, Structural)]
pub enum ResolutionError {
    NotFound,
}

/// The descriptor that a window resolves to.
pub open spec fn descriptor_of(w: Window) -> CaptureTargetDescriptor {
    CaptureTargetDescriptor {
        window_handle: w.window_handle,
        title: w.title,
        process_id: w.process_id,
    }
}

/// A window matches a selector when the selector occurs in its title,
/// compared up to ASCII case.
pub open spec fn window_matches(w: Window, selector: Seq<char>) -> bool {
    contains_ci(w.title@, selector)
}

/// Index `i` holds the first window of `ws` that matches `sel`.
pub open spec fn first_match(ws: Seq<Window>, sel: Seq<char>, i: int) -> bool {
    &&& 0 <= i < ws.len()
    &&& window_matches(ws[i], sel)
    &&& forall|j: int| 0 <= j < i ==> !window_matches(ws[j], sel)
}

/// Keeping only the characters before the first NUL models how a
/// NUL-terminated wide-character buffer is read back as a string.
pub fn wide_prefix_before_nul(units: &[u16]) -> (out: Vec<u16>)
    ensures
        out@.len() <= units@.len(),
        forall|j: int| 0 <= j < out@.len() ==> out@[j] == units@[j] && units@[j] != 0,
        out@.len() < units@.len() ==> units@[out@.len() as int] == 0,
{
    let mut out: Vec<u16> = Vec::new();
    let n = units.len();
    let mut i: usize = 0;
    while i < n
        invariant
            i <= n,
            n == units@.len(),
            out@.len() == i,
            forall|j: int| 0 <= j < i ==> out@[j] == units@[j] && units@[j] != 0,
        decreases n - i,
    {
        let u = units[i];
        if u == 0 {
            return out;
        }
        out.push(u);
        i += 1;
    }
    out
}

/// Dropping leading spaces, one at a time, reaches the suffix that starts
/// at the first non-space position.
proof fn lemma_trim_front_is_suffix(s: Seq<char>, a: int)
    requires
        0 <= a <= s.len(),
        forall|i: int| 0 <= i < a ==> is_space(s[i]),
        a < s.len() ==> !is_space(s[a]),
    ensures
        trim_front(s) == s.subrange(a, s.len() as int),
    decreases a + s.len(),
{
    if a == 0 {
        assert(s.subrange(0, s.len() as int) =~= s);
    } else {
        assert(is_space(s[0]));
        let t = s.drop_first();
        assert(forall|i: int| 0 <= i < a - 1 ==> is_space(#[trigger] t[i])) by {
            assert(forall|i: int| 0 <= i < a - 1 ==> #[trigger] t[i] == s[i + 1]);
        }
        lemma_trim_front_is_suffix(t, a - 1);
        assert(t.subrange(a - 1, t.len() as int) =~= s.subrange(a, s.len() as int));
    }
}

/// Dropping trailing spaces, one at a time, reaches the prefix that ends
/// just after the last non-space position.
proof fn lemma_trim_back_is_prefix(s: Seq<char>, b: int)
    requires
        0 <= b <= s.len(),
        forall|i: int| b <= i < s.len() ==> is_space(s[i]),
        b > 0 ==> !is_space(s[b - 1]),
    ensures
        trim_back(s) == s.subrange(0, b),
    decreases s.len(),
{
    if b == s.len() {
        if s.len() > 0 && is_space(s.last()) {
            assert(!is_space(s[b - 1]));
            assert(false);
        }
        assert(s.subrange(0, s.len() as int) =~= s);
    } else {
        assert(is_space(s.last()));
        let t = s.drop_last();
        lemma_trim_back_is_prefix(t, b);
        assert(t.subrange(0, b) =~= s.subrange(0, b));
    }
}

/// Trim a raw window title and reject it when nothing but whitespace is
/// left, as the enumeration does before it reports a window.
pub fn normalize_title(raw: &str) -> (r: Option<String>)
    ensures
        r is Some <==> trimmed(raw@).len() > 0,
        r matches Some(t) ==> t@ == trimmed(raw@),
{
    let n = raw.unicode_len();
    let mut a: usize = 0;
    while a < n && is_space_exec(raw.get_char(a))
        invariant
            a <= n,
            n == raw@.len(),
            forall|i: int| 0 <= i < a ==> is_space(raw@[i]),
        decreases n - a,
    {
        a += 1;
    }
    proof {
        lemma_trim_front_is_suffix(raw@, a as int);
    }
    if a == n {
        proof {
            assert(trim_front(raw@) =~= Seq::<char>::empty());
            assert(trimmed(raw@).len() == 0);
        }
        return None;
    }
    let mut b: usize = n;
    while b > a && is_space_exec(raw.get_char(b - 1))
        invariant
            a <= b <= n,
            n == raw@.len(),
            a < n,
            !is_space(raw@[a as int]),
            forall|i: int| b <= i < n ==> is_space(raw@[i]),
        decreases b,
    {
        b -= 1;
    }
    proof {
        let t1 = raw@.subrange(a as int, n as int);
        assert(forall|i: int| b - a <= i < t1.len() ==> is_space(#[trigger] t1[i])) by {
            assert(forall|i: int| 0 <= i < t1.len() ==> #[trigger] t1[i] == raw@[a + i]);
        }
        assert(b > a);
        assert(t1[b - a - 1] == raw@[b - 1]);
        assert(!is_space(t1[b - a - 1]));
        lemma_trim_back_is_prefix(t1, b - a);
        assert(t1.subrange(0, b - a) =~= raw@.subrange(a as int, b as int));
    }
    let t = raw.substring_char(a, b);
    Some(t.to_owned())
}

/// Whitespace test for title trimming, as executable code.
fn is_space_exec(c: char) -> (r: bool)
    ensures
        r == is_space(c),
{
    c == ' ' || c == '\t' || c == '\n' || c == '\r'
}


/// One window's entry in the eligibility table: whether it is visible and
/// which window its last active popup is, as plain values.
#[derive(Debug, Clone, Copy, PartialEq, Eq, Structural)]
pub struct PopupLink {
    pub handle: u64,
    pub visible: bool,
    pub last_active_popup: u64,
}

/// The last active popup of `h`, by the first table entry for `h`; a
/// window without an entry is its own popup.
pub open spec fn popup_of(tbl: Seq<PopupLink>, h: u64) -> u64
    decreases tbl.len(),
{
    if tbl.len() == 0 {
        h
    } else if tbl[0].handle == h {
        tbl[0].last_active_popup
    } else {
        popup_of(tbl.drop_first(), h)
    }
}

/// Whether `h` is visible, by the first table entry for `h`; a window
/// without an entry is not visible.
pub open spec fn visible_of(tbl: Seq<PopupLink>, h: u64) -> bool
    decreases tbl.len(),
{
    if tbl.len() == 0 {
        false
    } else if tbl[0].handle == h {
        tbl[0].visible
    } else {
        visible_of(tbl.drop_first(), h)
    }
}

/// Where the root-owner walk ends: starting from `probe`, follow each
/// window's last active popup until the chain closes on itself or reaches
/// a visible popup, taking at most `fuel` steps — one per table entry is
/// enough for any chain without a cycle of invisible popups.
pub open spec fn walk_end(tbl: Seq<PopupLink>, walk: u64, probe: u64, fuel: nat) -> u64
    decreases fuel,
{
    if probe == walk || fuel == 0 {
        walk
    } else {
        let next = popup_of(tbl, probe);
        if visible_of(tbl, next) {
            probe
        } else {
            walk_end(tbl, probe, next, (fuel - 1) as nat)
        }
    }
}

/// A window belongs in the enumeration when it is visible and the
/// popup walk from its root owner comes back to the window itself.
pub open spec fn alt_tab_eligible(tbl: Seq<PopupLink>, hwnd: u64, root_owner: u64) -> bool {
    visible_of(tbl, hwnd) && walk_end(tbl, 0, root_owner, tbl.len()) == hwnd
}

/// Runtime lookup of `popup_of`.
fn lookup_popup(table: &Vec<PopupLink>, h: u64) -> (r: u64)
    ensures
        r == popup_of(table@, h),
{
    let n = table.len();
    let mut j: usize = 0;
    proof {
        assert(table@.skip(0) =~= table@);
    }
    while j < n
        invariant
            j <= n,
            n == table@.len(),
            popup_of(table@, h) == popup_of(table@.skip(j as int), h),
        decreases n - j,
    {
        proof {
            assert(table@.skip(j as int)[0] == table@[j as int]);
            assert(table@.skip(j as int).drop_first() =~= table@.skip(j + 1));
        }
        if table[j].handle == h {
            return table[j].last_active_popup;
        }
        j += 1;
    }
    h
}

/// Runtime lookup of `visible_of`.
fn lookup_visible(table: &Vec<PopupLink>, h: u64) -> (r: bool)
    ensures
        r == visible_of(table@, h),
{
    let n = table.len();
    let mut j: usize = 0;
    proof {
        assert(table@.skip(0) =~= table@);
    }
    while j < n
        invariant
            j <= n,
            n == table@.len(),
            visible_of(table@, h) == visible_of(table@.skip(j as int), h),
        decreases n - j,
    {
        proof {
            assert(table@.skip(j as int)[0] == table@[j as int]);
            assert(table@.skip(j as int).drop_first() =~= table@.skip(j + 1));
        }
        if table[j].handle == h {
            return table[j].visible;
        }
        j += 1;
    }
    false
}

/// Decide whether a window belongs in the enumeration: it must be
/// visible, and walking last-active-popup links from its root owner must
/// come back to the window itself.
pub fn is_alt_tab_eligible(table: &Vec<PopupLink>, hwnd: u64, root_owner: u64) -> (r: bool)
    ensures
        r == alt_tab_eligible(table@, hwnd, root_owner),
{
    if !lookup_visible(table, hwnd) {
        return false;
    }
    let n = table.len();
    let mut walk: u64 = 0;
    let mut probe: u64 = root_owner;
    let mut fuel: usize = n;
    while probe != walk && fuel > 0
        invariant_except_break
            fuel <= n,
            n == table@.len(),
            walk_end(table@, 0, root_owner, n as nat) == walk_end(
                table@,
                walk,
                probe,
                fuel as nat,
            ),
        ensures
            walk_end(table@, 0, root_owner, n as nat) == walk,
        decreases fuel,
    {
        walk = probe;
        probe = lookup_popup(table, walk);
        fuel = fuel - 1;
        if lookup_visible(table, probe) {
            break;
        }
    }
    walk == hwnd
}

/// One enumerated window as the enumeration callback sees it, before
/// filtering: the raw title and the eligibility decision, with the plain
/// fields the report carries along.
#[derive(Debug, Clone)]
pub struct WindowReport {
    pub raw_title: String,
    pub alt_tab_eligible: bool,
    pub window_handle: u64,
    pub minimized: bool,
    pub focused: bool,
    pub process_id: u32,
    pub process_path: Option<String>,
}

/// A report enters the enumeration when its window is eligible and its
/// trimmed title is not empty.
pub open spec fn admitted(r: WindowReport) -> bool {
    r.alt_tab_eligible && trimmed(r.raw_title@).len() > 0
}

/// The admitted reports, in enumeration order.
pub open spec fn admitted_reports(rs: Seq<WindowReport>) -> Seq<WindowReport>
    decreases rs.len(),
{
    if rs.len() == 0 {
        Seq::empty()
    } else if admitted(rs.last()) {
        admitted_reports(rs.drop_last()).push(rs.last())
    } else {
        admitted_reports(rs.drop_last())
    }
}

/// The window built from an admitted report: the trimmed title and the
/// report's plain fields, unchanged.
pub open spec fn reflects_report(w: Window, r: WindowReport) -> bool {
    &&& w.title@ == trimmed(r.raw_title@)
    &&& w.window_handle == r.window_handle
    &&& w.minimized == r.minimized
    &&& w.focused == r.focused
    &&& w.process_id == r.process_id
    &&& w.process_path == r.process_path
}

/// Filter an enumeration: keep exactly the eligible windows whose trimmed
/// titles are not empty, in enumeration order, each with its title
/// normalized.
pub fn collect_windows(reports: &Vec<WindowReport>) -> (ws: Vec<Window>)
    ensures
        ws@.len() == admitted_reports(reports@).len(),
        forall|i: int|
            0 <= i < ws@.len() ==> reflects_report(
                #[trigger] ws@[i],
                admitted_reports(reports@)[i],
            ),
{
    let mut ws: Vec<Window> = Vec::new();
    let n = reports.len();
    let mut i: usize = 0;
    while i < n
        invariant
            i <= n,
            n == reports@.len(),
            ws@.len() == admitted_reports(reports@.take(i as int)).len(),
            forall|j: int|
                0 <= j < ws@.len() ==> reflects_report(
                    #[trigger] ws@[j],
                    admitted_reports(reports@.take(i as int))[j],
                ),
        decreases n - i,
    {
        proof {
            assert(reports@.take(i + 1).drop_last() =~= reports@.take(i as int));
            assert(reports@.take(i + 1).last() == reports@[i as int]);
        }
        let r = &reports[i];
        if r.alt_tab_eligible {
            if let Some(title) = normalize_title(r.raw_title.as_str()) {
                let path = match &r.process_path {
                    Some(p) => Some(p.clone()),
                    None => None,
                };
                let w = Window {
                    title,
                    minimized: r.minimized,
                    window_handle: r.window_handle,
                    focused: r.focused,
                    process_id: r.process_id,
                    process_path: path,
                };
                ws.push(w);
            }
        }
        i += 1;
    }
    proof {
        assert(reports@.take(n as int) =~= reports@);
    }
    ws
}

/// Resolve a selector against an ordered enumeration of windows:
/// case-insensitive substring match on the title, first match wins; no
/// match at all is the one resolution error.
pub fn resolve(windows: &Vec<Window>, selector: &str) -> (r: Result<
    CaptureTargetDescriptor,
    ResolutionError,
>)
    ensures
        r is Ok <==> exists|i: int|
            0 <= i < windows@.len() && window_matches(windows@[i], selector@),
        r matches Ok(d) ==> exists|i: int|
            first_match(windows@, selector@, i) && d == descriptor_of(windows@[i]),
        r is Err ==> r == Err::<CaptureTargetDescriptor, ResolutionError>(
            ResolutionError::NotFound,
        ),
{
    let n = windows.len();
    let mut i: usize = 0;
    while i < n
        invariant
            i <= n,
            n == windows@.len(),
            forall|j: int| 0 <= j < i ==> !window_matches(windows@[j], selector@),
        decreases n - i,
    {
        let w = &windows[i];
        if contains_ci_str(w.title.as_str(), selector) {
            let d = CaptureTargetDescriptor {
                window_handle: w.window_handle,
                title: w.title.clone(),
                process_id: w.process_id,
            };
            proof {
                assert(first_match(windows@, selector@, i as int));
                assert(d == descriptor_of(windows@[i as int]));
            }
            return Ok(d);
        }
        i += 1;
    }
    Err(ResolutionError::NotFound)
}

}
