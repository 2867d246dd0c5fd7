use vstd::prelude::*;
use crate::text::opt_string_view;

verus! {

/// A display as the placement logic sees it: its name, its top-left corner
/// in physical pixels and its size.
pub struct MonitorInfo {
    pub name: Option<String>,
    pub x: i32,
    pub y: i32,
    pub width: u32,
    pub height: u32,
}

/// Vertical offset from the top of a monitor where a recovered overlay is put.
pub const TOP_MARGIN: i32 = 24;

/// Mathematical meaning of `intersects`: the rectangle at `(x, y)` of size
/// `w`×`h` overlaps the monitor rectangle at `(mx, my)` of size `mw`×`mh`.
pub open spec fn spec_intersects(x: int, y: int, w: int, h: int, mx: int, my: int, mw: int, mh: int) -> bool {
    x < mx + mw && x + w > mx && y < my + mh && y + h > my
}

pub open spec fn fits_i32(v: int) -> bool {
    i32::MIN <= v <= i32::MAX
}

/// The sums that the short-circuit evaluation of `intersects` computes all
/// fit in `i32` (elsewhere the computation overflows).
pub open spec fn intersects_defined(x: i32, y: i32, w: i32, h: i32, mx: i32, my: i32, mw: i32, mh: i32) -> bool {
    &&& fits_i32(mx + mw)
    &&& x < mx + mw ==> fits_i32(x + w)
    &&& (x < mx + mw && x + w > mx) ==> fits_i32(my + mh)
    &&& (x < mx + mw && x + w > mx && y < my + mh) ==> fits_i32(y + h)
}

/// Whether a window rectangle overlaps a monitor rectangle.
pub fn intersects(x: i32, y: i32, w: i32, h: i32, mx: i32, my: i32, mw: i32, mh: i32) -> (r: bool)
    requires
        intersects_defined(x, y, w, h, mx, my, mw, mh),
    ensures
        r == spec_intersects(x as int, y as int, w as int, h as int, mx as int, my as int, mw as int, mh as int),
{
    x < mx + mw && x + w > mx && y < my + mh && y + h > my
}

/// The monitor carries the saved name (two missing names match as well).
pub open spec fn name_matches(m: MonitorInfo, saved: Option<String>) -> bool {
    opt_string_view(m.name) == opt_string_view(saved)
}

/// The window at `(x, y)` with the given size overlaps monitor `m`; sizes are
/// reinterpreted as `i32` the way the window system's values are.
pub open spec fn overlaps(m: MonitorInfo, x: i32, y: i32, w: u32, h: u32) -> bool {
    spec_intersects(x as int, y as int, (w as i32) as int, (h as i32) as int,
        m.x as int, m.y as int, (m.width as i32) as int, (m.height as i32) as int)
}

pub open spec fn overlap_defined(m: MonitorInfo, x: i32, y: i32, w: u32, h: u32) -> bool {
    intersects_defined(x, y, w as i32, h as i32, m.x, m.y, m.width as i32, m.height as i32)
}

/// Index of the first monitor, from `i` on, whose name matches.
pub open spec fn find_named(ms: Seq<MonitorInfo>, saved: Option<String>, i: int) -> Option<int>
    decreases ms.len() - i,
{
    if i < 0 || i >= ms.len() {
        None
    } else if name_matches(ms[i], saved) {
        Some(i)
    } else {
        find_named(ms, saved, i + 1)
    }
}

/// Index of the first monitor, from `i` on, that the saved window overlaps.
pub open spec fn find_overlapping(ms: Seq<MonitorInfo>, x: i32, y: i32, w: u32, h: u32, i: int) -> Option<int>
    decreases ms.len() - i,
{
    if i < 0 || i >= ms.len() {
        None
    } else if overlaps(ms[i], x, y, w, h) {
        Some(i)
    } else {
        find_overlapping(ms, x, y, w, h, i + 1)
    }
}

/// Every overlap test that the search from `i` performs is free of overflow.
pub open spec fn search_defined(ms: Seq<MonitorInfo>, x: i32, y: i32, w: u32, h: u32, i: int) -> bool
    decreases ms.len() - i,
{
    if i < 0 || i >= ms.len() {
        true
    } else {
        overlap_defined(ms[i], x, y, w, h) && (overlaps(ms[i], x, y, w, h) || search_defined(ms, x, y, w, h, i + 1))
    }
}

/// The monitor the overlay is restored onto: the one with the saved name,
/// else the first one the saved window overlaps, else the first one.
pub open spec fn restore_target(ms: Seq<MonitorInfo>, saved: Option<String>, x: i32, y: i32, w: u32, h: u32) -> Option<int> {
    match find_named(ms, saved, 0) {
        Some(i) => Some(i),
        None => match find_overlapping(ms, x, y, w, h, 0) {
            Some(i) => Some(i),
            None => if ms.len() > 0 { Some(0) } else { None },
        },
    }
}

/// Horizontal centre of a window of width `w` on monitor `m`, and the top margin.
pub open spec fn centered_x(m: MonitorInfo, w: u32) -> int {
    m.x + (if m.width >= w { (m.width - w) as int } else { 0 }) / 2
}

pub open spec fn centered_y(m: MonitorInfo) -> int {
    m.y + TOP_MARGIN
}

pub open spec fn centered_defined(m: MonitorInfo, w: u32) -> bool {
    fits_i32(centered_x(m, w)) && fits_i32(centered_y(m))
}

/// All arithmetic that restoring performs on these inputs is free of overflow.
pub open spec fn restore_defined(ms: Seq<MonitorInfo>, saved: Option<String>, x: i32, y: i32, w: u32, h: u32) -> bool {
    &&& find_named(ms, saved, 0) is None ==> search_defined(ms, x, y, w, h, 0)
    &&& restore_target(ms, saved, x, y, w, h) matches Some(t) ==> {
        &&& overlap_defined(ms[t], x, y, w, h)
        &&& !overlaps(ms[t], x, y, w, h) ==> centered_defined(ms[t], w)
    }
}

/// Where the overlay goes: its saved position if that overlaps the target
/// monitor (negative coordinates included), else centred near the top of it.
pub open spec fn spec_restore(ms: Seq<MonitorInfo>, saved: Option<String>, x: i32, y: i32, w: u32, h: u32) -> Option<(int, int)> {
    match restore_target(ms, saved, x, y, w, h) {
        None => None,
        Some(t) => if overlaps(ms[t], x, y, w, h) {
            Some((x as int, y as int))
        } else {
            Some((centered_x(ms[t], w), centered_y(ms[t])))
        },
    }
}

fn same_name(a: &Option<String>, b: &Option<String>) -> (r: bool)
    ensures
        r == (opt_string_view(*a) == opt_string_view(*b)),
{
    match (a, b) {
        (None, None) => true,
        (Some(a), Some(b)) => *a == *b,
        _ => false,
    }
}

fn overlaps_exec(m: &MonitorInfo, x: i32, y: i32, w: u32, h: u32) -> (r: bool)
    requires
        overlap_defined(*m, x, y, w, h),
    ensures
        r == overlaps(*m, x, y, w, h),
{
    intersects(x, y, w as i32, h as i32, m.x, m.y, m.width as i32, m.height as i32)
}

/// Position of a window of width `window_width` centred on `m`, `TOP_MARGIN`
/// pixels below its top edge.
pub fn centered_position(m: &MonitorInfo, window_width: u32) -> (r: (i32, i32))
    requires
        centered_defined(*m, window_width),
    ensures
        r.0 == centered_x(*m, window_width),
        r.1 == centered_y(*m),
{
    let free = m.width.saturating_sub(window_width);
    let half = free / 2;
    (m.x + half as i32, m.y + TOP_MARGIN)
}

pub proof fn lemma_find_named_in_range(ms: Seq<MonitorInfo>, saved: Option<String>, i: int)
    ensures
        find_named(ms, saved, i) matches Some(k) ==> 0 <= i <= k < ms.len(),
    decreases ms.len() - i,
{
    if 0 <= i < ms.len() {
        lemma_find_named_in_range(ms, saved, i + 1);
    }
}

pub proof fn lemma_find_overlapping_in_range(ms: Seq<MonitorInfo>, x: i32, y: i32, w: u32, h: u32, i: int)
    ensures
        find_overlapping(ms, x, y, w, h, i) matches Some(k) ==> 0 <= i <= k < ms.len() && overlaps(ms[k], x, y, w, h),
    decreases ms.len() - i,
{
    if 0 <= i < ms.len() {
        lemma_find_overlapping_in_range(ms, x, y, w, h, i + 1);
    }
}

/// The chosen monitor is one of the list, and there is one when the list is
/// not empty.
pub proof fn lemma_targets_in_range(ms: Seq<MonitorInfo>, saved: Option<String>, x: i32, y: i32, w: u32, h: u32)
    ensures
        restore_target(ms, saved, x, y, w, h) matches Some(t) ==> 0 <= t < ms.len(),
        restore_target(ms, saved, x, y, w, h) is Some <==> ms.len() > 0,
{
    lemma_find_named_in_range(ms, saved, 0);
    lemma_find_overlapping_in_range(ms, x, y, w, h, 0);
}

fn find_named_exec(monitors: &Vec<MonitorInfo>, saved: &Option<String>) -> (r: Option<usize>)
    ensures
        match r {
            Some(t) => find_named(monitors@, *saved, 0) == Some(t as int),
            None => find_named(monitors@, *saved, 0) is None,
        },
{
    let mut i: usize = 0;
    while i < monitors.len()
        invariant
            i <= monitors@.len(),
            find_named(monitors@, *saved, 0) == find_named(monitors@, *saved, i as int),
        decreases monitors.len() - i,
    {
        if same_name(&monitors[i].name, saved) {
            return Some(i);
        }
        i = i + 1;
    }
    None
}

fn find_overlapping_exec(monitors: &Vec<MonitorInfo>, x: i32, y: i32, w: u32, h: u32) -> (r: Option<usize>)
    requires
        search_defined(monitors@, x, y, w, h, 0),
    ensures
        match r {
            Some(t) => find_overlapping(monitors@, x, y, w, h, 0) == Some(t as int),
            None => find_overlapping(monitors@, x, y, w, h, 0) is None,
        },
{
    let mut i: usize = 0;
    while i < monitors.len()
        invariant
            i <= monitors@.len(),
            search_defined(monitors@, x, y, w, h, i as int),
            find_overlapping(monitors@, x, y, w, h, 0) == find_overlapping(monitors@, x, y, w, h, i as int),
        decreases monitors.len() - i,
    {
        if overlaps_exec(&monitors[i], x, y, w, h) {
            return Some(i);
        }
        i = i + 1;
    }
    None
}

fn fits_i32_exec(v: i64) -> (r: bool)
    ensures
        r == fits_i32(v as int),
{
    -2147483648i64 <= v && v <= 2147483647i64
}

/// Whether `intersects` can be evaluated on these values without overflow.
pub fn intersects_defined_exec(x: i32, y: i32, w: i32, h: i32, mx: i32, my: i32, mw: i32, mh: i32) -> (r: bool)
    ensures
        r == intersects_defined(x, y, w, h, mx, my, mw, mh),
{
    let right = mx as i64 + mw as i64;
    let bottom = my as i64 + mh as i64;
    let x_end = x as i64 + w as i64;
    let y_end = y as i64 + h as i64;
    fits_i32_exec(right)
        && (!((x as i64) < right) || fits_i32_exec(x_end))
        && (!((x as i64) < right && x_end > mx as i64) || fits_i32_exec(bottom))
        && (!((x as i64) < right && x_end > mx as i64 && (y as i64) < bottom) || fits_i32_exec(y_end))
}

fn overlap_defined_exec(m: &MonitorInfo, x: i32, y: i32, w: u32, h: u32) -> (r: bool)
    ensures
        r == overlap_defined(*m, x, y, w, h),
{
    intersects_defined_exec(x, y, w as i32, h as i32, m.x, m.y, m.width as i32, m.height as i32)
}

/// Whether `centered_position` can be computed on these values without overflow.
pub fn centered_defined_exec(m: &MonitorInfo, window_width: u32) -> (r: bool)
    ensures
        r == centered_defined(*m, window_width),
{
    let free: u32 = m.width.saturating_sub(window_width);
    fits_i32_exec(m.x as i64 + (free / 2) as i64) && fits_i32_exec(m.y as i64 + TOP_MARGIN as i64)
}

fn search_defined_exec(monitors: &Vec<MonitorInfo>, x: i32, y: i32, w: u32, h: u32) -> (r: bool)
    ensures
        r == search_defined(monitors@, x, y, w, h, 0),
{
    let mut i: usize = monitors.len();
    let mut ok = true;
    while i > 0
        invariant
            i <= monitors@.len(),
            ok == search_defined(monitors@, x, y, w, h, i as int),
        decreases i,
    {
        let m = &monitors[i - 1];
        ok = overlap_defined_exec(m, x, y, w, h) && (overlaps_exec_if_defined(m, x, y, w, h) || ok);
        i = i - 1;
    }
    ok
}

fn overlaps_exec_if_defined(m: &MonitorInfo, x: i32, y: i32, w: u32, h: u32) -> (r: bool)
    ensures
        overlap_defined(*m, x, y, w, h) ==> r == overlaps(*m, x, y, w, h),
{
    if overlap_defined_exec(m, x, y, w, h) {
        overlaps_exec(m, x, y, w, h)
    } else {
        false
    }
}

/// Whether `restore_position` can be computed on these values without
/// overflow (elsewhere the placement arithmetic overflows `i32`).
pub fn restore_defined_exec(
    saved_x: i32,
    saved_y: i32,
    saved_monitor: &Option<String>,
    window_width: u32,
    window_height: u32,
    monitors: &Vec<MonitorInfo>,
) -> (r: bool)
    ensures
        r == restore_defined(monitors@, *saved_monitor, saved_x, saved_y, window_width, window_height),
{
    proof {
        lemma_find_named_in_range(monitors@, *saved_monitor, 0);
        lemma_find_overlapping_in_range(monitors@, saved_x, saved_y, window_width, window_height, 0);
    }
    let named = find_named_exec(monitors, saved_monitor);
    let target = match named {
        Some(t) => Some(t),
        None => {
            if !search_defined_exec(monitors, saved_x, saved_y, window_width, window_height) {
                return false;
            }
            match find_overlapping_exec(monitors, saved_x, saved_y, window_width, window_height) {
                Some(t) => Some(t),
                None => if monitors.len() > 0 { Some(0) } else { None },
            }
        },
    };
    match target {
        None => true,
        Some(t) => {
            let m = &monitors[t];
            overlap_defined_exec(m, saved_x, saved_y, window_width, window_height)
                && (overlaps_exec(m, saved_x, saved_y, window_width, window_height)
                    || centered_defined_exec(m, window_width))
        },
    }
}

/// Chooses where a saved overlay position is restored among the available
/// monitors. `None` when there is no monitor at all.
pub fn restore_position(
    saved_x: i32,
    saved_y: i32,
    saved_monitor: &Option<String>,
    window_width: u32,
    window_height: u32,
    monitors: &Vec<MonitorInfo>,
) -> (r: Option<(i32, i32)>)
    requires
        restore_defined(monitors@, *saved_monitor, saved_x, saved_y, window_width, window_height),
    ensures
        match (r, spec_restore(monitors@, *saved_monitor, saved_x, saved_y, window_width, window_height)) {
            (None, None) => true,
            (Some(p), Some(q)) => p.0 == q.0 && p.1 == q.1,
            _ => false,
        },
{
    let target = match find_named_exec(monitors, saved_monitor) {
        Some(t) => Some(t),
        None => match find_overlapping_exec(monitors, saved_x, saved_y, window_width, window_height) {
            Some(t) => Some(t),
            None => if monitors.len() > 0 { Some(0) } else { None },
        },
    };
    proof {
        lemma_find_named_in_range(monitors@, *saved_monitor, 0);
        lemma_find_overlapping_in_range(monitors@, saved_x, saved_y, window_width, window_height, 0);
    }
    match target {
        None => None,
        Some(t) => {
            let m = &monitors[t];
            if overlaps_exec(m, saved_x, saved_y, window_width, window_height) {
                Some((saved_x, saved_y))
            } else {
                Some(centered_position(m, window_width))
            }
        },
    }
}

} // verus!
