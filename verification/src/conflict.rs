//! What the store says of a refused window: the two windows that overlap,
//! read from the detail of its failure, or that detail untouched.

use vstd::prelude::*;
use vstd::string::StringExecFns;
use crate::detail::{
    detail_of, key_marker, lemma_truncated_detail_is_not_scanned,
    lemma_written_detail_is_scanned, located, scan, scanned, writable, RawWindowView,
};
use crate::text::find;
use crate::time::Timestamp;

verus! {

/// One side of a conflict: a resource and the window that holds it.
#[derive(Debug, Clone)]
pub struct ReservationWindow {
    pub rid: String,
    pub start: Timestamp,
    pub end: Timestamp,
}

/// The two windows of a rejected write: the one that was attempted and the
/// one that was already there.
#[derive(Debug, Clone)]
pub struct ReservationConflict {
    pub new: ReservationWindow,
    pub old: ReservationWindow,
}

/// What is known of a conflict: the two windows where the store's detail
/// could be read, the detail as it came where it could not.
#[derive(Debug, Clone)]
pub enum ReservationConflictInfo {
    Parsed(ReservationConflict),
    Unparsed(String),
}

/// A window with its resource as a sequence of characters.
pub struct ReservationWindowView {
    pub rid: Seq<char>,
    pub start: Timestamp,
    pub end: Timestamp,
}

/// A conflict of two such windows.
pub struct ReservationConflictView {
    pub new: ReservationWindowView,
    pub old: ReservationWindowView,
}

/// What is known of a conflict, its texts as sequences of characters.
pub enum ReservationConflictInfoView {
    Parsed(ReservationConflictView),
    Unparsed(Seq<char>),
}

impl View for ReservationWindow {
    type V = ReservationWindowView;

    open spec fn view(&self) -> ReservationWindowView {
        ReservationWindowView { rid: self.rid@, start: self.start, end: self.end }
    }
}

impl View for ReservationConflict {
    type V = ReservationConflictView;

    open spec fn view(&self) -> ReservationConflictView {
        ReservationConflictView { new: self.new@, old: self.old@ }
    }
}

impl View for ReservationConflictInfo {
    type V = ReservationConflictInfoView;

    open spec fn view(&self) -> ReservationConflictInfoView {
        match self {
            ReservationConflictInfo::Parsed(c) => ReservationConflictInfoView::Parsed(c@),
            ReservationConflictInfo::Unparsed(s) => ReservationConflictInfoView::Unparsed(s@),
        }
    }
}

impl PartialEq for ReservationWindow {
    fn eq(&self, other: &Self) -> (r: bool) {
        self.rid == other.rid && self.start == other.start && self.end == other.end
    }
}

impl vstd::std_specs::cmp::PartialEqSpecImpl for ReservationWindow {
    open spec fn obeys_eq_spec() -> bool {
        true
    }

    open spec fn eq_spec(&self, other: &Self) -> bool {
        self@ == other@
    }
}

impl PartialEq for ReservationConflict {
    fn eq(&self, other: &Self) -> (r: bool) {
        self.new == other.new && self.old == other.old
    }
}

impl vstd::std_specs::cmp::PartialEqSpecImpl for ReservationConflict {
    open spec fn obeys_eq_spec() -> bool {
        true
    }

    open spec fn eq_spec(&self, other: &Self) -> bool {
        self@ == other@
    }
}

impl PartialEq for ReservationConflictInfo {
    fn eq(&self, other: &Self) -> (r: bool) {
        match self {
            ReservationConflictInfo::Parsed(a) => match other {
                ReservationConflictInfo::Parsed(b) => a.eq(b),
                ReservationConflictInfo::Unparsed(_) => false,
            },
            ReservationConflictInfo::Unparsed(a) => match other {
                ReservationConflictInfo::Parsed(_) => false,
                ReservationConflictInfo::Unparsed(b) => a.eq(b),
            },
        }
    }
}

impl vstd::std_specs::cmp::PartialEqSpecImpl for ReservationConflictInfo {
    open spec fn obeys_eq_spec() -> bool {
        true
    }

    open spec fn eq_spec(&self, other: &Self) -> bool {
        self@ == other@
    }
}

/// The form in which the store writes an instant inside a range: the day,
/// the time of day with or without a fraction of a second, and the offset
/// from UTC with or without its minutes.
pub open spec fn instant_format() -> Seq<char> {
    "%Y-%m-%d %H:%M:%S%.f%#z"@
}

/// What `chrono::DateTime::parse_from_str` makes of a text under a format:
/// the seconds since the epoch and the nanoseconds of the instant it reads,
/// `None` where it reads none.
pub uninterp spec fn parsed_instant(text: Seq<char>, format: Seq<char>) -> Option<(i64, u32)>;

/// The instant that a pair of seconds and nanoseconds stands for, where the
/// nanoseconds fit the field that holds them.
pub open spec fn instant_from(parts: Option<(i64, u32)>) -> Option<Timestamp> {
    match parts {
        Some((seconds, nanos)) => if nanos <= i32::MAX {
            Some(Timestamp { seconds: seconds, nanos: nanos as i32 })
        } else {
            None
        },
        None => None,
    }
}

/// The window that a resource makes with what was read of its two ends.
pub open spec fn window_of(
    rid: Seq<char>,
    start: Option<(i64, u32)>,
    end: Option<(i64, u32)>,
) -> Option<ReservationWindowView> {
    match (instant_from(start), instant_from(end)) {
        (Some(s), Some(e)) => Some(ReservationWindowView { rid: rid, start: s, end: e }),
        _ => None,
    }
}

/// The window of a key, its two ends read in the store's form.
pub open spec fn read_key(raw: RawWindowView) -> Option<ReservationWindowView> {
    window_of(
        raw.rid,
        parsed_instant(raw.start, instant_format()),
        parsed_instant(raw.end, instant_format()),
    )
}

/// What a detail says of a conflict: both windows where it holds two keys
/// whose ends read as instants, the detail itself in every other case.
pub open spec fn conflict_info(s: Seq<char>) -> ReservationConflictInfoView {
    match scanned(s) {
        Some((a, b)) => match (read_key(a), read_key(b)) {
            (Some(n), Some(o)) => ReservationConflictInfoView::Parsed(
                ReservationConflictView { new: n, old: o },
            ),
            _ => ReservationConflictInfoView::Unparsed(s),
        },
        None => ReservationConflictInfoView::Unparsed(s),
    }
}

/// Calls `chrono::DateTime::parse_from_str` and hands back the seconds
/// (`timestamp`) and nanoseconds (`timestamp_subsec_nanos`) of the instant
/// read. The contract gives that pair its name and claims nothing else: the
/// same text under the same format always reads the same.
#[verifier::external_body]
fn parse_instant(text: &str, format: &str) -> (r: Option<(i64, u32)>)
    ensures
        r == parsed_instant(text@, format@),
{
    match chrono::DateTime::parse_from_str(text, format) {
        Ok(t) => Some((t.timestamp(), t.timestamp_subsec_nanos())),
        Err(_) => None,
    }
}

impl ReservationWindow {
    /// Makes a window of a resource and what was read of its two ends; `None`
    /// where an end could not be read.
    pub fn from_parts(rid: String, start: Option<(i64, u32)>, end: Option<(i64, u32)>) -> (r:
        Option<ReservationWindow>)
        ensures
            match r {
                Some(w) => window_of(rid@, start, end) == Some(w@),
                None => window_of(rid@, start, end) is None,
            },
    {
        let s = match start {
            Some((seconds, nanos)) => {
                if nanos > 2_147_483_647 {
                    return None;
                }
                Timestamp { seconds, nanos: nanos as i32 }
            },
            None => { return None; },
        };
        let e = match end {
            Some((seconds, nanos)) => {
                if nanos > 2_147_483_647 {
                    return None;
                }
                Timestamp { seconds, nanos: nanos as i32 }
            },
            None => { return None; },
        };
        Some(ReservationWindow { rid, start: s, end: e })
    }
}

impl ReservationConflictInfo {
    /// Puts together what a detail says: the conflict of the two windows
    /// where both are there, the text itself where one is missing.
    pub fn from_windows(
        text: &str,
        new: Option<ReservationWindow>,
        old: Option<ReservationWindow>,
    ) -> (info: ReservationConflictInfo)
        ensures
            info@ == match (new, old) {
                (Some(n), Some(o)) => ReservationConflictInfoView::Parsed(
                    ReservationConflictView { new: n@, old: o@ },
                ),
                _ => ReservationConflictInfoView::Unparsed(text@),
            },
    {
        match new {
            Some(n) => match old {
                Some(o) => ReservationConflictInfo::Parsed(ReservationConflict { new: n, old: o }),
                None => ReservationConflictInfo::Unparsed(String::from_str(text)),
            },
            None => ReservationConflictInfo::Unparsed(String::from_str(text)),
        }
    }

    /// Reads the detail that the store gives when a write breaks the rule
    /// that no two windows on one resource overlap. It never fails: a detail
    /// that cannot be read comes back whole as `Unparsed`.
    pub fn parse(text: &str) -> (info: ReservationConflictInfo)
        ensures
            info@ == conflict_info(text@),
            info@ is Unparsed ==> info@ == ReservationConflictInfoView::Unparsed(text@),
            scanned(text@) is None ==> info@ == ReservationConflictInfoView::Unparsed(text@),
    {
        match scan(text) {
            Some((a, b)) => {
                let format = "%Y-%m-%d %H:%M:%S%.f%#z";
                let new_start = parse_instant(a.start.as_str(), format);
                let new_end = parse_instant(a.end.as_str(), format);
                let old_start = parse_instant(b.start.as_str(), format);
                let old_end = parse_instant(b.end.as_str(), format);
                let new = ReservationWindow::from_parts(a.rid, new_start, new_end);
                let old = ReservationWindow::from_parts(b.rid, old_start, old_end);
                Self::from_windows(text, new, old)
            },
            None => ReservationConflictInfo::Unparsed(String::from_str(text)),
        }
    }
}

/// The detail that the store writes for two keys is read as the conflict of
/// their two windows, the attempted one as `new` and the one that was there
/// as `old`, wherever the ends of both read as instants.
pub proof fn lemma_written_detail_is_parsed(new: RawWindowView, old: RawWindowView)
    requires
        writable(new),
        writable(old),
    ensures
        match (read_key(new), read_key(old)) {
            (Some(n), Some(o)) => conflict_info(detail_of(new, old))
                == ReservationConflictInfoView::Parsed(ReservationConflictView { new: n, old: o }),
            _ => conflict_info(detail_of(new, old)) == ReservationConflictInfoView::Unparsed(
                detail_of(new, old),
            ),
        },
{
    lemma_written_detail_is_scanned(new, old);
}

/// A detail cut short is not read as a conflict: where a text holds two
/// keys, each of its beginnings that stop before the end of the second key
/// is kept whole as `Unparsed`.
pub proof fn lemma_truncated_detail_is_unparsed(s: Seq<char>, k: int)
    requires
        located(s) matches Some((_, _, end)) && 0 <= k < end,
    ensures
        conflict_info(s.take(k)) == ReservationConflictInfoView::Unparsed(s.take(k)),
{
    lemma_truncated_detail_is_not_scanned(s, k);
}

/// A text in which the marker of a key does not occur is kept whole.
pub proof fn lemma_detail_without_key_is_unparsed(s: Seq<char>)
    requires
        find(s, key_marker(), 0) is None,
    ensures
        conflict_info(s) == ReservationConflictInfoView::Unparsed(s),
{
}

/// Whatever the text, what is read of it is either a conflict of two
/// windows or the text itself, untouched.
pub proof fn lemma_detail_is_parsed_or_kept(s: Seq<char>)
    ensures
        conflict_info(s) is Parsed || conflict_info(s) == ReservationConflictInfoView::Unparsed(s),
        scanned(s) is None ==> conflict_info(s) == ReservationConflictInfoView::Unparsed(s),
{
}

} // verus!
