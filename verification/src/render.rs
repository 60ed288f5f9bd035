//! The differential display renderer's decision state.
//!
//! The renderer turns the stream of snapshots into minimal screen
//! updates.  It keeps the last-rendered health tier, a bounded ring of
//! recent values per metric for graphing, and a frame counter that
//! paginates between the numeric view and the graph view at a fixed
//! cadence.  For each received snapshot it decides which page, if any,
//! to draw, whether the full background must be redrawn (first frame of
//! a page cycle, or a health-tier change) or only the changed regions,
//! and which background asset belongs to the page and tier.  The pixel
//! bus itself is a collaborator outside this crate: it receives the
//! plan, the formatted strings and the plotted columns as plain values.

use vstd::prelude::*;

use crate::readings::{spec_health, Health, Readings};
use crate::units::{in_value_range, VALUE_LIMIT};

verus! {

/// Width of the whole display, pixels.
pub const DISPLAY_W: u32 = 240;

/// Height of the whole display, pixels.
pub const DISPLAY_H: u32 = 280;

/// Width of one numeric reading field, pixels.
pub const READING_WIDTH: u32 = 71;

/// Height of one numeric reading field, pixels.
pub const READING_HEIGHT: u32 = 26;

/// Vertical distance between numeric reading rows, pixels.
pub const READING_SEP: i32 = 66;

/// Top edge of the first numeric reading row, pixels.
pub const FIRST_READING_Y: i32 = 28;

/// Width of one graph plot, pixels; also the length of each metric's
/// history ring.
pub const GRAPH_WIDTH: usize = 150;

/// Height of one graph plot, pixels.
pub const GRAPH_HEIGHT: u32 = 35;

/// Vertical distance between graph rows, pixels.
pub const GRAPH_SEP: i32 = 66;

/// Top edge of the first graph row, pixels.
pub const FIRST_GRAPH_Y: i32 = 23;

/// Snapshots per page cycle: the numeric view runs through the first
/// half of the cycle, the graph view through the second.
pub const CYCLE_LEN: u32 = 50;

/// The full-screen background images the renderer picks between.
#[derive(Clone, Copy, Debug, PartialEq, Eq, Structural)]
pub enum AssetId {
    /// The startup splash.
    BgStartup,
    /// The joining-the-radio-network screen.
    ConnectWifi,
    /// The waiting-for-an-address screen.
    ConnectDhcp,
    /// The network-ready screen.
    ConnectReady,
    /// Numeric view background, calm tier.
    ReadingsOk,
    /// Numeric view background, warning tier.
    ReadingsUnhappy,
    /// Numeric view background, dangerous tier.
    ReadingsDangerous,
    /// Graph view background, calm tier.
    GraphsOk,
    /// Graph view background, warning tier.
    GraphsUnhappy,
    /// Graph view background, dangerous tier.
    GraphsDangerous,
}

/// The stages the network bring-up walks through on the display.
#[derive(Clone, Copy, Debug, PartialEq, Eq, Structural)]
pub enum ConnectionStage {
    Wifi,
    Dhcp,
    Ready,
}

/// Which view a rendered frame shows.
#[derive(Clone, Copy, Debug, PartialEq, Eq, Structural)]
pub enum Page {
    /// The eight numeric reading fields.
    Readings,
    /// The four metric graphs.
    Graphs,
}

/// The screen shown while a connection stage is in progress.
pub open spec fn spec_connecting_asset(stage: ConnectionStage) -> AssetId {
    match stage {
        ConnectionStage::Wifi => AssetId::ConnectWifi,
        ConnectionStage::Dhcp => AssetId::ConnectDhcp,
        ConnectionStage::Ready => AssetId::ConnectReady,
    }
}

/// Map a connection stage to its full-screen image.
pub fn connecting_asset(stage: &ConnectionStage) -> (r: AssetId)
    ensures
        r == spec_connecting_asset(*stage),
{
    match stage {
        ConnectionStage::Wifi => AssetId::ConnectWifi,
        ConnectionStage::Dhcp => AssetId::ConnectDhcp,
        ConnectionStage::Ready => AssetId::ConnectReady,
    }
}

/// The background belonging to a page and a health tier.
pub open spec fn spec_page_background(page: Page, tier: Health) -> AssetId {
    match (page, tier) {
        (Page::Readings, Health::Okay) => AssetId::ReadingsOk,
        (Page::Readings, Health::Warning) => AssetId::ReadingsUnhappy,
        (Page::Readings, Health::Dangerous) => AssetId::ReadingsDangerous,
        (Page::Graphs, Health::Okay) => AssetId::GraphsOk,
        (Page::Graphs, Health::Warning) => AssetId::GraphsUnhappy,
        (Page::Graphs, Health::Dangerous) => AssetId::GraphsDangerous,
    }
}

/// Pick the background image for a page and a health tier.
pub fn page_background(page: &Page, tier: &Health) -> (r: AssetId)
    ensures
        r == spec_page_background(*page, *tier),
{
    match (page, tier) {
        (Page::Readings, Health::Okay) => AssetId::ReadingsOk,
        (Page::Readings, Health::Warning) => AssetId::ReadingsUnhappy,
        (Page::Readings, Health::Dangerous) => AssetId::ReadingsDangerous,
        (Page::Graphs, Health::Okay) => AssetId::GraphsOk,
        (Page::Graphs, Health::Warning) => AssetId::GraphsUnhappy,
        (Page::Graphs, Health::Dangerous) => AssetId::GraphsDangerous,
    }
}

/// Position of a numeric reading field: the caller's column, and the
/// row's top edge at a fixed separation.
pub fn reading_pos(x: i32, index: u32) -> (r: (i32, i32))
    requires
        index <= 8,
    ensures
        r.0 == x,
        r.1 == FIRST_READING_Y + READING_SEP * index,
{
    (x, FIRST_READING_Y + READING_SEP * (index as i32))
}

/// Position of a graph plot, laid out like the reading rows.
pub fn graph_pos(x: i32, index: u32) -> (r: (i32, i32))
    requires
        index <= 8,
    ensures
        r.0 == x,
        r.1 == FIRST_GRAPH_Y + GRAPH_SEP * index,
{
    (x, FIRST_GRAPH_Y + GRAPH_SEP * (index as i32))
}

/// A bounded ring of the most recent values of one metric, fixed width
/// [`GRAPH_WIDTH`]; pushing overwrites the oldest entry.  It starts out
/// holding zeroes.
pub struct History {
    idx: usize,
    readings: Vec<i64>,
}

impl History {
    /// The buffer slot holding the `i`-th newest entry.
    spec fn slot_of(self, i: int) -> int {
        if self.idx >= i + 1 {
            self.idx - 1 - i
        } else {
            self.idx - 1 - i + GRAPH_WIDTH
        }
    }

    /// The ring's entries, newest first, always [`GRAPH_WIDTH`] of them.
    pub closed spec fn entries(self) -> Seq<i64> {
        Seq::new(GRAPH_WIDTH as nat, |i: int| self.readings@[self.slot_of(i)])
    }

    /// The buffer has its fixed width and holds values in range.
    pub closed spec fn wf(self) -> bool {
        &&& self.readings@.len() == GRAPH_WIDTH
        &&& self.idx < GRAPH_WIDTH
        &&& forall|i: int|
            0 <= i < GRAPH_WIDTH ==> in_value_range(#[trigger] self.readings@[i] as int)
    }

    /// A fresh ring full of zeroes.
    pub fn new() -> (r: History)
        ensures
            r.wf(),
            r.entries().len() == GRAPH_WIDTH,
            forall|i: int| 0 <= i < GRAPH_WIDTH ==> #[trigger] r.entries()[i] == 0,
    {
        let mut readings: Vec<i64> = Vec::new();
        let mut i: usize = 0;
        while i < GRAPH_WIDTH
            invariant
                i <= GRAPH_WIDTH,
                readings@.len() == i,
                forall|j: int| 0 <= j < i ==> #[trigger] readings@[j] == 0,
            decreases GRAPH_WIDTH - i,
        {
            readings.push(0);
            i = i + 1;
        }
        History { idx: 0, readings }
    }

    /// Record one value: it becomes the newest entry and the oldest
    /// entry is gone.
    pub fn push(&mut self, value: i64)
        requires
            old(self).wf(),
            in_value_range(value as int),
        ensures
            final(self).wf(),
            final(self).entries() == seq![value] + old(self).entries().drop_last(),
    {
        let w = self.readings.len();
        self.readings[self.idx] = value;
        self.idx = if self.idx + 1 == w {
            0
        } else {
            self.idx + 1
        };
        proof {
            assert(final(self).entries() =~= seq![value] + old(self).entries().drop_last());
        }
    }

    /// The entries as a plain vector, newest first, for plotting.
    pub fn recent(&self) -> (r: Vec<i64>)
        requires
            self.wf(),
        ensures
            r@ == self.entries(),
    {
        let mut r: Vec<i64> = Vec::new();
        let mut i: usize = 0;
        while i < GRAPH_WIDTH
            invariant
                self.wf(),
                i <= GRAPH_WIDTH,
                r@.len() == i,
                forall|j: int| 0 <= j < i ==> #[trigger] r@[j] == self.entries()[j],
            decreases GRAPH_WIDTH - i,
        {
            let slot = if self.idx >= i + 1 {
                self.idx - 1 - i
            } else {
                self.idx + GRAPH_WIDTH - 1 - i
            };
            r.push(self.readings[slot]);
            i = i + 1;
        }
        proof {
            assert(r@ =~= self.entries());
        }
        r
    }
}

/// An absent metric is recorded as zero in the graph history.
pub open spec fn or_zero(v: Option<i64>) -> i64 {
    match v {
        Some(x) => x,
        None => 0,
    }
}

/// One history ring per metric.
pub struct HistoricReadings {
    pub pm1_0: History,
    pub pm2_5: History,
    pub pm4_0: History,
    pub pm10_0: History,
    pub voc: History,
    pub nox: History,
    pub temp: History,
    pub humidity: History,
}

impl HistoricReadings {
    /// Every ring is well formed.
    pub open spec fn wf(self) -> bool {
        &&& self.pm1_0.wf()
        &&& self.pm2_5.wf()
        &&& self.pm4_0.wf()
        &&& self.pm10_0.wf()
        &&& self.voc.wf()
        &&& self.nox.wf()
        &&& self.temp.wf()
        &&& self.humidity.wf()
    }

    /// Fresh zero-filled rings.
    pub fn new() -> (r: HistoricReadings)
        ensures
            r.wf(),
    {
        HistoricReadings {
            pm1_0: History::new(),
            pm2_5: History::new(),
            pm4_0: History::new(),
            pm10_0: History::new(),
            voc: History::new(),
            nox: History::new(),
            temp: History::new(),
            humidity: History::new(),
        }
    }

    /// Record one snapshot in every ring; an absent metric records a
    /// zero.
    pub fn push_snapshot(&mut self, r: &Readings)
        requires
            old(self).wf(),
            snapshot_in_range(*r),
        ensures
            final(self).wf(),
            final(self).pm1_0.entries() == seq![or_zero(r.pm1_0)] + old(
                self).pm1_0.entries().drop_last(),
            final(self).pm2_5.entries() == seq![or_zero(r.pm2_5)] + old(
                self).pm2_5.entries().drop_last(),
            final(self).pm4_0.entries() == seq![or_zero(r.pm4_0)] + old(
                self).pm4_0.entries().drop_last(),
            final(self).pm10_0.entries() == seq![or_zero(r.pm10_0)] + old(
                self).pm10_0.entries().drop_last(),
            final(self).voc.entries() == seq![or_zero(r.voc_index)] + old(
                self).voc.entries().drop_last(),
            final(self).nox.entries() == seq![or_zero(r.nox_index)] + old(
                self).nox.entries().drop_last(),
            final(self).temp.entries() == seq![or_zero(r.temperature)] + old(
                self).temp.entries().drop_last(),
            final(self).humidity.entries() == seq![or_zero(r.humidity)] + old(
                self).humidity.entries().drop_last(),
    {
        self.pm1_0.push(opt_or_zero(&r.pm1_0));
        self.pm2_5.push(opt_or_zero(&r.pm2_5));
        self.pm4_0.push(opt_or_zero(&r.pm4_0));
        self.pm10_0.push(opt_or_zero(&r.pm10_0));
        self.voc.push(opt_or_zero(&r.voc_index));
        self.nox.push(opt_or_zero(&r.nox_index));
        self.temp.push(opt_or_zero(&r.temperature));
        self.humidity.push(opt_or_zero(&r.humidity));
    }
}

/// Every present metric of the snapshot is inside the accepted range.
pub open spec fn snapshot_in_range(r: Readings) -> bool {
    &&& in_value_range(or_zero(r.pm1_0) as int)
    &&& in_value_range(or_zero(r.pm2_5) as int)
    &&& in_value_range(or_zero(r.pm4_0) as int)
    &&& in_value_range(or_zero(r.pm10_0) as int)
    &&& in_value_range(or_zero(r.voc_index) as int)
    &&& in_value_range(or_zero(r.nox_index) as int)
    &&& in_value_range(or_zero(r.temperature) as int)
    &&& in_value_range(or_zero(r.humidity) as int)
}

/// A present value, or zero for an absent one.
fn opt_or_zero(v: &Option<i64>) -> (r: i64)
    ensures
        r == or_zero(*v),
{
    match v {
        Some(x) => *x,
        None => 0,
    }
}

/// Which page, if any, frame `idx` of the cycle renders: the numeric
/// view every fifth snapshot through the first half of the cycle, the
/// graph view every third snapshot through the second half, nothing in
/// between — readings arrive every second but drawing each one would
/// flicker.
pub open spec fn spec_page_of(idx: u32) -> Option<Page> {
    if idx <= 25 && idx % 5 == 0 {
        Some(Page::Readings)
    } else if 26 <= idx < CYCLE_LEN && idx % 3 == 0 {
        Some(Page::Graphs)
    } else {
        None
    }
}

/// Whether frame `idx` is the first rendered frame of its page's run,
/// which always redraws the background in full.
pub open spec fn spec_first_of_cycle(idx: u32) -> bool {
    idx == 0 || idx == 27
}

/// What the renderer decides for one received snapshot.
#[derive(Clone, Copy, Debug, PartialEq, Eq, Structural)]
pub struct RenderPlan {
    /// Which page to draw, or nothing this frame.
    pub page: Option<Page>,
    /// Whether the full background must be drawn before the fields;
    /// never set on a frame that draws no page.
    pub full_redraw: bool,
    /// The snapshot's health tier.
    pub tier: Health,
}

/// The renderer's whole mutable state: the last-rendered health tier
/// (none before the first rendered frame), the graph histories, and the
/// frame counter driving pagination.
pub struct RenderState {
    pub last_health: Option<Health>,
    pub history: HistoricReadings,
    pub frame_idx: u32,
}

/// The plan a state yields for a snapshot: the page comes from the
/// frame counter, the tier from the health classifier, and a full
/// background redraw happens exactly on the first frame of a page run,
/// on the very first rendered frame, or when the tier changed since the
/// last rendered frame.
pub open spec fn spec_plan(s: RenderState, r: Readings) -> RenderPlan {
    let tier = spec_health(r);
    let page = spec_page_of(s.frame_idx);
    let full = page is Some && (spec_first_of_cycle(s.frame_idx) || s.last_health is None
        || s.last_health != Some(tier));
    RenderPlan { page, full_redraw: full, tier }
}

/// The last-rendered tier after a snapshot: rendered frames record the
/// snapshot's tier, skipped frames leave it untouched.
pub open spec fn spec_next_last_health(s: RenderState, r: Readings) -> Option<Health> {
    if spec_page_of(s.frame_idx) is Some {
        Some(spec_health(r))
    } else {
        s.last_health
    }
}

impl RenderState {
    /// The state is usable: histories well formed, frame counter inside
    /// the cycle.
    pub open spec fn wf(self) -> bool {
        &&& self.history.wf()
        &&& self.frame_idx < CYCLE_LEN
    }

    /// The renderer's state at startup: no frame rendered yet.
    pub fn new() -> (r: RenderState)
        ensures
            r.wf(),
            r.last_health is None,
            r.frame_idx == 0,
    {
        RenderState { last_health: None, history: HistoricReadings::new(), frame_idx: 0 }
    }

    /// Digest one received snapshot: record it in the graph histories,
    /// advance the frame counter, and decide what to draw.
    pub fn on_snapshot(&mut self, r: &Readings) -> (plan: RenderPlan)
        requires
            old(self).wf(),
            snapshot_in_range(*r),
        ensures
            final(self).wf(),
            plan == spec_plan(*old(self), *r),
            final(self).last_health == spec_next_last_health(*old(self), *r),
            final(self).frame_idx == (old(self).frame_idx + 1) % (CYCLE_LEN as int),
            final(self).history.pm1_0.entries() == seq![or_zero(r.pm1_0)] + old(
                self).history.pm1_0.entries().drop_last(),
            final(self).history.pm2_5.entries() == seq![or_zero(r.pm2_5)] + old(
                self).history.pm2_5.entries().drop_last(),
            final(self).history.pm4_0.entries() == seq![or_zero(r.pm4_0)] + old(
                self).history.pm4_0.entries().drop_last(),
            final(self).history.pm10_0.entries() == seq![or_zero(r.pm10_0)] + old(
                self).history.pm10_0.entries().drop_last(),
            final(self).history.voc.entries() == seq![or_zero(r.voc_index)] + old(
                self).history.voc.entries().drop_last(),
            final(self).history.nox.entries() == seq![or_zero(r.nox_index)] + old(
                self).history.nox.entries().drop_last(),
            final(self).history.temp.entries() == seq![or_zero(r.temperature)] + old(
                self).history.temp.entries().drop_last(),
            final(self).history.humidity.entries() == seq![or_zero(r.humidity)] + old(
                self).history.humidity.entries().drop_last(),
    {
        self.history.push_snapshot(r);
        let tier = r.health();
        let page = self.page_of_frame();
        let full_redraw = match page {
            Some(_) => {
                let changed = match &self.last_health {
                    None => true,
                    Some(t) => *t != tier,
                };
                let full = self.first_of_cycle() || changed;
                self.last_health = Some(tier);
                full
            },
            None => false,
        };
        self.frame_idx = if self.frame_idx + 1 == CYCLE_LEN {
            0
        } else {
            self.frame_idx + 1
        };
        RenderPlan { page, full_redraw, tier }
    }

    /// Which page the current frame renders.
    fn page_of_frame(&self) -> (r: Option<Page>)
        ensures
            r == spec_page_of(self.frame_idx),
    {
        if self.frame_idx <= 25 && self.frame_idx % 5 == 0 {
            Some(Page::Readings)
        } else if 26 <= self.frame_idx && self.frame_idx < CYCLE_LEN && self.frame_idx % 3 == 0 {
            Some(Page::Graphs)
        } else {
            None
        }
    }

    /// Whether the current frame opens its page's run.
    fn first_of_cycle(&self) -> (r: bool)
        ensures
            r == spec_first_of_cycle(self.frame_idx),
    {
        self.frame_idx == 0 || self.frame_idx == 27
    }
}

/// A rendered frame that is not the first of its page's run, arriving
/// while the snapshot's tier equals the last-rendered tier, never asks
/// for a full background redraw: only the changed fields are drawn.
pub proof fn lemma_steady_frame_needs_no_full_redraw(s: RenderState, r: Readings)
    requires
        s.last_health == Some(spec_health(r)),
        spec_page_of(s.frame_idx) is Some,
        !spec_first_of_cycle(s.frame_idx),
    ensures
        !spec_plan(s, r).full_redraw,
        spec_next_last_health(s, r) == s.last_health,
{
}

/// A tier change triggers exactly one full background redraw: the
/// rendered frame that sees the new tier redraws in full and records
/// the tier, so the next rendered frame of the same page run with the
/// same tier draws fields only.
pub proof fn lemma_tier_change_redraws_once(s: RenderState, r: Readings)
    requires
        s.last_health is Some,
        s.last_health != Some(spec_health(r)),
        spec_page_of(s.frame_idx) is Some,
    ensures
        spec_plan(s, r).full_redraw,
        spec_next_last_health(s, r) == Some(spec_health(r)),
{
}

/// A skipped frame renders nothing and leaves the last-rendered tier
/// untouched, so it cannot disturb the redraw decisions around it.
pub proof fn lemma_skipped_frame_changes_nothing(s: RenderState, r: Readings)
    requires
        spec_page_of(s.frame_idx) is None,
    ensures
        spec_plan(s, r).page is None,
        !spec_plan(s, r).full_redraw,
        spec_next_last_health(s, r) == s.last_health,
{
}

/// Minimum of a non-empty sequence of machine integers.
pub open spec fn seq_min(s: Seq<i64>) -> i64
    recommends
        s.len() >= 1,
    decreases s.len(),
{
    if s.len() <= 1 {
        s[0]
    } else if s.last() < seq_min(s.drop_last()) {
        s.last()
    } else {
        seq_min(s.drop_last())
    }
}

/// Maximum of a non-empty sequence of machine integers.
pub open spec fn seq_max(s: Seq<i64>) -> i64
    recommends
        s.len() >= 1,
    decreases s.len(),
{
    if s.len() <= 1 {
        s[0]
    } else if s.last() > seq_max(s.drop_last()) {
        s.last()
    } else {
        seq_max(s.drop_last())
    }
}

/// Every element lies between the minimum and the maximum.
pub proof fn lemma_min_max_bound(s: Seq<i64>, i: int)
    requires
        s.len() >= 1,
        0 <= i < s.len(),
    ensures
        seq_min(s) <= s[i] <= seq_max(s),
    decreases s.len(),
{
    if i < s.len() - 1 {
        lemma_min_max_bound(s.drop_last(), i);
    }
}

/// The vertical pixel offsets, measured from the top of a graph plot,
/// for a metric's history: each value rescaled to the history's own
/// observed span.  A flat history (minimum equals maximum) draws a flat
/// mid-line rather than dividing by zero.
pub open spec fn spec_column(s: Seq<i64>, height: int, i: int) -> int {
    let mn = seq_min(s) as int;
    let mx = seq_max(s) as int;
    if mn == mx {
        height / 2
    } else {
        height - 1 - ((s[i] - mn) * (height - 1)) / (mx - mn)
    }
}

/// Plot one metric's history: for each entry, its vertical offset from
/// the plot's top edge, in the same newest-first order.  Every offset
/// lies inside the plot.
pub fn graph_columns(values: &Vec<i64>, height: u32) -> (r: Vec<u32>)
    requires
        values@.len() >= 1,
        1 <= height <= 1024,
        forall|i: int| 0 <= i < values@.len() ==> in_value_range(#[trigger] values@[i] as int),
    ensures
        r@.len() == values@.len(),
        forall|i: int| 0 <= i < values@.len() ==> #[trigger] r@[i] == spec_column(
            values@,
            height as int,
            i,
        ),
        forall|i: int| 0 <= i < values@.len() ==> #[trigger] r@[i] < height,
{
    let n = values.len();
    let mut mn = values[0];
    let mut mx = values[0];
    let mut i: usize = 1;
    while i < n
        invariant
            1 <= i <= n,
            n == values@.len(),
            forall|j: int| 0 <= j < values@.len() ==> in_value_range(#[trigger] values@[j] as int),
            in_value_range(mn as int),
            in_value_range(mx as int),
            mn == seq_min(values@.take(i as int)),
            mx == seq_max(values@.take(i as int)),
        decreases n - i,
    {
        let v = values[i];
        proof {
            assert(values@.take(i as int + 1).drop_last() =~= values@.take(i as int));
            assert(values@.take(i as int + 1).last() == values@[i as int]);
        }
        if v < mn {
            mn = v;
        }
        if v > mx {
            mx = v;
        }
        i = i + 1;
    }
    proof {
        assert(values@.take(n as int) =~= values@);
    }
    let mut r: Vec<u32> = Vec::new();
    let mut i: usize = 0;
    while i < n
        invariant
            i <= n,
            n == values@.len(),
            1 <= height <= 1024,
            in_value_range(mn as int),
            in_value_range(mx as int),
            mn == seq_min(values@),
            mx == seq_max(values@),
            forall|j: int| 0 <= j < values@.len() ==> in_value_range(#[trigger] values@[j] as int),
            r@.len() == i,
            forall|j: int| 0 <= j < i ==> #[trigger] r@[j] == spec_column(
                values@,
                height as int,
                j,
            ),
            forall|j: int| 0 <= j < i ==> #[trigger] r@[j] < height,
        decreases n - i,
    {
        proof {
            lemma_min_max_bound(values@, 0);
            lemma_min_max_bound(values@, i as int);
        }
        let col: u32 = if mn == mx {
            height / 2
        } else {
            let diff: u64 = (values[i] - mn) as u64;
            let span: u64 = (mx - mn) as u64;
            proof {
                let d = diff as int;
                let h = height as int;
                assert(d * (h - 1) <= 2 * VALUE_LIMIT * 1023) by (nonlinear_arith)
                    requires
                        0 <= d <= 2 * VALUE_LIMIT,
                        0 <= h - 1 <= 1023,
                ;
            }
            let num: u64 = diff * (height as u64 - 1);
            let q: u64 = num / span;
            proof {
                let d = diff as int;
                let sp = span as int;
                let h = height as int;
                assert(d * (h - 1) <= sp * (h - 1)) by (nonlinear_arith)
                    requires
                        0 <= d <= sp,
                        h >= 1,
                ;
                assert((d * (h - 1)) / sp <= h - 1) by (nonlinear_arith)
                    requires
                        sp >= 1,
                        h >= 1,
                        d >= 0,
                        d * (h - 1) <= sp * (h - 1),
                ;
            }
            height - 1 - (q as u32)
        };
        r.push(col);
        i = i + 1;
    }
    r
}

} // verus!
