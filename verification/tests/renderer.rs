use vindskrivare::fmt::{format_metric, format_value};
use vindskrivare::readings::{Health, Readings};
use vindskrivare::render::{
    connecting_asset, graph_columns, graph_pos, page_background, reading_pos, AssetId,
    ConnectionStage, History, Page, RenderState, CYCLE_LEN, GRAPH_HEIGHT, GRAPH_WIDTH,
};

fn snapshot(pm2_5: i64) -> Readings {
    Readings {
        pm1_0: Some(0),
        pm2_5: Some(pm2_5),
        pm4_0: Some(0),
        pm10_0: Some(0),
        voc_index: Some(0),
        nox_index: Some(0),
        temperature: Some(21_000),
        humidity: Some(40_000),
    }
}

#[test]
fn page_cadence_over_one_cycle() {
    let mut state = RenderState::new();
    let mut pages = Vec::new();
    for _ in 0..CYCLE_LEN {
        pages.push(state.on_snapshot(&snapshot(0)).page);
    }
    for (idx, page) in pages.iter().enumerate() {
        let expected = if idx <= 25 && idx % 5 == 0 {
            Some(Page::Readings)
        } else if (26..50).contains(&idx) && idx % 3 == 0 {
            Some(Page::Graphs)
        } else {
            None
        };
        assert_eq!(*page, expected, "frame {idx}");
    }
}

#[test]
fn first_frame_redraws_in_full() {
    let mut state = RenderState::new();
    let plan = state.on_snapshot(&snapshot(0));
    assert_eq!(plan.page, Some(Page::Readings));
    assert!(plan.full_redraw);
}

#[test]
fn steady_tier_and_page_need_no_full_redraw() {
    let mut state = RenderState::new();
    let first = state.on_snapshot(&snapshot(0));
    assert!(first.full_redraw);
    // frames 1..=4 are skipped, frame 5 renders the same page and tier
    for idx in 1..=5 {
        let plan = state.on_snapshot(&snapshot(0));
        if idx == 5 {
            assert_eq!(plan.page, Some(Page::Readings));
            assert!(!plan.full_redraw);
        } else {
            assert_eq!(plan.page, None);
            assert!(!plan.full_redraw);
        }
    }
}

#[test]
fn tier_change_redraws_in_full_exactly_once() {
    let mut state = RenderState::new();
    state.on_snapshot(&snapshot(0));
    for _ in 1..5 {
        state.on_snapshot(&snapshot(0));
    }
    // frame 5: the tier flips to Warning; one full redraw
    let plan = state.on_snapshot(&snapshot(30_000));
    assert_eq!(plan.page, Some(Page::Readings));
    assert_eq!(plan.tier, Health::Warning);
    assert!(plan.full_redraw);
    for _ in 6..10 {
        state.on_snapshot(&snapshot(30_000));
    }
    // frame 10: same page, unchanged tier; fields only
    let plan = state.on_snapshot(&snapshot(30_000));
    assert_eq!(plan.page, Some(Page::Readings));
    assert!(!plan.full_redraw);
}

#[test]
fn page_switch_redraws_in_full() {
    let mut state = RenderState::new();
    let mut plans = Vec::new();
    for _ in 0..CYCLE_LEN {
        plans.push(state.on_snapshot(&snapshot(0)));
    }
    // frame 27 opens the graph page's run
    assert_eq!(plans[27].page, Some(Page::Graphs));
    assert!(plans[27].full_redraw);
    assert_eq!(plans[30].page, Some(Page::Graphs));
    assert!(!plans[30].full_redraw);
}

#[test]
fn history_starts_flat_and_keeps_newest_first() {
    let mut h = History::new();
    let zeroes = h.recent();
    assert_eq!(zeroes.len(), GRAPH_WIDTH);
    assert!(zeroes.iter().all(|v| *v == 0));
    h.push(1_000);
    h.push(2_000);
    h.push(3_000);
    let recent = h.recent();
    assert_eq!(recent.len(), GRAPH_WIDTH);
    assert_eq!(&recent[..3], &[3_000, 2_000, 1_000]);
    assert_eq!(recent[3], 0);
}

#[test]
fn history_overwrites_oldest_at_capacity() {
    let mut h = History::new();
    for v in 0..(GRAPH_WIDTH as i64 + 5) {
        h.push(v);
    }
    let recent = h.recent();
    assert_eq!(recent[0], GRAPH_WIDTH as i64 + 4);
    assert_eq!(recent[GRAPH_WIDTH - 1], 5);
}

#[test]
fn graph_rescales_to_its_own_span() {
    let values = vec![0, 1_000, 2_000];
    let cols = graph_columns(&values, GRAPH_HEIGHT);
    // height 35: the maximum sits at the top edge, the minimum at the bottom
    assert_eq!(cols, vec![34, 17, 0]);
}

#[test]
fn flat_graph_draws_a_mid_line() {
    let values = vec![4_200; 10];
    let cols = graph_columns(&values, GRAPH_HEIGHT);
    assert!(cols.iter().all(|c| *c == GRAPH_HEIGHT / 2));
}

#[test]
fn connecting_screens_follow_the_stage() {
    assert_eq!(connecting_asset(&ConnectionStage::Wifi), AssetId::ConnectWifi);
    assert_eq!(connecting_asset(&ConnectionStage::Dhcp), AssetId::ConnectDhcp);
    assert_eq!(connecting_asset(&ConnectionStage::Ready), AssetId::ConnectReady);
}

#[test]
fn backgrounds_follow_page_and_tier() {
    assert_eq!(page_background(&Page::Readings, &Health::Okay), AssetId::ReadingsOk);
    assert_eq!(page_background(&Page::Readings, &Health::Warning), AssetId::ReadingsUnhappy);
    assert_eq!(
        page_background(&Page::Readings, &Health::Dangerous),
        AssetId::ReadingsDangerous
    );
    assert_eq!(page_background(&Page::Graphs, &Health::Okay), AssetId::GraphsOk);
    assert_eq!(page_background(&Page::Graphs, &Health::Warning), AssetId::GraphsUnhappy);
    assert_eq!(page_background(&Page::Graphs, &Health::Dangerous), AssetId::GraphsDangerous);
}

#[test]
fn field_positions_step_down_the_rows() {
    assert_eq!(reading_pos(60, 0), (60, 28));
    assert_eq!(reading_pos(60, 3), (60, 28 + 3 * 66));
    assert_eq!(reading_pos(168, 1), (168, 28 + 66));
    assert_eq!(graph_pos(70, 0), (70, 23));
    assert_eq!(graph_pos(70, 3), (70, 23 + 3 * 66));
}

#[test]
fn formatting_precision_follows_magnitude() {
    assert_eq!(format_value(0), "0");
    assert_eq!(format_value(30_000), "30.0");
    assert_eq!(format_value(100_000), "100");
    assert_eq!(format_value(123_456), "123");
    assert_eq!(format_value(12_345), "12.3");
    assert_eq!(format_value(5_500), "5.50");
    assert_eq!(format_value(999), "0.99");
    assert_eq!(format_value(9_999), "9.99");
    assert_eq!(format_value(-22_500), "-22.5");
    assert_eq!(format_value(-500), "-0.50");
}

#[test]
fn absent_metric_renders_placeholder() {
    assert_eq!(format_metric(&None), "...");
    assert_eq!(format_metric(&Some(30_000)), "30.0");
}
