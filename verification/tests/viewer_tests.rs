use bepinex_gui::bepinex_log::{BepInExLogEntry, LogLevel};
use bepinex_gui::filter::{visible_indices, Filter};
use bepinex_gui::render::{
    get_color_from_log_level, layout_logs, make_log_render_decision,
    scroll_when_trying_to_select_stuff_above_or_under_rect, HeightCache, LogColor,
    LogRenderDecision, Scroll,
};
use bepinex_gui::selection::{is_between, LogSelection, NO_SELECTION};

fn entry(level: LogLevel, text: &str) -> BepInExLogEntry {
    BepInExLogEntry::new(level, text)
}

fn sample_logs() -> Vec<BepInExLogEntry> {
    vec![
        entry(LogLevel::Fatal, "Fatal boot failure"),
        entry(LogLevel::Error, "Error in shader"),
        entry(LogLevel::Warning, "Warning: deprecated call"),
        entry(LogLevel::Message, "Message from game"),
        entry(LogLevel::Info, "Info: loaded 3 plugins"),
        entry(LogLevel::Debug, "debug NOISE"),
    ]
}

#[test]
fn filter_by_level_threshold() {
    let logs = sample_logs();
    let filter = Filter::new(LogLevel::Warning);
    let shown = visible_indices(&logs, &filter);
    assert_eq!(shown, vec![0, 1, 2]);
}

#[test]
fn filter_text_is_case_insensitive() {
    let logs = sample_logs();
    let mut filter = Filter::new(LogLevel::All);
    filter.set_text("noise");
    let shown = visible_indices(&logs, &filter);
    assert_eq!(shown, vec![5]);
    filter.set_text("ERROR");
    let shown = visible_indices(&logs, &filter);
    assert_eq!(shown, vec![1]);
}

#[test]
fn empty_text_shows_everything_under_threshold() {
    let logs = sample_logs();
    let filter = Filter::new(LogLevel::All);
    let shown = visible_indices(&logs, &filter);
    assert_eq!(shown, vec![0, 1, 2, 3, 4, 5]);
}

#[test]
fn both_conditions_must_hold() {
    let logs = sample_logs();
    let mut filter = Filter::new(LogLevel::Error);
    filter.set_text("warning");
    let shown = visible_indices(&logs, &filter);
    assert!(shown.is_empty());
}

#[test]
fn matches_agrees_with_visible_indices() {
    let logs = sample_logs();
    let mut filter = Filter::new(LogLevel::Info);
    filter.set_text("in");
    let shown = visible_indices(&logs, &filter);
    for (i, log) in logs.iter().enumerate() {
        assert_eq!(shown.contains(&i), filter.matches(log));
    }
}

#[test]
fn drag_selects_a_range() {
    let mut logs = sample_logs();
    let mut selection = LogSelection::new();
    // frame 1: press on entry 2
    selection.update_pointer_state(true, true);
    selection.update_selection(true, 2);
    // frames 2..: hold and hover down to entry 4
    selection.update_pointer_state(true, false);
    selection.update_selection(true, 3);
    selection.update_selection(true, 4);
    // release
    selection.update_pointer_state(false, false);
    selection.mark_selected(&mut logs);
    for (i, log) in logs.iter().enumerate() {
        assert_eq!(log.is_selected(), (2..=4).contains(&i), "index {}", i);
    }
}

#[test]
fn drag_upwards_selects_the_same_range() {
    let mut logs = sample_logs();
    let mut selection = LogSelection::new();
    selection.update_pointer_state(true, true);
    selection.update_selection(true, 4);
    selection.update_pointer_state(true, false);
    selection.update_selection(true, 1);
    selection.update_pointer_state(false, false);
    selection.mark_selected(&mut logs);
    for (i, log) in logs.iter().enumerate() {
        assert_eq!(log.is_selected(), (1..=4).contains(&i), "index {}", i);
    }
}

#[test]
fn pressing_the_anchor_again_unselects_everything() {
    let mut logs = sample_logs();
    let mut selection = LogSelection::new();
    selection.update_pointer_state(true, true);
    selection.update_selection(true, 3);
    selection.update_pointer_state(false, false);
    // a second press on the same entry clears the selection
    selection.update_pointer_state(true, true);
    selection.update_selection(true, 3);
    selection.update_pointer_state(false, false);
    selection.mark_selected(&mut logs);
    for log in logs.iter() {
        assert!(!log.is_selected());
    }
}

#[test]
fn pressing_outside_clears_the_selection() {
    let mut logs = sample_logs();
    let mut selection = LogSelection::new();
    selection.update_pointer_state(true, true);
    selection.update_selection(true, 1);
    selection.update_pointer_state(false, false);
    selection.update_pointer_state(true, true);
    selection.update_selection(false, 1);
    selection.mark_selected(&mut logs);
    for log in logs.iter() {
        assert!(!log.is_selected());
    }
}

#[test]
fn is_between_takes_bounds_in_either_order() {
    assert!(is_between(3, 1, 5));
    assert!(is_between(3, 5, 1));
    assert!(is_between(5, 5, 1));
    assert!(!is_between(0, 1, 5));
    assert!(!is_between(6, 5, 1));
    assert!(!is_between(3, NO_SELECTION, NO_SELECTION));
}

#[test]
fn render_decision_cases() {
    // unknown height: measure and cache
    assert_eq!(
        make_log_render_decision(None, 50, 600),
        LogRenderDecision::RenderAndCacheHeight
    );
    // wholly below the viewport
    assert_eq!(
        make_log_render_decision(Some(20), 601, 600),
        LogRenderDecision::SkipAndFakeRender
    );
    // wholly above the viewport
    assert_eq!(
        make_log_render_decision(Some(20), -21, 600),
        LogRenderDecision::SkipAndFakeRender
    );
    // straddling the top edge: render
    assert_eq!(
        make_log_render_decision(Some(20), -20, 600),
        LogRenderDecision::RenderNormally
    );
    // inside the viewport: render
    assert_eq!(
        make_log_render_decision(Some(20), 300, 600),
        LogRenderDecision::RenderNormally
    );
}

#[test]
fn virtualization_does_not_change_the_extent() {
    let logs = sample_logs();
    let filter = Filter::new(LogLevel::All);
    let measured = vec![10u32, 20, 30, 40, 50, 60];
    let mut cache_full = HeightCache::new();
    let extent_full = layout_logs(&logs, &filter, &mut cache_full, &measured, 0, 10_000, false);
    // first virtualized pass measures everything once
    let mut cache_virtual = HeightCache::new();
    let warm_up = layout_logs(&logs, &filter, &mut cache_virtual, &measured, 0, 25, true);
    // second virtualized pass can skip entries outside the small viewport
    let extent_virtual = layout_logs(&logs, &filter, &mut cache_virtual, &measured, -100, 25, true);
    assert_eq!(extent_full, 210);
    assert_eq!(warm_up, 210);
    assert_eq!(extent_virtual, 210);
}

#[test]
fn filtered_out_entries_reserve_no_space() {
    let logs = sample_logs();
    let filter = Filter::new(LogLevel::Error);
    let measured = vec![10u32, 20, 30, 40, 50, 60];
    let mut cache = HeightCache::new();
    let extent = layout_logs(&logs, &filter, &mut cache, &measured, 0, 10_000, true);
    assert_eq!(extent, 30);
}

#[test]
fn heights_are_cached_after_a_pass() {
    let logs = sample_logs();
    let filter = Filter::new(LogLevel::All);
    let measured = vec![7u32; 6];
    let mut cache = HeightCache::new();
    layout_logs(&logs, &filter, &mut cache, &measured, 0, 100, true);
    for i in 0..6 {
        assert_eq!(cache.get(i), Some(7));
    }
    assert_eq!(cache.get(6), None);
}

#[test]
fn auto_scroll_fires_only_on_growth_without_drag() {
    let mut scroll = Scroll::new();
    assert!(scroll.should_auto_scroll_to_bottom(true, 5, false));
    // same count again: no scroll
    assert!(!scroll.should_auto_scroll_to_bottom(true, 5, false));
    // growth but a drag is in progress: suppressed
    assert!(!scroll.should_auto_scroll_to_bottom(true, 9, true));
    // growth, drag finished
    assert!(scroll.should_auto_scroll_to_bottom(true, 9, false));
    // disabled: never
    assert!(!scroll.should_auto_scroll_to_bottom(false, 12, false));
}

#[test]
fn drag_just_past_an_edge_still_scrolls() {
    // a pointer one to three units above the top edge must keep scrolling
    // upward: the quarter is rounded away from zero, never to a stall
    assert_eq!(
        scroll_when_trying_to_select_stuff_above_or_under_rect(false, Some(-1), 0, 100),
        Some(1)
    );
    assert_eq!(
        scroll_when_trying_to_select_stuff_above_or_under_rect(false, Some(-3), 0, 100),
        Some(1)
    );
    // and one unit below the bottom edge keeps scrolling downward
    assert_eq!(
        scroll_when_trying_to_select_stuff_above_or_under_rect(false, Some(101), 0, 100),
        Some(-1)
    );
    assert_eq!(
        scroll_when_trying_to_select_stuff_above_or_under_rect(false, Some(103), 0, 100),
        Some(-1)
    );
}

#[test]
fn drag_past_the_edges_scrolls_proportionally() {
    // pointer below the bottom edge: scroll by a quarter of the distance
    assert_eq!(
        scroll_when_trying_to_select_stuff_above_or_under_rect(false, Some(140), 0, 100),
        Some(-10)
    );
    // pointer above the rectangle: scroll towards the top edge
    assert_eq!(
        scroll_when_trying_to_select_stuff_above_or_under_rect(false, Some(-40), 0, 100),
        Some(10)
    );
    // pointer exactly on the bottom edge: no movement
    assert_eq!(
        scroll_when_trying_to_select_stuff_above_or_under_rect(false, Some(100), 0, 100),
        Some(0)
    );
    // pointer inside the rectangle: nothing
    assert_eq!(
        scroll_when_trying_to_select_stuff_above_or_under_rect(true, Some(140), 0, 100),
        None
    );
    // no pointer position: nothing
    assert_eq!(
        scroll_when_trying_to_select_stuff_above_or_under_rect(false, None, 0, 100),
        None
    );
}

#[test]
fn colors_follow_severity() {
    assert_eq!(get_color_from_log_level(LogLevel::LevelNone), LogColor::Red);
    assert_eq!(get_color_from_log_level(LogLevel::Fatal), LogColor::Red);
    assert_eq!(get_color_from_log_level(LogLevel::Error), LogColor::Red);
    assert_eq!(get_color_from_log_level(LogLevel::Warning), LogColor::Yellow);
    assert_eq!(get_color_from_log_level(LogLevel::Message), LogColor::Info);
    assert_eq!(get_color_from_log_level(LogLevel::Info), LogColor::Info);
    assert_eq!(get_color_from_log_level(LogLevel::Debug), LogColor::Info);
    assert_eq!(get_color_from_log_level(LogLevel::All), LogColor::Info);
}
