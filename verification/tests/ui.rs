use portfolio_tui::layout::{hsplit_percent, inset, vsplit_bands, Rect};
use portfolio_tui::render::{render, Color, DrawCmd, Style};
use portfolio_tui::state::{App, KeyCode, KeyEvent};

fn key(code: KeyCode) -> KeyEvent {
    KeyEvent { code }
}

fn area(width: u16, height: u16) -> Rect {
    Rect { x: 0, y: 0, width, height }
}

#[test]
fn default_state_has_five_tabs_first_selected() {
    let app = App::default();
    let labels: Vec<&str> = app.tabs.iter().map(|t| t.as_str()).collect();
    assert_eq!(
        labels,
        vec!["ABOUT ME", "CONTRIBUTIONS", "TECH BLOG", "BOOKS REVIEW", "SOCIAL"]
    );
    assert_eq!(app.current_tab, 0);
    assert_eq!(app.scroll, 0);
}

#[test]
fn left_from_first_tab_wraps_to_last() {
    let mut app = App::default();
    app.handle_event(key(KeyCode::Left));
    assert_eq!(app.current_tab, 4);
}

#[test]
fn right_from_last_tab_wraps_to_first() {
    let mut app = App::default();
    app.current_tab = 4;
    app.handle_event(key(KeyCode::Right));
    assert_eq!(app.current_tab, 0);
}

#[test]
fn right_right_left_selects_second_tab() {
    let mut app = App::default();
    app.handle_event(key(KeyCode::Right));
    app.handle_event(key(KeyCode::Right));
    app.handle_event(key(KeyCode::Left));
    assert_eq!(app.current_tab, 1);
    assert_eq!(app.tabs[app.current_tab].as_str(), "CONTRIBUTIONS");
}

#[test]
fn up_events_keep_scroll_at_zero() {
    let mut app = App::default();
    for _ in 0..5 {
        app.handle_event(key(KeyCode::Up));
        assert_eq!(app.scroll, 0);
    }
}

#[test]
fn down_events_count_and_up_decrements() {
    let mut app = App::default();
    for expected in 1..=7u16 {
        app.handle_event(key(KeyCode::Down));
        assert_eq!(app.scroll, expected);
    }
    app.handle_event(key(KeyCode::Up));
    assert_eq!(app.scroll, 6);
}

#[test]
fn down_down_down_up_leaves_scroll_at_two() {
    let mut app = App::default();
    app.handle_event(key(KeyCode::Down));
    app.handle_event(key(KeyCode::Down));
    app.handle_event(key(KeyCode::Down));
    app.handle_event(key(KeyCode::Up));
    assert_eq!(app.scroll, 2);
}

#[test]
fn down_saturates_at_maximum() {
    let mut app = App::default();
    app.scroll = u16::MAX;
    app.handle_event(key(KeyCode::Down));
    assert_eq!(app.scroll, u16::MAX);
}

#[test]
fn unwired_keys_change_nothing() {
    let mut app = App::default();
    app.handle_event(key(KeyCode::Right));
    app.handle_event(key(KeyCode::Down));
    for code in [KeyCode::Enter, KeyCode::Esc, KeyCode::Other] {
        app.handle_event(key(code));
        assert_eq!(app.current_tab, 1);
        assert_eq!(app.scroll, 1);
    }
}

#[test]
fn vertical_bands_partition_the_height() {
    let (header, body, footer) = vsplit_bands(area(80, 30), 3, 3);
    assert_eq!(header.height, 3);
    assert_eq!(body.height, 24);
    assert_eq!(footer.height, 3);
    assert_eq!(header.y, 0);
    assert_eq!(body.y, 3);
    assert_eq!(footer.y, 27);
    assert_eq!(header.height + body.height + footer.height, 30);
}

#[test]
fn vertical_bands_clamp_on_short_areas() {
    let (header, body, footer) = vsplit_bands(area(80, 2), 3, 3);
    assert_eq!(header.height, 2);
    assert_eq!(body.height, 0);
    assert_eq!(footer.height, 0);
    assert_eq!(header.height + body.height + footer.height, 2);

    let (header, body, footer) = vsplit_bands(area(80, 4), 3, 3);
    assert_eq!(header.height, 3);
    assert_eq!(body.height, 0);
    assert_eq!(footer.height, 1);
}

#[test]
fn header_split_tiles_the_width() {
    let cols = hsplit_percent(area(80, 3), &vec![5, 95]);
    assert_eq!(cols.len(), 2);
    assert_eq!(cols[0].width, 4);
    assert_eq!(cols[1].width, 76);
    assert_eq!(cols[0].x, 0);
    assert_eq!(cols[1].x, 4);
    assert_eq!(cols[0].width + cols[1].width, 80);
}

#[test]
fn footer_split_tiles_the_width() {
    let cols = hsplit_percent(area(100, 3), &vec![20, 60, 20]);
    assert_eq!(cols.len(), 3);
    assert_eq!(cols[0].width, 20);
    assert_eq!(cols[1].width, 60);
    assert_eq!(cols[2].width, 20);
    assert_eq!(cols[0].width + cols[1].width + cols[2].width, 100);
}

#[test]
fn uneven_split_still_tiles_the_width() {
    let cols = hsplit_percent(area(83, 3), &vec![20, 60, 20]);
    let total: u16 = cols.iter().map(|c| c.width).sum();
    assert_eq!(total, 83);
    assert_eq!(cols[0].x, 0);
    assert_eq!(cols[1].x, cols[0].x + cols[0].width);
    assert_eq!(cols[2].x, cols[1].x + cols[1].width);
}

#[test]
fn inset_shrinks_by_the_border() {
    assert_eq!(
        inset(Rect { x: 10, y: 10, width: 20, height: 3 }, 1),
        Rect { x: 11, y: 11, width: 18, height: 1 }
    );
    let degenerate = inset(Rect { x: 0, y: 0, width: 2, height: 2 }, 1);
    assert_eq!(degenerate.width, 0);
    assert_eq!(degenerate.height, 0);
}

#[test]
fn render_emits_the_six_commands_in_order() {
    let app = App::default();
    let cmds = render(&app, area(100, 30));
    assert_eq!(cmds.len(), 6);
    match &cmds[0] {
        DrawCmd::Canvas { area, bg } => {
            assert_eq!(*area, Rect { x: 0, y: 0, width: 100, height: 30 });
            assert_eq!(*bg, Color::Rgb(7, 54, 66));
        }
        other => panic!("expected the canvas first, got {:?}", other),
    }
    match &cmds[2] {
        DrawCmd::TabStrip { area, labels, divider, base, highlight, selected } => {
            // The right 95% of the 3-row header band: 100 * 5 / 100 == 5.
            assert_eq!(*area, Rect { x: 5, y: 0, width: 95, height: 3 });
            assert_eq!(labels.len(), 5);
            assert_eq!(labels[0].as_str(), "ABOUT ME");
            assert_eq!(divider.as_str(), " | ");
            assert_eq!(*base, Style { fg: Color::White, bold: false });
            assert_eq!(*highlight, Style { fg: Color::Rgb(181, 137, 0), bold: true });
            assert_eq!(*selected, 0);
        }
        other => panic!("expected the tab strip third, got {:?}", other),
    }
    match &cmds[4] {
        DrawCmd::Panel { area, bordered } => {
            // The middle 60% of the 3-row footer band.
            assert_eq!(*area, Rect { x: 20, y: 27, width: 60, height: 3 });
            assert!(*bordered);
        }
        other => panic!("expected the footer box fifth, got {:?}", other),
    }
    match &cmds[5] {
        DrawCmd::Text { area, spans, centered } => {
            assert_eq!(*area, Rect { x: 21, y: 28, width: 58, height: 1 });
            assert_eq!(spans.len(), 9);
            assert_eq!(spans[0].text.as_str(), "Use ");
            assert!(spans[1].style.bold);
            // The emphasized phrases carry the same accent color as the
            // selected-tab highlight.
            assert_eq!(spans[1].style, Style { fg: Color::Rgb(181, 137, 0), bold: true });
            assert_eq!(spans[1].text.as_str(), "left and right ");
            assert_eq!(spans[8].text.as_str(), "to go back.");
            assert!(*centered);
        }
        other => panic!("expected the instruction line last, got {:?}", other),
    }
}

#[test]
fn render_highlights_the_selected_tab() {
    let mut app = App::default();
    app.handle_event(key(KeyCode::Right));
    let cmds = render(&app, area(100, 30));
    match &cmds[2] {
        DrawCmd::TabStrip { selected, .. } => assert_eq!(*selected, 1),
        other => panic!("expected the tab strip third, got {:?}", other),
    }
}

#[test]
fn render_twice_gives_identical_commands() {
    let app = App::default();
    let first = render(&app, area(120, 40));
    let second = render(&app, area(120, 40));
    assert_eq!(first, second);
}

#[test]
fn render_survives_tiny_areas() {
    let app = App::default();
    for (w, h) in [(0u16, 0u16), (1, 1), (10, 2), (0, 30), (3, 5)] {
        let cmds = render(&app, area(w, h));
        assert_eq!(cmds.len(), 6);
    }
}
