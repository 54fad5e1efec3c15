use doit::{
    DefaultRenderer, HourglassRenderer, Progress, RetroRenderer, Style, SynthwaveRenderer,
    Timespan,
};

fn progress_at(start: i64, end: i64, current: i64) -> Progress {
    let timespan = Timespan::new(start, end).unwrap();
    Progress::new(timespan, current)
}

#[test]
fn test_build_bar() {
    let test_cases = vec![
        (0, 100, 0, "░░░░░░░░░░░░░░░░░░░░"),
        (0, 100, 50, "██████████░░░░░░░░░░"),
        (0, 100, 100, "████████████████████"),
    ];
    for (start, end, current, expected) in test_cases {
        let progress = progress_at(start, end, current);
        let renderer = DefaultRenderer::new(Some(String::from("Just Do It!")), progress);
        let bar = renderer.build_bar(20);
        assert_eq!(bar, expected);
    }
}

#[test]
fn test_default_render_layout() {
    let progress = progress_at(0, 86400, 43200);
    let renderer = DefaultRenderer::new(Some(String::from("deadline")), progress);
    let lines = renderer.render(10);
    assert_eq!(lines.len(), 6);
    assert_eq!(lines[0].text, "deadline");
    assert_eq!(lines[1].text, "01-01 00:00 → 01-02 00:00   |   50%   |   12 h / 1 d");
    assert_eq!(lines[2].text, "");
    assert_eq!(lines[3].text, "█████░░░░░");
    assert_eq!(lines[4].text, "");
    assert_eq!(lines[5].text, "12 h remaining");
    assert!(lines.iter().all(|l| !l.bold));
}

#[test]
fn test_default_render_idempotent() {
    let progress = progress_at(0, 7200, 1800);
    let renderer = DefaultRenderer::new(None, progress);
    let first = renderer.render(40);
    let second = renderer.render(40);
    assert_eq!(first.len(), second.len());
    for (a, b) in first.iter().zip(second.iter()) {
        assert_eq!(a.text, b.text);
        assert_eq!(a.bold, b.bold);
    }
}

#[test]
fn test_retro_render_layout() {
    let progress = progress_at(0, 100, 5);
    let renderer = RetroRenderer::new(Some(String::from("Just Do It!")), progress);
    let lines = renderer.render(12);
    assert_eq!(lines.len(), 13);
    assert_eq!(lines[0].text, "[JUST DO IT!] FOCUS SESSION INITIATED");
    assert_eq!(lines[1].text, "============");
    assert_eq!(lines[2].text, "[START]     1970-01-01 00:00:00");
    assert_eq!(lines[3].text, "[END]       1970-01-01 00:01:40");
    assert_eq!(lines[4].text, "[ELAPSED]   5% | 0 m");
    assert_eq!(lines[5].text, "[REMAINING] 1 m");
    assert_eq!(lines[6].text, "");
    assert_eq!(lines[7].text, "[PROGRESS]");
    assert_eq!(lines[8].text, "[█░░░░░░░░░]");
    assert_eq!(lines[9].text, "============");
    assert_eq!(
        lines[10].text,
        "STATUS: > MISSION INITIATED. LOCK AND LOAD, SOLDIER!"
    );
    assert_eq!(lines[11].text, "============");
    assert_eq!(lines[12].text, "(Q) QUIT | (CTRL+C) ABORT");
}

#[test]
fn test_retro_status_accomplished() {
    let progress = progress_at(0, 100, 100);
    let renderer = RetroRenderer::new(None, progress);
    let lines = renderer.render(10);
    assert_eq!(
        lines[9].text,
        "STATUS: > MISSION ACCOMPLISHED! EXCELLENT WORK, SOLDIER!"
    );
}

#[test]
fn test_synthwave_render_layout() {
    let progress = progress_at(0, 7200, 3600);
    let renderer = SynthwaveRenderer::new(Some(String::from("wave")), progress);
    let lines = renderer.render(40);
    assert_eq!(lines.len(), 6);
    assert_eq!(lines[0].text, "═ WAVE ═");
    assert!(lines[0].bold);
    assert_eq!(lines[1].text, format!("╔{}╗", "═".repeat(38)));
    // width 40 leaves 40 - 8 - 5 - 5 = 22 bar cells, half filled
    assert_eq!(lines[2].text, "║ 00:00  ███████████░░░░░░░░░░░  02:00 ║");
    assert_eq!(
        lines[3].text,
        format!("║{}50% | 1 h elapsed | 2 h remaining║", " ".repeat(8))
    );
    assert_eq!(lines[4].text, format!("╚{}╝", "═".repeat(38)));
    assert_eq!(
        lines[5].text,
        format!(
            "{}⚡ KEEP THE ENERGY FLOWING ⚡{}",
            " ".repeat(6),
            " ".repeat(7)
        )
    );
}

#[test]
fn test_hourglass_grid_empty() {
    let progress = progress_at(0, 1000, 0);
    let renderer = HourglassRenderer::new(None, progress);
    let grid = renderer.build_hourglass();
    assert_eq!(grid.len(), 19);
    assert_eq!(grid[0], "┏━━━━━━━━━┓");
    for line in grid.iter().take(7).skip(1) {
        assert_eq!(line, "┃█████████┃");
    }
    assert_eq!(grid[7], "┗━┓█████┏━┛");
    assert_eq!(grid[8], "  ┗━┓█┏━┛  ");
    assert_eq!(grid[9], "    ┃┊┃");
    assert_eq!(grid[10], "  ┏━┛┊┗━┓  ");
    assert_eq!(grid[11], "┏━┛░░┊░░┗━┓");
    for line in grid.iter().take(18).skip(12) {
        assert_eq!(line, "┃░░░░┊░░░░┃");
    }
    assert_eq!(grid[18], "┗━━━━━━━━━┛");
}

#[test]
fn test_hourglass_conservation_counts() {
    for (current, expected_filled) in [(0, 0), (250, 15), (500, 30), (998, 60), (1000, 60)] {
        let progress = progress_at(0, 1000, current);
        let renderer = HourglassRenderer::new(None, progress);
        let grid = renderer.build_hourglass();
        let count = |lines: &[String]| -> usize {
            lines
                .iter()
                .map(|l| l.chars().filter(|c| *c == '█').count())
                .sum()
        };
        let top = count(&grid[1..9]);
        let bottom = count(&grid[10..18]);
        assert_eq!(bottom, expected_filled, "current {current}");
        assert_eq!(60 - top, expected_filled, "current {current}");
    }
}

#[test]
fn test_hourglass_render_alignment() {
    let progress = progress_at(0, 1000, 500);
    let renderer = HourglassRenderer::new(Some(String::from("sand")), progress);
    let lines = renderer.render();
    // title + header + 19 glass lines + footer
    assert_eq!(lines.len(), 22);
    assert_eq!(lines[0].text, "sand");
    // header divider aligns over the glass centre column
    let header_divider = lines[1].text.chars().position(|c| c == '|').unwrap();
    let footer_divider = lines[21].text.chars().position(|c| c == '|').unwrap();
    assert_eq!(header_divider, footer_divider);
    let pad = lines[2].text.chars().take_while(|c| *c == ' ').count();
    assert_eq!(pad + 5, header_divider);
}

#[test]
fn test_hourglass_flow_stops_on_completion() {
    let progress = progress_at(0, 1000, 1000);
    let renderer = HourglassRenderer::new(None, progress);
    let grid = renderer.build_hourglass();
    assert!(grid.iter().all(|l| !l.contains('┊')));
    assert_eq!(grid[9], "    ┃░┃");
}

#[test]
fn test_style_from_name() {
    assert_eq!(Style::from_name("hourglass"), Style::Hourglass);
    assert_eq!(Style::from_name("HOURGLASS"), Style::Hourglass);
    assert_eq!(Style::from_name("Retro"), Style::Retro);
    assert_eq!(Style::from_name("synthWAVE"), Style::Synthwave);
    assert_eq!(Style::from_name("default"), Style::Default);
    assert_eq!(Style::from_name("anything else"), Style::Default);
    assert_eq!(Style::from_name(""), Style::Default);
}
