use doit::progress_bar::ProgressBar;
use doit::theme::{
    DefaultTheme, RenderContext, RetroTheme, SynthwaveTheme, ThemeRegistry, ThemeType,
};

#[test]
fn test_theme_names() {
    assert_eq!(DefaultTheme.name(), "default");
    assert_eq!(RetroTheme.name(), "retro");
    assert_eq!(SynthwaveTheme.name(), "synthwave");
}

#[test]
fn test_default_theme_render() {
    let context = RenderContext::new(0, 3600, Some(String::from("focus")), 1800, 50);
    let theme = DefaultTheme;
    let lines = theme.render(&context, 8);
    assert_eq!(lines.len(), 6);
    assert_eq!(lines[0].text, "focus");
    assert_eq!(lines[1].text, "00:00 → 01:00   |   50%   |   30 m / 1h");
    assert_eq!(lines[2].text, "");
    assert_eq!(lines[3].text, "████░░░░");
    assert_eq!(lines[4].text, "");
    assert_eq!(lines[5].text, "30 m remaining");
}

#[test]
fn test_retro_theme_render() {
    let context = RenderContext::new(0, 100, Some(String::from("Mission")), 5, 5);
    let theme = RetroTheme;
    let lines = theme.render(&context, 12);
    assert_eq!(lines.len(), 13);
    // the retro theme keeps the title as given
    assert_eq!(lines[0].text, "[Mission] FOCUS SESSION INITIATED");
    assert!(lines[0].bold);
    assert_eq!(lines[1].text, "============");
    assert_eq!(lines[2].text, "[START]     1970-01-01 00:00:00");
    assert_eq!(lines[3].text, "[END]       1970-01-01 00:01:40");
    assert_eq!(lines[4].text, "[ELAPSED]   5% | 0 m");
    assert_eq!(lines[5].text, "[REMAINING] 1 m");
    assert_eq!(lines[7].text, "[PROGRESS]");
    assert_eq!(lines[8].text, "[█░░░░░░░░░]");
    assert_eq!(
        lines[10].text,
        "STATUS: > MISSION INITIATED. LOCK AND LOAD, SOLDIER!"
    );
    assert!(lines[10].bold);
    assert_eq!(lines[12].text, "(Q) QUIT | (CTRL+C) ABORT");
}

#[test]
fn test_retro_theme_status_buckets() {
    for (ratio, expected) in [
        (0, "MISSION INITIATED. LOCK AND LOAD, SOLDIER!"),
        (5, "MISSION INITIATED. LOCK AND LOAD, SOLDIER!"),
        (10, "MISSION INITIATED. LOCK AND LOAD, SOLDIER!"),
        (11, "ENGAGING TARGET. MAINTAIN FOCUS AND DISCIPLINE."),
        (25, "ENGAGING TARGET. MAINTAIN FOCUS AND DISCIPLINE."),
        (26, "BATTLE IN PROGRESS. HOLD YOUR POSITION, WARRIOR!"),
        (50, "BATTLE IN PROGRESS. HOLD YOUR POSITION, WARRIOR!"),
        (51, "VICTORY IS WITHIN REACH. PUSH FORWARD!"),
        (75, "VICTORY IS WITHIN REACH. PUSH FORWARD!"),
        (76, "ALMOST THERE, SOLDIER! HOLD YOUR POSITION."),
        (90, "ALMOST THERE, SOLDIER! HOLD YOUR POSITION."),
        (91, "FINAL ASSAULT! BREAK THROUGH THE ENEMY LINES!"),
        (99, "FINAL ASSAULT! BREAK THROUGH THE ENEMY LINES!"),
        (100, "MISSION ACCOMPLISHED! EXCELLENT WORK, SOLDIER!"),
    ] {
        assert_eq!(RetroTheme::get_retro_status_message(ratio), expected);
    }
}

#[test]
fn test_synthwave_theme_render() {
    let context = RenderContext::new(0, 7200, Some(String::from("wave")), 3600, 50);
    let theme = SynthwaveTheme;
    let lines = theme.render(&context, 44);
    assert_eq!(lines.len(), 6);
    assert_eq!(lines[0].text, " ═ WAVE ═");
    assert!(lines[0].bold);
    assert_eq!(lines[1].text, format!("╔{}╗", "═".repeat(42)));
    // width 44 leaves 44 - 8 - 5 - 5 = 26 bar cells, half filled
    assert_eq!(
        lines[2].text,
        "║ 00:00  █████████████░░░░░░░░░░░░░  02:00 ║"
    );
    // the info text overflows the box width, so no padding is added
    assert_eq!(
        lines[3].text,
        format!("║{}50% | 1 h 0 m elapsed | 1 h 0 m remaining║", " ".repeat(19))
    );
    assert_eq!(lines[4].text, format!("╚{}╝", "═".repeat(42)));
    let message = "⚡ KEEP THE ENERGY FLOWING ⚡";
    assert_eq!(
        lines[5].text,
        format!("{}{}", " ".repeat((44 - message.chars().count()) / 2), message)
    );
}

#[test]
fn test_theme_registry_new() {
    let registry = ThemeRegistry::new();
    assert_eq!(registry.get("default"), Some(ThemeType::Default));
    assert_eq!(registry.get("retro"), Some(ThemeType::Retro));
    assert_eq!(registry.get("synthwave"), Some(ThemeType::Synthwave));
    assert_eq!(registry.get("hourglass"), None);
    assert_eq!(registry.list_themes(), vec!["default", "retro", "synthwave"]);
}

#[test]
fn test_theme_registry_case_insensitive() {
    let registry = ThemeRegistry::new();
    assert_eq!(registry.get("DEFAULT"), Some(ThemeType::Default));
    assert_eq!(registry.get("Retro"), Some(ThemeType::Retro));
    assert_eq!(registry.get("SynthWAVE"), Some(ThemeType::Synthwave));
    let mut registry = registry;
    registry.register("CRT", ThemeType::Retro);
    assert_eq!(registry.get("crt"), Some(ThemeType::Retro));
    assert_eq!(registry.get("Crt"), Some(ThemeType::Retro));
    // the folded name is what gets listed
    assert_eq!(
        registry.list_themes(),
        vec!["default", "retro", "synthwave", "crt"]
    );
}

#[test]
fn test_theme_registry_register() {
    let mut registry = ThemeRegistry::new();
    registry.register("crt", ThemeType::Retro);
    assert_eq!(registry.get("crt"), Some(ThemeType::Retro));
    assert_eq!(
        registry.list_themes(),
        vec!["default", "retro", "synthwave", "crt"]
    );
    // re-registering a name replaces its theme and keeps the name unique
    registry.register("crt", ThemeType::Synthwave);
    assert_eq!(registry.get("crt"), Some(ThemeType::Synthwave));
    assert_eq!(
        registry.list_themes(),
        vec!["default", "retro", "synthwave", "crt"]
    );
}

#[test]
fn test_theme_registry_default() {
    let registry = ThemeRegistry::default();
    assert_eq!(registry.get("default"), Some(ThemeType::Default));
}

#[test]
fn test_progress_bar_render_dispatch() {
    let bar = ProgressBar::new(0, 100, None, "retro");
    let lines = bar.render(5, 12);
    // the retro theme framed this window
    assert_eq!(lines[0].text, "============");
    assert_eq!(lines[7].text, "[█░░░░░░░░░]");

    let bar = ProgressBar::new(0, 100, None, "RETRO");
    let lines = bar.render(5, 12);
    // the style name is matched case-insensitively
    assert_eq!(lines[7].text, "[█░░░░░░░░░]");

    let bar = ProgressBar::new(0, 100, None, "no such theme");
    let lines = bar.render(50, 10);
    // an unknown name falls back to the default theme
    assert_eq!(lines[2].text, "█████░░░░░");
}

#[test]
fn test_progress_bar_calculate() {
    let bar = ProgressBar::new(0, 200, None, "default");
    assert_eq!(bar.calculate_progress_at(-5), 0);
    assert_eq!(bar.calculate_progress_at(0), 0);
    assert_eq!(bar.calculate_progress_at(50), 25);
    assert_eq!(bar.calculate_progress_at(101), 51);
    assert_eq!(bar.calculate_progress_at(200), 100);
    assert_eq!(bar.calculate_progress_at(300), 100);
}

#[test]
fn test_render_context_new() {
    let context = RenderContext::new(10, 20, Some(String::from("t")), 15, 50);
    assert_eq!(context.start, 10);
    assert_eq!(context.end, 20);
    assert_eq!(context.title, Some(String::from("t")));
    assert_eq!(context.current_time, 15);
    assert_eq!(context.progress, 50);
}

#[test]
fn test_calculate_elapsed_and_remaining() {
    let context = RenderContext::new(100, 200, None, 150, 50);
    assert_eq!(context.calculate_elapsed_time(), 50);
    assert_eq!(context.calculate_remaining_time(), 50);
    let before = RenderContext::new(100, 200, None, 50, 0);
    assert_eq!(before.calculate_elapsed_time(), 0);
    assert_eq!(before.calculate_remaining_time(), 100);
    let after = RenderContext::new(100, 200, None, 250, 100);
    assert_eq!(after.calculate_elapsed_time(), 100);
    assert_eq!(after.calculate_remaining_time(), 0);
}
