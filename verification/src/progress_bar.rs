//! A window bundled with a theme choice: one value that can render a frame
//! for any sampling instant.

use crate::renderer::styled_renderer::{lines_model, Line, MAX_WIDTH};
use crate::theme::{
    reg_keys, reg_lookup, spec_default_theme_render, spec_retro_theme_render,
    spec_synthwave_theme_render, DefaultTheme, RenderContext, RetroTheme, SynthwaveTheme,
    ThemeRegistry, ThemeType,
};
use crate::wallclock::valid_instant;
use vstd::arithmetic::div_mod::{
    lemma_div_is_ordered, lemma_div_multiples_vanish_fancy, lemma_div_pos_is_pos,
};
use vstd::prelude::*;

verus! {

/// The completion at `current` of the window `[from, to]`, in hundredths:
/// clamped to full past the window, to empty before it, and the exact
/// fraction rounded to the nearest hundredth in between.
pub open spec fn spec_pb_ratio(from: int, to: int, current: int) -> int {
    let total = to - from;
    let elapsed = current - from;
    if elapsed > total {
        100
    } else if elapsed <= 0 {
        0
    } else {
        (200 * elapsed + total) / (2 * total)
    }
}

/// The completion is a whole number of hundredths between 0 and 100.
pub proof fn lemma_pb_ratio_bounds(from: int, to: int, current: int)
    requires
        from < to,
    ensures
        0 <= spec_pb_ratio(from, to, current) <= 100,
{
    let total = to - from;
    let elapsed = current - from;
    if 0 < elapsed <= total {
        lemma_div_pos_is_pos(200 * elapsed + total, 2 * total);
        lemma_div_is_ordered(200 * elapsed + total, (2 * total) * 100 + total, 2 * total);
        lemma_div_multiples_vanish_fancy(100, total, 2 * total);
    }
}

/// A session's window, title and chosen style, ready to render each tick.
pub struct ProgressBar {
    pub from: i64,
    pub to: i64,
    pub title: Option<String>,
    pub style_registry: ThemeRegistry,
    pub current_style: String,
}

impl ProgressBar {
    /// The invariant: in-range instants, a forward window, and a registry
    /// holding the built-in themes under their names.
    pub open spec fn wf(&self) -> bool {
        &&& valid_instant(self.from)
        &&& valid_instant(self.to)
        &&& self.from < self.to
        &&& self.style_registry.wf()
    }

    /// The theme the chosen style name selects, matched case-insensitively;
    /// an unregistered name falls back to the default theme.
    pub open spec fn effective_theme(&self) -> ThemeType {
        match reg_lookup(
            self.style_registry.themes@,
            crate::text::ascii_lower(self.current_style@),
        ) {
            Some(t) => t,
            None => ThemeType::Default,
        }
    }

    /// Bundles a validated window with a title and a style name.
    pub fn new(from: i64, to: i64, title: Option<String>, style_name: &str) -> (r: ProgressBar)
        requires
            valid_instant(from),
            valid_instant(to),
            from < to,
        ensures
            r.from == from,
            r.to == to,
            r.title == title,
            r.current_style@ == style_name@,
            r.wf(),
            reg_keys(r.style_registry.themes@) == seq!["default"@, "retro"@, "synthwave"@],
            reg_lookup(r.style_registry.themes@, "default"@) == Some(ThemeType::Default),
            reg_lookup(r.style_registry.themes@, "retro"@) == Some(ThemeType::Retro),
            reg_lookup(r.style_registry.themes@, "synthwave"@) == Some(ThemeType::Synthwave),
    {
        ProgressBar {
            from,
            to,
            title,
            style_registry: ThemeRegistry::new(),
            current_style: String::from_str(style_name),
        }
    }

    /// The completion at `current`, in hundredths.
    pub fn calculate_progress_at(&self, current: i64) -> (r: u8)
        requires
            self.wf(),
            valid_instant(current),
        ensures
            r as int == spec_pb_ratio(self.from as int, self.to as int, current as int),
    {
        let total: i64 = self.to - self.from;
        let elapsed: i64 = current - self.from;
        if elapsed > total {
            100
        } else if elapsed <= 0 {
            0
        } else {
            proof {
                lemma_pb_ratio_bounds(self.from as int, self.to as int, current as int);
            }
            ((200 * elapsed + total) / (2 * total)) as u8
        }
    }

    /// The frame at `current_time` for a terminal `width` columns wide,
    /// rendered by the chosen theme.  The same instant and width always
    /// yield the same lines.
    pub fn render(&self, current_time: i64, width: usize) -> (r: Vec<Line>)
        requires
            self.wf(),
            valid_instant(current_time),
            width <= MAX_WIDTH,
        ensures
            ({
                let ctx = (RenderContext {
                    start: self.from,
                    end: self.to,
                    title: self.title,
                    current_time,
                    progress: spec_pb_ratio(
                        self.from as int,
                        self.to as int,
                        current_time as int,
                    ) as u8,
                });
                lines_model(r@) == match self.effective_theme() {
                    ThemeType::Default => spec_default_theme_render(ctx, width as int),
                    ThemeType::Retro => spec_retro_theme_render(ctx, width as int),
                    ThemeType::Synthwave => spec_synthwave_theme_render(ctx, width as int),
                }
            }),
    {
        let progress = self.calculate_progress_at(current_time);
        let title: Option<String> = match &self.title {
            Some(t) => Some(t.clone()),
            None => None,
        };
        proof {
            lemma_pb_ratio_bounds(self.from as int, self.to as int, current_time as int);
        }
        let context = RenderContext::new(self.from, self.to, title, current_time, progress);
        let selected = match self.style_registry.get(self.current_style.as_str()) {
            Some(t) => t,
            None => ThemeType::Default,
        };
        match selected {
            ThemeType::Default => {
                let theme = DefaultTheme;
                theme.render(&context, width)
            },
            ThemeType::Retro => {
                let theme = RetroTheme;
                theme.render(&context, width)
            },
            ThemeType::Synthwave => {
                let theme = SynthwaveTheme;
                theme.render(&context, width)
            },
        }
    }
}

} // verus!
