//! The hourglass frame: a cellular sand animation.
//!
//! The glass is a fixed ASCII geometry whose two halves each hold 60 movable
//! sand cells: six 9-cell reservoir rows plus funnel rows of 5 and 1 cells
//! (the one-cell neck between the halves carries no sand).  At a completion
//! of `ratio` hundredths, `round(ratio * 60 / 100)` cells have moved: the
//! bottom half fills from its lowest row, each row from the centre outward,
//! while the top half empties from its highest row in the mirrored order, so
//! both halves always account for exactly the same moved-cell count.  While
//! the session runs, a dotted flow marker occupies the still-open centre path
//! from the neck down to the sand surface; it vanishes on completion.

use crate::progress::Progress;
use crate::renderer::styled_renderer::{
    bar_fill, lemma_bar_fill_bounds, lines_model, plain, plain_line, plain_line_str, push_line,
    Line, LineModel,
};
use crate::text::{
    self, char_repeat, count_char, dec_str, find_or_zero, lemma_count_char_app,
    lemma_count_char_interval, lemma_count_char_repeat, lemma_count_char_update, sat_add, sat_sub,
    strs_model,
};
use crate::timespan::{spec_duration_str, spec_format_string};
use crate::wallclock::formatted_or_empty;
use vstd::prelude::*;

verus! {

/// Renders the hourglass style.
pub struct HourglassRenderer {
    pub title: Option<String>,
    pub progress: Progress,
}

/// How many cells of a segment of `w` cells, whose first cell is the
/// `off`-th to move, have moved when `filled` cells have moved in all.
pub open spec fn seg_count(filled: int, off: int, w: int) -> int {
    if filled <= off {
        0
    } else if filled >= off + w {
        w
    } else {
        filled - off
    }
}

/// Whether cell `j` of a `w`-cell row is among its first `c` cells in
/// centre-outward order (the centre first, then alternately one step left
/// and one step right).
pub open spec fn in_center_fill(w: int, c: int, j: int) -> bool {
    0 < c && w / 2 - c / 2 <= j <= w / 2 + (c - 1) / 2
}

/// A `w`-cell row whose first `c` centre-outward cells hold `cin` and whose
/// other cells hold `cout`.
pub open spec fn row_cells(w: int, c: int, cin: char, cout: char) -> Seq<char> {
    Seq::new(
        w as nat,
        |j: int|
            if in_center_fill(w, c, j) {
                cin
            } else {
                cout
            },
    )
}

/// A row of the top half: emptied from the centre outward.
pub open spec fn top_row(filled: int, off: int, w: int) -> Seq<char> {
    row_cells(w, seg_count(filled, off, w), '\u{2591}', '\u{2588}')
}

/// A row of the bottom half: filled from the centre outward, with the flow
/// marker on the centre cell of rows the sand has not yet reached.
pub open spec fn bottom_row(filled: int, off: int, w: int, flow: bool) -> Seq<char> {
    let c = seg_count(filled, off, w);
    let base = row_cells(w, c, '\u{2588}', '\u{2591}');
    if flow && c == 0 {
        base.update(w / 2, '\u{250a}')
    } else {
        base
    }
}

/// A reservoir row between the side walls.
pub open spec fn spec_boxed(inner: Seq<char>) -> Seq<char> {
    "\u{2503}"@ + inner + "\u{2503}"@
}

/// A funnel row of the top half, drawn with corner connectors.
pub open spec fn spec_join_top(inner: Seq<char>, indent: int, rpad: int) -> Seq<char> {
    char_repeat(' ', indent) + "\u{2517}\u{2501}\u{2513}"@ + inner + "\u{250f}\u{2501}\u{251b}"@
        + char_repeat(' ', rpad)
}

/// A funnel row of the bottom half, drawn with corner connectors.
pub open spec fn spec_join_bottom(inner: Seq<char>, indent: int, rpad: int) -> Seq<char> {
    char_repeat(' ', indent) + "\u{250f}\u{2501}\u{251b}"@ + inner + "\u{2517}\u{2501}\u{2513}"@
        + char_repeat(' ', rpad)
}

/// The one-cell neck: open while the session runs, empty once complete.
pub open spec fn spec_neck_line(flow: bool) -> Seq<char> {
    char_repeat(' ', 4) + "\u{2503}"@ + (if flow {
        "\u{250a}"@
    } else {
        "\u{2591}"@
    }) + "\u{2503}"@
}

/// The 19 lines of the glass when `filled` cells have moved: top border, six
/// top reservoir rows, two top funnel rows, the neck, two bottom funnel
/// rows, six bottom reservoir rows, bottom border.
pub open spec fn spec_hourglass_lines(filled: int, flow: bool) -> Seq<Seq<char>> {
    seq![
        "\u{250f}"@ + char_repeat('\u{2501}', 9) + "\u{2513}"@,
        spec_boxed(top_row(filled, 0, 9)),
        spec_boxed(top_row(filled, 9, 9)),
        spec_boxed(top_row(filled, 18, 9)),
        spec_boxed(top_row(filled, 27, 9)),
        spec_boxed(top_row(filled, 36, 9)),
        spec_boxed(top_row(filled, 45, 9)),
        spec_join_top(top_row(filled, 54, 5), 0, 0),
        spec_join_top(top_row(filled, 59, 1), 2, 2),
        spec_neck_line(flow),
        spec_join_bottom(bottom_row(filled, 59, 1, flow), 2, 2),
        spec_join_bottom(bottom_row(filled, 54, 5, flow), 0, 0),
        spec_boxed(bottom_row(filled, 45, 9, flow)),
        spec_boxed(bottom_row(filled, 36, 9, flow)),
        spec_boxed(bottom_row(filled, 27, 9, flow)),
        spec_boxed(bottom_row(filled, 18, 9, flow)),
        spec_boxed(bottom_row(filled, 9, 9, flow)),
        spec_boxed(bottom_row(filled, 0, 9, flow)),
        "\u{2517}"@ + char_repeat('\u{2501}', 9) + "\u{251b}"@,
    ]
}

/// The sand cells a sequence of lines shows.
pub open spec fn count_lines(s: Seq<Seq<char>>, c: char) -> int
    decreases s.len(),
{
    if s.len() == 0 {
        0
    } else {
        count_lines(s.drop_last(), c) + count_char(s.last(), c)
    }
}

/// The header: boundaries and percentage.
pub open spec fn spec_hourglass_information(p: Progress) -> Seq<char> {
    let f = spec_format_string(p.timespan.duration as int);
    formatted_or_empty(p.timespan.from as int, f) + " \u{2192} "@ + formatted_or_empty(
        p.timespan.to as int,
        f,
    ) + "   |   "@ + dec_str(p.ratio as int) + "%"@
}

/// The footer: elapsed and remaining times.
pub open spec fn spec_hourglass_footer(p: Progress) -> Seq<char> {
    "elapsed: "@ + spec_duration_str(p.elapsed as int) + "   |   remaining: "@ + spec_duration_str(
        p.remaining as int,
    )
}

/// The whole hourglass frame: the optional title, then the header, glass and
/// footer, each shifted so that the header's and footer's `|` dividers line
/// up with the glass's centre column.
pub open spec fn spec_hourglass_render(p: Progress, title: Option<Seq<char>>) -> Seq<LineModel> {
    let header = spec_hourglass_information(p);
    let footer = spec_hourglass_footer(p);
    let hdiv = find_or_zero(header, '|');
    let fdiv = find_or_zero(footer, '|');
    let anchor = if hdiv > fdiv {
        hdiv
    } else {
        fdiv
    };
    let left_pad = sat_sub(anchor, 5);
    let hpad = sat_sub(sat_add(left_pad, 5), hdiv);
    let fpad = sat_sub(sat_add(left_pad, 5), fdiv);
    let filled = bar_fill(p.ratio as int, 60);
    let flow = p.current_time < p.timespan.to;
    let grid = spec_hourglass_lines(filled, flow).map_values(
        |l: Seq<char>| plain(char_repeat(' ', left_pad) + l),
    );
    let base = seq![plain(char_repeat(' ', hpad) + header)] + grid + seq![
        plain(char_repeat(' ', fpad) + footer),
    ];
    match title {
        Some(t) => seq![plain(t)] + base,
        None => base,
    }
}

/// How many cells of a segment have moved: never more than the segment
/// holds, and exactly the whole segment once `filled` covers it.
fn seg_count_exec(filled: usize, off: usize, w: usize) -> (c: usize)
    requires
        off + w <= 60,
        filled <= 60,
    ensures
        c as int == seg_count(filled as int, off as int, w as int),
        c <= w,
{
    if filled <= off {
        0
    } else if filled >= off + w {
        w
    } else {
        filled - off
    }
}

/// Builds a `w`-cell row whose first `c` centre-outward cells hold `cin`.
fn build_row(w: usize, c: usize, cin: char, cout: char) -> (r: Vec<char>)
    requires
        c <= w,
    ensures
        r@ == row_cells(w as int, c as int, cin, cout),
{
    proof {
        vstd::arithmetic::div_mod::lemma_div_is_ordered(c as int, w as int, 2);
    }
    let mut r: Vec<char> = Vec::new();
    let mut j: usize = 0;
    while j < w
        invariant
            j <= w,
            c <= w,
            c / 2 <= w / 2,
            r@.len() == j,
            forall|k: int|
                0 <= k < j ==> r@[k] == (if in_center_fill(w as int, c as int, k) {
                    cin
                } else {
                    cout
                }),
        decreases w - j,
    {
        let inside: bool = if c == 0 {
            false
        } else {
            let mid = w / 2;
            let lo = mid - c / 2;
            let hi = mid + (c - 1) / 2;
            lo <= j && j <= hi
        };
        if inside {
            r.push(cin);
        } else {
            r.push(cout);
        }
        j += 1;
    }
    proof {
        assert(r@ =~= row_cells(w as int, c as int, cin, cout));
    }
    r
}

/// Builds a row of the top half.
fn build_top_row(filled: usize, off: usize, w: usize) -> (r: Vec<char>)
    requires
        off + w <= 60,
        filled <= 60,
    ensures
        r@ == top_row(filled as int, off as int, w as int),
{
    let c = seg_count_exec(filled, off, w);
    build_row(w, c, '\u{2591}', '\u{2588}')
}

/// Builds a row of the bottom half, overlaying the flow marker on the centre
/// of a still-empty row while the session runs.
fn build_bottom_row(filled: usize, off: usize, w: usize, flow: bool) -> (r: Vec<char>)
    requires
        off + w <= 60,
        filled <= 60,
        1 <= w,
    ensures
        r@ == bottom_row(filled as int, off as int, w as int, flow),
{
    let c = seg_count_exec(filled, off, w);
    let mut r = build_row(w, c, '\u{2588}', '\u{2591}');
    if flow && c == 0 {
        r[w / 2] = '\u{250a}';
    }
    r
}

/// Walls a reservoir row in.
fn boxed_line(inner: &Vec<char>) -> (r: Vec<char>)
    ensures
        r@ == spec_boxed(inner@),
{
    let mut buf: Vec<char> = Vec::new();
    text::append_str(&mut buf, "\u{2503}");
    text::append_chars(&mut buf, inner);
    text::append_str(&mut buf, "\u{2503}");
    proof {
        assert(buf@ =~= spec_boxed(inner@));
    }
    buf
}

/// Draws a funnel row of the top half.
fn join_top_line(inner: &Vec<char>, indent: usize, rpad: usize) -> (r: Vec<char>)
    ensures
        r@ == spec_join_top(inner@, indent as int, rpad as int),
{
    let mut buf: Vec<char> = Vec::new();
    text::append_repeat(&mut buf, ' ', indent);
    text::append_str(&mut buf, "\u{2517}\u{2501}\u{2513}");
    text::append_chars(&mut buf, inner);
    text::append_str(&mut buf, "\u{250f}\u{2501}\u{251b}");
    text::append_repeat(&mut buf, ' ', rpad);
    proof {
        assert(buf@ =~= spec_join_top(inner@, indent as int, rpad as int));
    }
    buf
}

/// Draws a funnel row of the bottom half.
fn join_bottom_line(inner: &Vec<char>, indent: usize, rpad: usize) -> (r: Vec<char>)
    ensures
        r@ == spec_join_bottom(inner@, indent as int, rpad as int),
{
    let mut buf: Vec<char> = Vec::new();
    text::append_repeat(&mut buf, ' ', indent);
    text::append_str(&mut buf, "\u{250f}\u{2501}\u{251b}");
    text::append_chars(&mut buf, inner);
    text::append_str(&mut buf, "\u{2517}\u{2501}\u{2513}");
    text::append_repeat(&mut buf, ' ', rpad);
    proof {
        assert(buf@ =~= spec_join_bottom(inner@, indent as int, rpad as int));
    }
    buf
}

impl HourglassRenderer {
    /// The renderer invariant: a well-formed snapshot.
    pub open spec fn wf(&self) -> bool {
        self.progress.wf()
    }

    /// Pairs a snapshot with an optional title.
    pub fn new(title: Option<String>, progress: Progress) -> (r: HourglassRenderer)
        ensures
            r == (HourglassRenderer { title, progress }),
    {
        HourglassRenderer { title, progress }
    }

    /// The header line's characters.
    fn information_chars(&self) -> (r: Vec<char>)
        requires
            self.wf(),
        ensures
            r@ == spec_hourglass_information(self.progress),
    {
        let from = self.progress.timespan.format_from();
        let to = self.progress.timespan.format_to();
        let mut buf: Vec<char> = Vec::new();
        text::append_str(&mut buf, from.as_str());
        text::append_str(&mut buf, " \u{2192} ");
        text::append_str(&mut buf, to.as_str());
        text::append_str(&mut buf, "   |   ");
        text::append_u64(&mut buf, self.progress.ratio as u64);
        text::append_str(&mut buf, "%");
        proof {
            assert(buf@ =~= spec_hourglass_information(self.progress));
        }
        buf
    }

    /// The header: boundaries and percentage around a divider.
    pub fn build_information(&self) -> (r: String)
        requires
            self.wf(),
        ensures
            r@ == spec_hourglass_information(self.progress),
    {
        text::string_of(self.information_chars())
    }

    /// The footer line's characters.
    fn footer_chars(&self) -> (r: Vec<char>)
        requires
            self.wf(),
        ensures
            r@ == spec_hourglass_footer(self.progress),
    {
        let elapsed = self.progress.format_elapsed();
        let remaining = self.progress.format_remaining();
        let mut buf: Vec<char> = Vec::new();
        text::append_str(&mut buf, "elapsed: ");
        text::append_str(&mut buf, elapsed.as_str());
        text::append_str(&mut buf, "   |   remaining: ");
        text::append_str(&mut buf, remaining.as_str());
        proof {
            assert(buf@ =~= spec_hourglass_footer(self.progress));
        }
        buf
    }

    /// The footer: elapsed and remaining times around a divider.
    pub fn build_footer(&self) -> (r: String)
        requires
            self.wf(),
        ensures
            r@ == spec_hourglass_footer(self.progress),
    {
        text::string_of(self.footer_chars())
    }

    /// The 19 lines of the glass at this snapshot.
    pub fn build_hourglass(&self) -> (r: Vec<String>)
        requires
            self.wf(),
        ensures
            strs_model(r@) == spec_hourglass_lines(
                bar_fill(self.progress.ratio as int, 60),
                self.progress.current_time < self.progress.timespan.to,
            ),
    {
        proof {
            crate::progress::lemma_ratio_bounds(
                self.progress.timespan,
                self.progress.current_time as int,
            );
            lemma_bar_fill_bounds(self.progress.ratio as int, 60);
        }
        let filled: usize = (self.progress.ratio as usize * 60 + 50) / 100;
        let flow = !self.progress.is_complete();
        let mut lines: Vec<String> = Vec::new();

        let mut border: Vec<char> = Vec::new();
        text::append_str(&mut border, "\u{250f}");
        text::append_repeat(&mut border, '\u{2501}', 9);
        text::append_str(&mut border, "\u{2513}");
        lines.push(text::string_of(border));

        let mut k: usize = 0;
        while k < 6
            invariant
                k <= 6,
                filled <= 60,
                strs_model(lines@) == seq![
                    "\u{250f}"@ + char_repeat('\u{2501}', 9) + "\u{2513}"@,
                ] + Seq::new(k as nat, |i: int| spec_boxed(top_row(filled as int, 9 * i, 9))),
            decreases 6 - k,
        {
            let ghost prev = lines@;
            let row = build_top_row(filled, 9 * k, 9);
            let boxed = boxed_line(&row);
            let line = text::string_of(boxed);
            proof {
                assert(line@ == spec_boxed(top_row(filled as int, 9 * (k as int), 9)));
            }
            lines.push(line);
            proof {
                assert(lines@ == prev.push(line));
                assert(strs_model(lines@) =~~= strs_model(prev).push(line@));
                assert(strs_model(prev).push(line@) =~~= seq![
                    "\u{250f}"@ + char_repeat('\u{2501}', 9) + "\u{2513}"@,
                ] + Seq::new(
                    (k + 1) as nat,
                    |i: int| spec_boxed(top_row(filled as int, 9 * i, 9)),
                ));
            }
            k += 1;
        }

        let ghost spec_lines = spec_hourglass_lines(filled as int, flow);
        proof {
            assert(strs_model(lines@) =~~= spec_lines.subrange(0, 7));
        }

        let ghost prev = lines@;
        let fun_top0 = build_top_row(filled, 54, 5);
        let line = text::string_of(join_top_line(&fun_top0, 0, 0));
        proof {
            assert(line@ == spec_join_top(top_row(filled as int, 54, 5), 0, 0));
        }
        lines.push(line);
        proof {
            assert(strs_model(lines@) =~~= strs_model(prev).push(line@));
            assert(strs_model(prev).push(line@) =~~= spec_lines.subrange(0, 8));
        }

        let ghost prev = lines@;
        let fun_top1 = build_top_row(filled, 59, 1);
        let line = text::string_of(join_top_line(&fun_top1, 2, 2));
        lines.push(line);
        proof {
            assert(strs_model(lines@) =~~= strs_model(prev).push(line@));
            assert(strs_model(prev).push(line@) =~~= spec_lines.subrange(0, 9));
        }

        let ghost prev = lines@;
        let mut neck: Vec<char> = Vec::new();
        text::append_repeat(&mut neck, ' ', 4);
        text::append_str(&mut neck, "\u{2503}");
        if flow {
            text::append_str(&mut neck, "\u{250a}");
        } else {
            text::append_str(&mut neck, "\u{2591}");
        }
        text::append_str(&mut neck, "\u{2503}");
        proof {
            assert(neck@ =~= spec_neck_line(flow));
        }
        let line = text::string_of(neck);
        lines.push(line);
        proof {
            assert(strs_model(lines@) =~~= strs_model(prev).push(line@));
            assert(strs_model(prev).push(line@) =~~= spec_lines.subrange(0, 10));
        }

        let ghost prev = lines@;
        let fun_bot0 = build_bottom_row(filled, 59, 1, flow);
        let line = text::string_of(join_bottom_line(&fun_bot0, 2, 2));
        lines.push(line);
        proof {
            assert(strs_model(lines@) =~~= strs_model(prev).push(line@));
            assert(strs_model(prev).push(line@) =~~= spec_lines.subrange(0, 11));
        }

        let ghost prev = lines@;
        let fun_bot1 = build_bottom_row(filled, 54, 5, flow);
        let line = text::string_of(join_bottom_line(&fun_bot1, 0, 0));
        lines.push(line);
        proof {
            assert(strs_model(lines@) =~~= strs_model(prev).push(line@));
            assert(strs_model(prev).push(line@) =~~= spec_lines.subrange(0, 12));
        }

        let mut k: usize = 0;
        while k < 6
            invariant
                k <= 6,
                filled <= 60,
                spec_lines == spec_hourglass_lines(filled as int, flow),
                strs_model(lines@) == spec_lines.subrange(0, 12) + Seq::new(
                    k as nat,
                    |i: int| spec_boxed(bottom_row(filled as int, 45 - 9 * i, 9, flow)),
                ),
            decreases 6 - k,
        {
            let ghost prev = lines@;
            let row = build_bottom_row(filled, 45 - 9 * k, 9, flow);
            let line = text::string_of(boxed_line(&row));
            proof {
                assert(line@ == spec_boxed(
                    bottom_row(filled as int, (45 - 9 * k) as int, 9, flow),
                ));
            }
            lines.push(line);
            proof {
                assert(strs_model(lines@) =~~= strs_model(prev).push(line@));
                assert(strs_model(prev).push(line@) =~~= spec_lines.subrange(0, 12) + Seq::new(
                    (k + 1) as nat,
                    |i: int| spec_boxed(bottom_row(filled as int, 45 - 9 * i, 9, flow)),
                ));
            }
            k += 1;
        }

        let ghost prev = lines@;
        let mut border: Vec<char> = Vec::new();
        text::append_str(&mut border, "\u{2517}");
        text::append_repeat(&mut border, '\u{2501}', 9);
        text::append_str(&mut border, "\u{251b}");
        let line = text::string_of(border);
        lines.push(line);
        proof {
            assert(strs_model(lines@) =~~= strs_model(prev).push(line@));
            assert(strs_model(prev).push(line@) =~~= spec_lines);
        }
        lines
    }

    /// The frame's lines: the optional title, the header, the glass shifted
    /// under the header's divider, and the footer.  The same snapshot and
    /// title always yield the same lines.
    pub fn render(&self) -> (r: Vec<Line>)
        requires
            self.wf(),
        ensures
            lines_model(r@) == spec_hourglass_render(self.progress, text::opt_view(self.title)),
    {
        let mut lines: Vec<Line> = Vec::new();
        match &self.title {
            Some(t) => {
                push_line(&mut lines, plain_line_str(t.as_str()));
            },
            None => {},
        }
        let header = self.information_chars();
        let footer = self.footer_chars();
        let hdiv = text::find_char_or_zero(&header, '|');
        let fdiv = text::find_char_or_zero(&footer, '|');
        let anchor: usize = if hdiv > fdiv {
            hdiv
        } else {
            fdiv
        };
        let left_pad = text::usize_sat_sub(anchor, 5);
        let hpad = text::usize_sat_sub(text::usize_sat_add(left_pad, 5), hdiv);
        let fpad = text::usize_sat_sub(text::usize_sat_add(left_pad, 5), fdiv);

        let mut hbuf: Vec<char> = Vec::new();
        text::append_repeat(&mut hbuf, ' ', hpad);
        text::append_chars(&mut hbuf, &header);
        push_line(&mut lines, plain_line(hbuf));

        let ghost pre = lines_model(lines@);
        let ghost padded = spec_hourglass_lines(
            bar_fill(self.progress.ratio as int, 60),
            self.progress.current_time < self.progress.timespan.to,
        ).map_values(|l: Seq<char>| plain(char_repeat(' ', left_pad as int) + l));
        let grid = self.build_hourglass();
        let n = grid.len();
        let mut i: usize = 0;
        while i < n
            invariant
                i <= n,
                n == grid@.len(),
                n == padded.len(),
                strs_model(grid@) == spec_hourglass_lines(
                    bar_fill(self.progress.ratio as int, 60),
                    self.progress.current_time < self.progress.timespan.to,
                ),
                padded == spec_hourglass_lines(
                    bar_fill(self.progress.ratio as int, 60),
                    self.progress.current_time < self.progress.timespan.to,
                ).map_values(|l: Seq<char>| plain(char_repeat(' ', left_pad as int) + l)),
                lines_model(lines@) == pre + padded.subrange(0, i as int),
            decreases n - i,
        {
            let ghost prev = lines@;
            let mut buf: Vec<char> = Vec::new();
            text::append_repeat(&mut buf, ' ', left_pad);
            text::append_str(&mut buf, grid[i].as_str());
            let l = plain_line(buf);
            push_line(&mut lines, l);
            proof {
                assert(l@ =~~= padded[i as int]);
                assert(lines_model(lines@) =~~= pre + padded.subrange(0, i + 1));
            }
            i += 1;
        }
        proof {
            assert(padded.subrange(0, n as int) =~= padded);
        }

        let mut fbuf: Vec<char> = Vec::new();
        text::append_repeat(&mut fbuf, ' ', fpad);
        text::append_chars(&mut fbuf, &footer);
        push_line(&mut lines, plain_line(fbuf));

        proof {
            assert(lines_model(lines@) =~~= spec_hourglass_render(
                self.progress,
                text::opt_view(self.title),
            ));
        }
        lines
    }
}

/// Idempotence: the frame is a function of the snapshot and title alone, so
/// rendering the same inputs twice yields identical output.
pub proof fn lemma_hourglass_render_idempotent(
    p: Progress,
    title: Option<Seq<char>>,
    first: Seq<LineModel>,
    second: Seq<LineModel>,
)
    requires
        first == spec_hourglass_render(p, title),
        second == spec_hourglass_render(p, title),
    ensures
        first == second,
{
}

/// Appending one line adds its sand cells to the tally.
proof fn lemma_count_lines_push(s: Seq<Seq<char>>, x: Seq<char>, c: char)
    ensures
        count_lines(s.push(x), c) == count_lines(s, c) + count_char(x, c),
{
    assert(s.push(x).drop_last() =~= s);
    assert(s.push(x).last() == x);
}

/// A sequence without the character `c` contributes nothing to its count.
proof fn lemma_count_char_absent(s: Seq<char>, c: char)
    requires
        forall|j: int| 0 <= j < s.len() ==> s[j] != c,
    ensures
        count_char(s, c) == 0,
    decreases s.len(),
{
    if s.len() > 0 {
        lemma_count_char_absent(s.drop_last(), c);
    }
}

/// A row of the top half shows one sand cell for every cell not yet emptied.
proof fn lemma_top_row_count(filled: int, off: int, w: int)
    requires
        0 <= off,
        1 <= w,
    ensures
        count_char(top_row(filled, off, w), '\u{2588}') == w - seg_count(filled, off, w),
{
    let c = seg_count(filled, off, w);
    let s = top_row(filled, off, w);
    if c == 0 {
        lemma_count_char_interval(s, '\u{2591}', '\u{2588}', 0, 0);
    } else {
        let lo = w / 2 - c / 2;
        let hi = w / 2 + (c - 1) / 2 + 1;
        assert(hi - lo == c);
        lemma_count_char_interval(s, '\u{2591}', '\u{2588}', lo, hi);
    }
}

/// A row of the bottom half shows one sand cell for every cell already
/// filled; the flow marker never masquerades as sand.
proof fn lemma_bottom_row_count(filled: int, off: int, w: int, flow: bool)
    requires
        0 <= off,
        1 <= w,
    ensures
        count_char(bottom_row(filled, off, w, flow), '\u{2588}') == seg_count(filled, off, w),
{
    let c = seg_count(filled, off, w);
    let base = row_cells(w, c, '\u{2588}', '\u{2591}');
    if c == 0 {
        lemma_count_char_interval(base, '\u{2588}', '\u{2591}', 0, 0);
        if flow {
            lemma_count_char_update(base, w / 2, '\u{250a}', '\u{2588}');
        }
    } else {
        let lo = w / 2 - c / 2;
        let hi = w / 2 + (c - 1) / 2 + 1;
        assert(hi - lo == c);
        lemma_count_char_interval(base, '\u{2588}', '\u{2591}', lo, hi);
    }
}

/// A walled reservoir row shows exactly its cells' sand.
proof fn lemma_boxed_count(inner: Seq<char>, c: char)
    requires
        c != '\u{2503}',
    ensures
        count_char(spec_boxed(inner), c) == count_char(inner, c),
{
    reveal_strlit("\u{2503}");
    lemma_count_char_absent("\u{2503}"@, c);
    lemma_count_char_app("\u{2503}"@ + inner, "\u{2503}"@, c);
    lemma_count_char_app("\u{2503}"@, inner, c);
}

/// A funnel row of the top half shows exactly its cells' sand.
proof fn lemma_join_top_count(inner: Seq<char>, indent: int, rpad: int, c: char)
    requires
        0 <= indent,
        0 <= rpad,
        c != ' ',
        c != '\u{2517}',
        c != '\u{2501}',
        c != '\u{2513}',
        c != '\u{250f}',
        c != '\u{251b}',
    ensures
        count_char(spec_join_top(inner, indent, rpad), c) == count_char(inner, c),
{
    reveal_strlit("\u{2517}\u{2501}\u{2513}");
    reveal_strlit("\u{250f}\u{2501}\u{251b}");
    let a = char_repeat(' ', indent);
    let b = "\u{2517}\u{2501}\u{2513}"@;
    let d = "\u{250f}\u{2501}\u{251b}"@;
    let e = char_repeat(' ', rpad);
    lemma_count_char_repeat(' ', indent, c);
    lemma_count_char_repeat(' ', rpad, c);
    lemma_count_char_absent(b, c);
    lemma_count_char_absent(d, c);
    lemma_count_char_app(a + b + inner + d, e, c);
    lemma_count_char_app(a + b + inner, d, c);
    lemma_count_char_app(a + b, inner, c);
    lemma_count_char_app(a, b, c);
}

/// A funnel row of the bottom half shows exactly its cells' sand.
proof fn lemma_join_bottom_count(inner: Seq<char>, indent: int, rpad: int, c: char)
    requires
        0 <= indent,
        0 <= rpad,
        c != ' ',
        c != '\u{2517}',
        c != '\u{2501}',
        c != '\u{2513}',
        c != '\u{250f}',
        c != '\u{251b}',
    ensures
        count_char(spec_join_bottom(inner, indent, rpad), c) == count_char(inner, c),
{
    reveal_strlit("\u{2517}\u{2501}\u{2513}");
    reveal_strlit("\u{250f}\u{2501}\u{251b}");
    let a = char_repeat(' ', indent);
    let b = "\u{250f}\u{2501}\u{251b}"@;
    let d = "\u{2517}\u{2501}\u{2513}"@;
    let e = char_repeat(' ', rpad);
    lemma_count_char_repeat(' ', indent, c);
    lemma_count_char_repeat(' ', rpad, c);
    lemma_count_char_absent(b, c);
    lemma_count_char_absent(d, c);
    lemma_count_char_app(a + b + inner + d, e, c);
    lemma_count_char_app(a + b + inner, d, c);
    lemma_count_char_app(a + b, inner, c);
    lemma_count_char_app(a, b, c);
}

/// Hourglass conservation: at a completion of `ratio` hundredths, the top
/// half has been emptied of exactly as many sand cells as the bottom half
/// has gained, namely `round(ratio * 60 / 100)` of the 60 movable cells —
/// whether or not the flow marker is shown.
pub proof fn lemma_hourglass_conservation(ratio: int, flow: bool)
    requires
        0 <= ratio <= 100,
    ensures
        ({
            let filled = bar_fill(ratio, 60);
            let g = spec_hourglass_lines(filled, flow);
            &&& count_lines(g.subrange(1, 9), '\u{2588}') == 60 - filled
            &&& count_lines(g.subrange(10, 18), '\u{2588}') == filled
        }),
{
    let sand = '\u{2588}';
    let filled = bar_fill(ratio, 60);
    lemma_bar_fill_bounds(ratio, 60);
    let g = spec_hourglass_lines(filled, flow);

    let top = g.subrange(1, 9);
    assert(top =~= seq![g[1], g[2], g[3], g[4], g[5], g[6], g[7], g[8]]);
    lemma_count_lines_push(seq![g[1], g[2], g[3], g[4], g[5], g[6], g[7]], g[8], sand);
    lemma_count_lines_push(seq![g[1], g[2], g[3], g[4], g[5], g[6]], g[7], sand);
    lemma_count_lines_push(seq![g[1], g[2], g[3], g[4], g[5]], g[6], sand);
    lemma_count_lines_push(seq![g[1], g[2], g[3], g[4]], g[5], sand);
    lemma_count_lines_push(seq![g[1], g[2], g[3]], g[4], sand);
    lemma_count_lines_push(seq![g[1], g[2]], g[3], sand);
    lemma_count_lines_push(seq![g[1]], g[2], sand);
    lemma_count_lines_push(seq![], g[1], sand);
    assert(seq![g[1], g[2], g[3], g[4], g[5], g[6], g[7]].push(g[8]) =~= top);
    assert(seq![g[1], g[2], g[3], g[4], g[5], g[6]].push(g[7]) =~= seq![
        g[1], g[2], g[3], g[4], g[5], g[6], g[7],
    ]);
    assert(seq![g[1], g[2], g[3], g[4], g[5]].push(g[6]) =~= seq![
        g[1], g[2], g[3], g[4], g[5], g[6],
    ]);
    assert(seq![g[1], g[2], g[3], g[4]].push(g[5]) =~= seq![g[1], g[2], g[3], g[4], g[5]]);
    assert(seq![g[1], g[2], g[3]].push(g[4]) =~= seq![g[1], g[2], g[3], g[4]]);
    assert(seq![g[1], g[2]].push(g[3]) =~= seq![g[1], g[2], g[3]]);
    assert(seq![g[1]].push(g[2]) =~= seq![g[1], g[2]]);
    assert(Seq::<Seq<char>>::empty().push(g[1]) =~= seq![g[1]]);

    lemma_boxed_count(top_row(filled, 0, 9), sand);
    lemma_boxed_count(top_row(filled, 9, 9), sand);
    lemma_boxed_count(top_row(filled, 18, 9), sand);
    lemma_boxed_count(top_row(filled, 27, 9), sand);
    lemma_boxed_count(top_row(filled, 36, 9), sand);
    lemma_boxed_count(top_row(filled, 45, 9), sand);
    lemma_join_top_count(top_row(filled, 54, 5), 0, 0, sand);
    lemma_join_top_count(top_row(filled, 59, 1), 2, 2, sand);
    lemma_top_row_count(filled, 0, 9);
    lemma_top_row_count(filled, 9, 9);
    lemma_top_row_count(filled, 18, 9);
    lemma_top_row_count(filled, 27, 9);
    lemma_top_row_count(filled, 36, 9);
    lemma_top_row_count(filled, 45, 9);
    lemma_top_row_count(filled, 54, 5);
    lemma_top_row_count(filled, 59, 1);
    assert(count_lines(top, sand) == 60 - filled);

    let bot = g.subrange(10, 18);
    assert(bot =~= seq![g[10], g[11], g[12], g[13], g[14], g[15], g[16], g[17]]);
    lemma_count_lines_push(seq![g[10], g[11], g[12], g[13], g[14], g[15], g[16]], g[17], sand);
    lemma_count_lines_push(seq![g[10], g[11], g[12], g[13], g[14], g[15]], g[16], sand);
    lemma_count_lines_push(seq![g[10], g[11], g[12], g[13], g[14]], g[15], sand);
    lemma_count_lines_push(seq![g[10], g[11], g[12], g[13]], g[14], sand);
    lemma_count_lines_push(seq![g[10], g[11], g[12]], g[13], sand);
    lemma_count_lines_push(seq![g[10], g[11]], g[12], sand);
    lemma_count_lines_push(seq![g[10]], g[11], sand);
    lemma_count_lines_push(seq![], g[10], sand);
    assert(seq![g[10], g[11], g[12], g[13], g[14], g[15], g[16]].push(g[17]) =~= bot);
    assert(seq![g[10], g[11], g[12], g[13], g[14], g[15]].push(g[16]) =~= seq![
        g[10], g[11], g[12], g[13], g[14], g[15], g[16],
    ]);
    assert(seq![g[10], g[11], g[12], g[13], g[14]].push(g[15]) =~= seq![
        g[10], g[11], g[12], g[13], g[14], g[15],
    ]);
    assert(seq![g[10], g[11], g[12], g[13]].push(g[14]) =~= seq![
        g[10], g[11], g[12], g[13], g[14],
    ]);
    assert(seq![g[10], g[11], g[12]].push(g[13]) =~= seq![g[10], g[11], g[12], g[13]]);
    assert(seq![g[10], g[11]].push(g[12]) =~= seq![g[10], g[11], g[12]]);
    assert(seq![g[10]].push(g[11]) =~= seq![g[10], g[11]]);
    assert(Seq::<Seq<char>>::empty().push(g[10]) =~= seq![g[10]]);

    lemma_join_bottom_count(bottom_row(filled, 59, 1, flow), 2, 2, sand);
    lemma_join_bottom_count(bottom_row(filled, 54, 5, flow), 0, 0, sand);
    lemma_boxed_count(bottom_row(filled, 45, 9, flow), sand);
    lemma_boxed_count(bottom_row(filled, 36, 9, flow), sand);
    lemma_boxed_count(bottom_row(filled, 27, 9, flow), sand);
    lemma_boxed_count(bottom_row(filled, 18, 9, flow), sand);
    lemma_boxed_count(bottom_row(filled, 9, 9, flow), sand);
    lemma_boxed_count(bottom_row(filled, 0, 9, flow), sand);
    lemma_bottom_row_count(filled, 59, 1, flow);
    lemma_bottom_row_count(filled, 54, 5, flow);
    lemma_bottom_row_count(filled, 45, 9, flow);
    lemma_bottom_row_count(filled, 36, 9, flow);
    lemma_bottom_row_count(filled, 27, 9, flow);
    lemma_bottom_row_count(filled, 18, 9, flow);
    lemma_bottom_row_count(filled, 9, 9, flow);
    lemma_bottom_row_count(filled, 0, 9, flow);
    assert(count_lines(bot, sand) == filled);
}

} // verus!
