//! Properties that relate the rendering functions, proved over their specifications.
use crate::color::native_dark;
use crate::config::{weekday_abbr, Config};
use crate::dono::{
    columns, custom_legend, grid_column, grid_offset, grid_row, is_legend, observed_colors,
    rendered, renders_as, resolved_color, Contribution,
};
use crate::order::{lemma_descending_no_duplicates, lemma_descending_unique};
use vstd::prelude::*;

verus! {

/// A day without activity is drawn in the empty color: the configured one under custom
/// colors, the fixed dark one under native colors, whatever its level or source color.
pub proof fn lemma_zero_count_is_empty_color(c: Contribution, cfg: Config)
    requires
        c.count == 0,
    ensures
        !cfg.native_colors ==> resolved_color(c, cfg) == cfg.colors.empty@,
        cfg.native_colors ==> resolved_color(c, cfg) == native_dark(),
{
}

/// Changing the week start day only relabels rows: the day at `index` always lands in the
/// row labelled with its own weekday, for any two start days.
pub proof fn lemma_week_start_relabels(first_weekday: int, start1: int, start2: int, index: int)
    requires
        0 <= first_weekday < 7,
        0 <= start1 < 7,
        0 <= start2 < 7,
        0 <= index,
    ensures
        weekday_abbr((start1 + grid_row(index, grid_offset(first_weekday, start1))) % 7)
            == weekday_abbr((first_weekday + index) % 7),
        weekday_abbr((start1 + grid_row(index, grid_offset(first_weekday, start1))) % 7)
            == weekday_abbr((start2 + grid_row(index, grid_offset(first_weekday, start2))) % 7),
{
    lemma_row_label(first_weekday, start1, index);
    lemma_row_label(first_weekday, start2, index);
}

proof fn lemma_row_label(w: int, s: int, j: int)
    requires
        0 <= w < 7,
        0 <= s < 7,
        0 <= j,
    ensures
        (s + grid_row(j, grid_offset(w, s))) % 7 == (w + j) % 7,
{
    let o = (w - s + 7) % 7;
    let q = (j + o) / 7;
    assert(j + o == 7 * q + (j + o) % 7);
    assert((s + (j + o) % 7) % 7 == (w + j) % 7) by {
        assert(s + (j + o) % 7 == s + j + o - 7 * q);
        let p = (w - s + 7) / 7;
        assert(w - s + 7 == 7 * p + o);
        assert(s + (j + o) % 7 == w + j + 7 - 7 * p - 7 * q);
        vstd::arithmetic::div_mod::lemma_mod_sub_multiples_vanish(w + j + 7 - 7 * p, 7);
        assert((w + j + 7 - 7 * p - 7 * q) % 7 == (w + j + 7 - 7 * p) % 7) by {
            vstd::arithmetic::div_mod::lemma_mod_multiples_vanish(-q, w + j + 7 - 7 * p, 7);
        }
        vstd::arithmetic::div_mod::lemma_mod_multiples_vanish(1 - p, w + j, 7);
    }
}

/// The legend has the five custom colors, or under native colors one entry per distinct
/// observed color plus the empty color.
pub proof fn lemma_legend_length(cal: Seq<Contribution>, cfg: Config, legend: Seq<Seq<char>>)
    requires
        is_legend(cal, cfg, legend),
    ensures
        !cfg.native_colors ==> legend.len() == 5 && legend == custom_legend(cfg),
        cfg.native_colors ==> legend.len() == observed_colors(cal, cfg, cal.len() as int).len() + 1,
{
    if cfg.native_colors {
        lemma_descending_no_duplicates(legend.drop_first());
    }
}

/// A configuration and calendar have exactly one legend.
pub proof fn lemma_legend_unique(cal: Seq<Contribution>, cfg: Config, l1: Seq<Seq<char>>, l2: Seq<Seq<char>>)
    requires
        is_legend(cal, cfg, l1),
        is_legend(cal, cfg, l2),
    ensures
        l1 == l2,
{
    if cfg.native_colors {
        lemma_descending_unique(l1.drop_first(), l2.drop_first());
        assert forall|i: int| 0 <= i < l1.len() implies l1[i] == l2[i] by {
            if i > 0 {
                assert(l1.drop_first()[i - 1] == l2.drop_first()[i - 1]);
            }
        }
        assert(l1 =~= l2);
    }
}

/// Rendering is deterministic: two renderings of one calendar under one configuration
/// are the same lines.
pub proof fn lemma_render_deterministic(cal: Seq<Contribution>, cfg: Config, a: Seq<Seq<char>>, b: Seq<Seq<char>>)
    requires
        renders_as(cal, cfg, a),
        renders_as(cal, cfg, b),
    ensures
        a == b,
{
    let la = choose|l: Seq<Seq<char>>| is_legend(cal, cfg, l) && a == rendered(cal, cfg, l);
    let lb = choose|l: Seq<Seq<char>>| is_legend(cal, cfg, l) && b == rendered(cal, cfg, l);
    lemma_legend_unique(cal, cfg, la, lb);
}

/// Whether the grid has a day at column `c`, row `r`.
pub open spec fn occupied(n: int, offset: int, c: int, r: int) -> bool {
    exists|j: int| 0 <= j < n && grid_row(j, offset) == r && grid_column(j, offset) == c
}

/// With the first day in the first row, the last column holds the rows below
/// `n - 7 * (columns - 1)`: all seven when `n` is a multiple of 7, and exactly the first
/// `n % 7` rows otherwise.
pub proof fn lemma_last_column(n: int, r: int)
    requires
        n > 0,
        0 <= r < 7,
    ensures
        occupied(n, 0, columns(n, 0) - 1, r) <==> r < n - 7 * (columns(n, 0) - 1),
        n % 7 == 0 ==> occupied(n, 0, columns(n, 0) - 1, r),
        n % 7 != 0 ==> (occupied(n, 0, columns(n, 0) - 1, r) <==> r < n % 7),
{
    let c = columns(n, 0) - 1;
    if r < n - 7 * c {
        let j = 7 * c + r;
        assert(grid_row(j, 0) == r && grid_column(j, 0) == c);
    }
    if occupied(n, 0, c, r) {
        let j = choose|j: int| 0 <= j < n && grid_row(j, 0) == r && grid_column(j, 0) == c;
        assert(j == 7 * c + r);
    }
}

} // verus!
