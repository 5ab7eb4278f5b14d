//! The contribution calendar and its rendering as lines of colored glyphs.
use crate::color::{
    emboldened, hex_to_rgb, is_hex_color, is_valid_hex_color, lemma_native_dark_is_hex,
    native_dark, native_dark_string, painted, push_bold, push_painted, rgb_of,
};
use crate::config::{parse_weekday, weekday_abbr, weekday_index, Config};
use crate::date::{month_abbr, Date};
use crate::order::{lemma_total, lemma_transitive, lex_gt, str_gt, strictly_descending};
use crate::text::{dec_seq, push_dec, push_spaces, push_str, spaces, str_eq};
use vstd::arithmetic::div_mod::{lemma_add_mod_noop, lemma_small_mod};
use vstd::prelude::*;

verus! {

/// How a day's activity ranks against the rest of the year.
#[allow(non_camel_case_types)]
#[derive(Clone, Copy, Debug, PartialEq, Eq)]
pub enum ContributionLevel {
    NONE,
    FIRST_QUARTILE,
    SECOND_QUARTILE,
    THIRD_QUARTILE,
    FOURTH_QUARTILE,
}

/// One day of the calendar.
#[derive(Clone, Debug)]
pub struct Contribution {
    pub date: Date,
    pub count: i64,
    /// The color that the data source assigned to the day, if any.
    pub color: Option<String>,
    pub contribution_level: ContributionLevel,
}

/// Why a calendar cannot be rendered.
#[derive(Clone, Copy, Debug, PartialEq, Eq)]
pub enum RenderError {
    EmptyCalendar,
}

/// Renders contribution calendars under one configuration.
pub struct Dono {
    pub config: Config,
}

/// The hex color code that a day is drawn in.
pub open spec fn resolved_color(c: Contribution, cfg: Config) -> Seq<char> {
    if c.count == 0 {
        if cfg.native_colors { native_dark() } else { cfg.colors.empty@ }
    } else if cfg.native_colors {
        match c.color {
            Some(s) => if is_hex_color(s@) { s@ } else { native_dark() },
            None => native_dark(),
        }
    } else {
        match c.contribution_level {
            ContributionLevel::FIRST_QUARTILE => cfg.colors.low@,
            ContributionLevel::SECOND_QUARTILE => cfg.colors.medium@,
            ContributionLevel::THIRD_QUARTILE => cfg.colors.high@,
            ContributionLevel::FOURTH_QUARTILE => cfg.colors.max@,
            ContributionLevel::NONE => cfg.colors.empty@,
        }
    }
}

/// The glyph that a day is drawn with.
pub open spec fn glyph(c: Contribution, cfg: Config) -> Seq<char> {
    if c.count == 0 { cfg.empty@ } else { cfg.fill@ }
}

/// A day drawn as a colored glyph and a space.
pub open spec fn cell(c: Contribution, cfg: Config) -> Seq<char> {
    painted(rgb_of(resolved_color(c, cfg)), glyph(c, cfg)) + " "@
}

/// Sum of the counts of the first `n` days.
pub open spec fn total(cal: Seq<Contribution>, n: int) -> int
    decreases n,
{
    if n <= 0 { 0 } else { total(cal, n - 1) + cal[n - 1].count }
}

/// Every count is non-negative.
pub open spec fn counts_non_negative(cal: Seq<Contribution>) -> bool {
    forall|i: int| 0 <= i < cal.len() ==> #[trigger] cal[i].count >= 0
}

/// Grid row of the day at `index`, rows counted from the configured start day.
pub open spec fn grid_row(index: int, offset: int) -> int {
    (index + offset) % 7
}

/// Grid column (week) of the day at `index`.
pub open spec fn grid_column(index: int, offset: int) -> int {
    (index + offset) / 7
}

/// The row of the first day: how far its weekday lies past the start day.
pub open spec fn grid_offset(first_weekday: int, start: int) -> int {
    (first_weekday - start + 7) % 7
}

/// The cells of row `r` among the first `n` days, in order.
pub open spec fn row_cells(cal: Seq<Contribution>, cfg: Config, offset: int, r: int, n: int) -> Seq<char>
    decreases n,
{
    if n <= 0 {
        Seq::empty()
    } else if grid_row(n - 1, offset) == r {
        row_cells(cal, cfg, offset, r, n - 1) + cell(cal[n - 1], cfg)
    } else {
        row_cells(cal, cfg, offset, r, n - 1)
    }
}

/// Row `r` of the grid: its weekday label, a blank first week where the calendar starts
/// later in the week, then its cells.
pub open spec fn row_line(cal: Seq<Contribution>, cfg: Config, offset: int, r: int) -> Seq<char> {
    weekday_abbr((weekday_index(cfg.week_start_day@) + r) % 7) + " "@
        + (if r < offset { "  "@ } else { Seq::<char>::empty() })
        + row_cells(cal, cfg, offset, r, cal.len() as int)
}


/// The characters of each string.
pub open spec fn views(v: Seq<String>) -> Seq<Seq<char>> {
    v.map_values(|s: String| s@)
}

/// The colors that the first `n` days are drawn in, but the native empty color.
pub open spec fn observed_colors(cal: Seq<Contribution>, cfg: Config, n: int) -> Set<Seq<char>> {
    Set::new(
        |h: Seq<char>|
            h != native_dark() && exists|j: int| 0 <= j < n && #[trigger] resolved_color(cal[j], cfg) == h,
    )
}

/// The custom palette from least to most.
pub open spec fn custom_legend(cfg: Config) -> Seq<Seq<char>> {
    seq![cfg.colors.empty@, cfg.colors.low@, cfg.colors.medium@, cfg.colors.high@, cfg.colors.max@]
}

/// The legend: the custom palette in order; or, under native colors, the native empty
/// color followed by each observed color once, in descending order.
pub open spec fn is_legend(cal: Seq<Contribution>, cfg: Config, legend: Seq<Seq<char>>) -> bool {
    if cfg.native_colors {
        &&& legend.len() >= 1
        &&& legend[0] == native_dark()
        &&& strictly_descending(legend.drop_first())
        &&& legend.drop_first().to_set() == observed_colors(cal, cfg, cal.len() as int)
    } else {
        legend == custom_legend(cfg)
    }
}

/// Inserts `h` into a strictly descending vector unless it is there already.
fn insert_descending(v: &mut Vec<String>, h: String)
    requires
        strictly_descending(views(old(v)@)),
    ensures
        strictly_descending(views(final(v)@)),
        views(final(v)@).to_set() == views(old(v)@).to_set().insert(h@),
{
    let ghost old_v = views(v@);
    let mut p: usize = 0;
    while p < v.len() && str_gt(v[p].as_str(), h.as_str())
        invariant
            p <= v@.len(),
            views(v@) == old_v,
            forall|q: int| 0 <= q < p ==> lex_gt(#[trigger] old_v[q], h@),
        decreases v@.len() - p,
    {
        p = p + 1;
    }
    if p < v.len() && str_eq(v[p].as_str(), h.as_str()) {
        assert(old_v[p as int] == h@);
        assert(old_v.to_set().insert(h@) =~= old_v.to_set());
        return;
    }
    let ghost hv = h@;
    v.insert(p, h);
    let ghost new_v = views(v@);
    assert(new_v =~= old_v.insert(p as int, hv));
    assert forall|i: int, j: int| 0 <= i < j < new_v.len() implies lex_gt(
        #[trigger] new_v[i],
        #[trigger] new_v[j],
    ) by {
        if j > p && i == p {
            lemma_total(old_v[p as int], hv);
            if j - 1 > p {
                lemma_transitive(hv, old_v[p as int], old_v[j - 1]);
            }
        } else if j > p && i < p {
            assert(lex_gt(old_v[i], old_v[j - 1]));
        } else if i > p {
            assert(lex_gt(old_v[i - 1], old_v[j - 1]));
        } else if j < p {
            assert(lex_gt(old_v[i], old_v[j]));
        }
    }
    assert(new_v.to_set() =~= old_v.to_set().insert(hv)) by {
        assert forall|x: Seq<char>| new_v.contains(x) <==> old_v.contains(x) || x == hv by {
            if old_v.contains(x) {
                let k = choose|k: int| 0 <= k < old_v.len() && old_v[k] == x;
                if k < p {
                    assert(new_v[k] == x);
                } else {
                    assert(new_v[k + 1] == x);
                }
            }
            if x == hv {
                assert(new_v[p as int] == x);
            }
        }
    }
}


/// Every date can be handed to chrono.
pub open spec fn dates_valid(cal: Seq<Contribution>) -> bool {
    forall|i: int| 0 <= i < cal.len() ==> (#[trigger] cal[i]).date.wf()
}

/// The line that states the total.
pub open spec fn total_line(cal: Seq<Contribution>) -> Seq<char> {
    "Total of "@ + emboldened(dec_seq(total(cal, cal.len() as int) as nat))
        + " contributions in the last year"@
}

/// The month axis, before the name of the last day's month.
pub open spec fn month_axis() -> Seq<char> {
    "      Jan     Feb     Mar     Apr     May     Jun     Jul     Aug     Sep     Oct     Nov     Dec\t"@
}

/// The number of weeks (columns) of the grid.
pub open spec fn columns(n: int, offset: int) -> int {
    (n + offset + 6) / 7
}

/// The indentation of the legend, which grows with the width of the grid.
pub open spec fn legend_indent(n: int, offset: int) -> int {
    if 2 * columns(n, offset) >= 15 { 2 * columns(n, offset) - 15 } else { 0 }
}

/// The first `k` legend colors, each as a painted fill glyph and a space.
pub open spec fn legend_cells(legend: Seq<Seq<char>>, fill: Seq<char>, k: int) -> Seq<char>
    decreases k,
{
    if k <= 0 {
        Seq::empty()
    } else {
        legend_cells(legend, fill, k - 1) + painted(rgb_of(legend[k - 1]), fill) + " "@
    }
}

/// The legend line.
pub open spec fn legend_line(cal: Seq<Contribution>, cfg: Config, offset: int, legend: Seq<Seq<char>>) -> Seq<char> {
    spaces(legend_indent(cal.len() as int, offset) as nat) + " Less "@
        + legend_cells(legend, cfg.fill@, legend.len() as int) + "More"@
}

/// The grid offset of a non-empty calendar under a configuration.
pub open spec fn calendar_offset(cal: Seq<Contribution>, cfg: Config) -> int {
    grid_offset(cal[0].date.weekday_spec() as int, weekday_index(cfg.week_start_day@))
}

/// The lines of output: a blank line, the total, a blank line, the month axis, the seven
/// grid rows, and the legend.
pub open spec fn rendered(cal: Seq<Contribution>, cfg: Config, legend: Seq<Seq<char>>) -> Seq<Seq<char>> {
    let offset = calendar_offset(cal, cfg);
    seq![
        Seq::empty(),
        total_line(cal),
        Seq::empty(),
        month_axis() + month_abbr(cal.last().date.month as int),
        row_line(cal, cfg, offset, 0),
        row_line(cal, cfg, offset, 1),
        row_line(cal, cfg, offset, 2),
        row_line(cal, cfg, offset, 3),
        row_line(cal, cfg, offset, 4),
        row_line(cal, cfg, offset, 5),
        row_line(cal, cfg, offset, 6),
        legend_line(cal, cfg, offset, legend),
    ]
}

/// `lines` is a rendering of `cal` under `cfg`.
pub open spec fn renders_as(cal: Seq<Contribution>, cfg: Config, lines: Seq<Seq<char>>) -> bool {
    exists|legend: Seq<Seq<char>>| is_legend(cal, cfg, legend) && lines == rendered(cal, cfg, legend)
}

/// Under a valid configuration every day is drawn in a hex color code.
pub proof fn lemma_resolved_is_hex(c: Contribution, cfg: Config)
    requires
        cfg.valid(),
    ensures
        is_hex_color(resolved_color(c, cfg)),
{
    lemma_native_dark_is_hex();
}

proof fn lemma_rendered_row(cal: Seq<Contribution>, cfg: Config, legend: Seq<Seq<char>>, r: int)
    requires
        0 <= r < 7,
    ensures
        rendered(cal, cfg, legend).len() == 12,
        rendered(cal, cfg, legend)[4 + r] == row_line(cal, cfg, calendar_offset(cal, cfg), r),
        rendered(cal, cfg, legend)[11] == legend_line(cal, cfg, calendar_offset(cal, cfg), legend),
{
    let e = rendered(cal, cfg, legend);
    let o = calendar_offset(cal, cfg);
    if r == 0 {
        assert(e[4] == row_line(cal, cfg, o, 0));
    } else if r == 1 {
        assert(e[5] == row_line(cal, cfg, o, 1));
    } else if r == 2 {
        assert(e[6] == row_line(cal, cfg, o, 2));
    } else if r == 3 {
        assert(e[7] == row_line(cal, cfg, o, 3));
    } else if r == 4 {
        assert(e[8] == row_line(cal, cfg, o, 4));
    } else if r == 5 {
        assert(e[9] == row_line(cal, cfg, o, 5));
    } else {
        assert(e[10] == row_line(cal, cfg, o, 6));
    }
}

proof fn lemma_legend_is_hex(cal: Seq<Contribution>, cfg: Config, legend: Seq<Seq<char>>, k: int)
    requires
        cfg.valid(),
        is_legend(cal, cfg, legend),
        0 <= k < legend.len(),
    ensures
        is_hex_color(legend[k]),
{
    lemma_native_dark_is_hex();
    if cfg.native_colors && k > 0 {
        let x = legend[k];
        assert(legend.drop_first()[k - 1] == x);
        assert(legend.drop_first().to_set().contains(x));
        let j = choose|j: int| 0 <= j < cal.len() && #[trigger] resolved_color(cal[j], cfg) == x;
        lemma_resolved_is_hex(cal[j], cfg);
    }
}

impl Dono {
    /// Takes a configuration that has passed validation.
    pub fn new(config: Config) -> (r: Dono)
        requires
            config.valid(),
        ensures
            r.config == config,
    {
        Dono { config }
    }

    /// The hex color code of a day under this configuration.
    pub fn resolve_color(&self, c: &Contribution) -> (r: String)
        ensures
            r@ == resolved_color(*c, self.config),
    {
        if c.count == 0 {
            if self.config.native_colors {
                native_dark_string()
            } else {
                self.config.colors.empty.clone()
            }
        } else if self.config.native_colors {
            match &c.color {
                Some(s) => if is_valid_hex_color(s.as_str()) {
                    s.clone()
                } else {
                    native_dark_string()
                },
                None => native_dark_string(),
            }
        } else {
            match c.contribution_level {
                ContributionLevel::FIRST_QUARTILE => self.config.colors.low.clone(),
                ContributionLevel::SECOND_QUARTILE => self.config.colors.medium.clone(),
                ContributionLevel::THIRD_QUARTILE => self.config.colors.high.clone(),
                ContributionLevel::FOURTH_QUARTILE => self.config.colors.max.clone(),
                ContributionLevel::NONE => self.config.colors.empty.clone(),
            }
        }
    }

    fn push_cell(&self, s: &mut String, c: &Contribution)
        requires
            self.config.valid(),
        ensures
            final(s)@ == old(s)@ + cell(*c, self.config),
    {
        proof {
            lemma_native_dark_is_hex();
        }
        let hex = self.resolve_color(c);
        let rgb = hex_to_rgb(hex.as_str()).unwrap();
        if c.count == 0 {
            push_painted(s, rgb, self.config.empty.as_str());
        } else {
            push_painted(s, rgb, self.config.fill.as_str());
        }
        push_str(s, " ");
    }

    /// Sum of all counts.
    pub fn total_contributions(&self, contributions: &[Contribution]) -> (r: u128)
        requires
            counts_non_negative(contributions@),
        ensures
            r as int == total(contributions@, contributions@.len() as int),
    {
        let mut acc: u128 = 0;
        let mut i: usize = 0;
        while i < contributions.len()
            invariant
                i <= contributions@.len(),
                counts_non_negative(contributions@),
                acc as int == total(contributions@, i as int),
                acc <= i as u128 * 0x8000_0000_0000_0000u128,
            decreases contributions@.len() - i,
        {
            let c = contributions[i].count;
            assert(c >= 0);
            assert(acc + c <= (i as u128 + 1) * 0x8000_0000_0000_0000u128 <= 0x8000_0000_0000_0000_0000_0000_0000_0000u128) by (nonlinear_arith)
                requires
                    acc <= i as u128 * 0x8000_0000_0000_0000u128,
                    0 <= c < 0x8000_0000_0000_0000,
                    i < 0x1_0000_0000_0000_0000,
            ;
            acc = acc + c as u128;
            i = i + 1;
        }
        acc
    }


    /// The colors of the legend, from least to most.
    pub fn legend_colors(&self, contributions: &[Contribution]) -> (r: Vec<String>)
        ensures
            is_legend(contributions@, self.config, views(r@)),
    {
        if !self.config.native_colors {
            let r = vec![
                self.config.colors.empty.clone(),
                self.config.colors.low.clone(),
                self.config.colors.medium.clone(),
                self.config.colors.high.clone(),
                self.config.colors.max.clone(),
            ];
            assert(views(r@) =~= custom_legend(self.config));
            return r;
        }
        let dark = native_dark_string();
        let mut v: Vec<String> = Vec::new();
        let mut i: usize = 0;
        assert(views(v@).to_set() =~= observed_colors(contributions@, self.config, 0));
        while i < contributions.len()
            invariant
                self.config.native_colors,
                dark@ == native_dark(),
                i <= contributions@.len(),
                strictly_descending(views(v@)),
                views(v@).to_set() == observed_colors(contributions@, self.config, i as int),
            decreases contributions@.len() - i,
        {
            let h = self.resolve_color(&contributions[i]);
            let ghost hv = h@;
            let ghost before = observed_colors(contributions@, self.config, i as int);
            let ghost after = observed_colors(contributions@, self.config, i + 1);
            if str_eq(h.as_str(), dark.as_str()) {
                assert(after =~= before) by {
                    assert forall|x: Seq<char>| after.contains(x) implies before.contains(x) by {
                        let j = choose|j: int|
                            0 <= j < i + 1 && #[trigger] resolved_color(contributions@[j], self.config) == x;
                        assert(j < i);
                    }
                }
            } else {
                insert_descending(&mut v, h);
                assert(after =~= before.insert(hv)) by {
                    assert forall|x: Seq<char>| after.contains(x) implies before.insert(hv).contains(x) by {
                        let j = choose|j: int|
                            0 <= j < i + 1 && #[trigger] resolved_color(contributions@[j], self.config) == x;
                        if j < i {
                            assert(before.contains(x));
                        }
                    }
                    assert(resolved_color(contributions@[i as int], self.config) == hv);
                }
            }
            i = i + 1;
        }
        let ghost tail = views(v@);
        v.insert(0, dark);
        assert(views(v@).drop_first() =~= tail);
        v
    }


    /// Renders a calendar as lines of text; an empty calendar is refused.
    pub fn render_contributions(&self, contributions: &[Contribution]) -> (r: Result<Vec<String>, RenderError>)
        requires
            self.config.valid(),
            counts_non_negative(contributions@),
            dates_valid(contributions@),
        ensures
            r is Err <==> contributions@.len() == 0,
            r is Ok ==> renders_as(contributions@, self.config, views(r.unwrap()@)),
    {
        let n = contributions.len();
        if n == 0 {
            return Err(RenderError::EmptyCalendar);
        }
        let ghost cal = contributions@;
        let ghost cfg = self.config;
        let legend = self.legend_colors(contributions);
        let ghost expected = rendered(cal, cfg, views(legend@));
        let mut lines: Vec<String> = Vec::new();
        lines.push(String::new());
        let mut t = String::new();
        push_str(&mut t, "Total of ");
        let mut num = String::new();
        push_dec(&mut num, self.total_contributions(contributions));
        push_bold(&mut t, num.as_str());
        push_str(&mut t, " contributions in the last year");
        lines.push(t);
        lines.push(String::new());
        let mut axis = String::new();
        push_str(&mut axis, "      Jan     Feb     Mar     Apr     May     Jun     Jul     Aug     Sep     Oct     Nov     Dec\t");
        let last = contributions[n - 1].date.month_abbreviation();
        push_str(&mut axis, last.as_str());
        lines.push(axis);
        assert(views(lines@) =~= expected.take(4));
        proof {
            lemma_rendered_row(cal, cfg, views(legend@), 0);
        }
        let start = parse_weekday(self.config.week_start_day.as_str()).unwrap();
        let wd = contributions[0].date.weekday();
        let offset = (wd as usize + 7 - start as usize) % 7;
        assert(offset as int == calendar_offset(cal, cfg));
        let mut r: usize = 0;
        while r < 7
            invariant
                self.config.valid(),
                contributions@ == cal,
                cfg == self.config,
                expected == rendered(cal, cfg, views(legend@)),
                offset as int == calendar_offset(cal, cfg),
                offset < 7,
                r <= 7,
                lines@.len() == 4 + r,
                expected.len() == 12,
                views(lines@) == expected.take(4 + r),
            decreases 7 - r,
        {
            let line = self.row_line(contributions, offset, r);
            proof {
                lemma_rendered_row(cal, cfg, views(legend@), r as int);
            }
            lines.push(line);
            assert(views(lines@) =~= expected.take(4 + r + 1));
            r = r + 1;
        }
        let ll = self.legend_line(contributions, offset, &legend);
        proof {
            lemma_rendered_row(cal, cfg, views(legend@), 0);
        }
        assert(ll@ == expected[11]);
        let ghost prev = lines@;
        lines.push(ll);
        assert(views(lines@) =~= views(prev).push(ll@));
        assert(views(lines@) =~= expected);
        Ok(lines)
    }


    fn legend_line(&self, contributions: &[Contribution], offset: usize, legend: &Vec<String>) -> (ll: String)
        requires
            self.config.valid(),
            is_legend(contributions@, self.config, views(legend@)),
            offset < 7,
        ensures
            ll@ == legend_line(contributions@, self.config, offset as int, views(legend@)),
    {
        let ghost cal = contributions@;
        let ghost cfg = self.config;
        let n = contributions.len();
        let cols: u128 = (n as u128 + offset as u128 + 6) / 7;
        let mut ll = String::new();
        if 2 * cols >= 15 {
            push_spaces(&mut ll, 2 * cols - 15);
        }
        assert(ll@ =~= spaces(legend_indent(cal.len() as int, offset as int) as nat));
        push_str(&mut ll, " Less ");
        let ghost head = ll@;
        let mut k: usize = 0;
        while k < legend.len()
            invariant
                self.config.valid(),
                is_legend(cal, cfg, views(legend@)),
                cfg == self.config,
                k <= legend@.len(),
                ll@ == head + legend_cells(views(legend@), cfg.fill@, k as int),
            decreases legend@.len() - k,
        {
            proof {
                lemma_legend_is_hex(cal, cfg, views(legend@), k as int);
            }
            let rgb = hex_to_rgb(legend[k].as_str()).unwrap();
            push_painted(&mut ll, rgb, self.config.fill.as_str());
            push_str(&mut ll, " ");
            k = k + 1;
            assert(ll@ =~= head + legend_cells(views(legend@), cfg.fill@, k as int));
        }
        push_str(&mut ll, "More");
        ll
    }

    fn row_line(&self, contributions: &[Contribution], offset: usize, r: usize) -> (line: String)
        requires
            self.config.valid(),
            offset < 7,
            r < 7,
        ensures
            line@ == row_line(contributions@, self.config, offset as int, r as int),
    {
        let start = parse_weekday(self.config.week_start_day.as_str()).unwrap();
        let mut line = String::new();
        push_weekday_abbr(&mut line, (start as usize + r) % 7);
        push_str(&mut line, " ");
        if r < offset {
            push_str(&mut line, "  ");
        }
        let ghost head = line@;
        let mut j: usize = 0;
        while j < contributions.len()
            invariant
                self.config.valid(),
                offset < 7,
                j <= contributions@.len(),
                line@ == head + row_cells(contributions@, self.config, offset as int, r as int, j as int),
            decreases contributions@.len() - j,
        {
            let row = (j % 7 + offset) % 7;
            assert(row as int == grid_row(j as int, offset as int)) by {
                lemma_add_mod_noop(j as int, offset as int, 7);
                lemma_small_mod(offset as nat, 7);
            }
            if row == r {
                self.push_cell(&mut line, &contributions[j]);
            }
            j = j + 1;
        }
        line
    }
}

fn push_weekday_abbr(s: &mut String, i: usize)
    requires
        i < 7,
    ensures
        final(s)@ == old(s)@ + weekday_abbr(i as int),
{
    if i == 0 { push_str(s, "Sun") }
    else if i == 1 { push_str(s, "Mon") }
    else if i == 2 { push_str(s, "Tue") }
    else if i == 3 { push_str(s, "Wed") }
    else if i == 4 { push_str(s, "Thu") }
    else if i == 5 { push_str(s, "Fri") }
    else { push_str(s, "Sat") }
}

} // verus!
