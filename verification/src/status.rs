//! The status panel the command-line tool shows.

use vstd::prelude::*;

use crate::ipc::ServiceStatus;
use crate::text::{decimal, decimal_string};
use crate::time::div_toward_zero;
use crate::ui::{
    escape_free, glyphs_escape_free, lemma_concat_free, lemma_line_concat_free, lemma_repeated_free,
    panel_escape_free, repeated, row_escape_free, escape_char,
    field, gauge, gauge_view, layout_view, notice, free_of_escapes, message_as, renders_lines, spaces, Glyphs,
    Line, LineView, Panel, PanelView, Row, RowView, SectionView, Tone, GAUGE_CELLS, max_label,
};

verus! {

/// Seconds in a day.
pub const SECONDS_PER_DAY: i64 = 86_400;

/// The tone a charge level is shown in: red up to 20%, yellow up to 50%,
/// green above.
pub open spec fn charge_tone_spec(percent: u32) -> Tone {
    if percent <= 20 {
        Tone::Danger
    } else if percent <= 50 {
        Tone::Warn
    } else {
        Tone::Good
    }
}

/// The tone a health level is shown in: red below 80%, yellow below 90%,
/// green from 90%.
pub open spec fn health_tone_spec(percent: u32) -> Tone {
    if percent < 80 {
        Tone::Danger
    } else if percent < 90 {
        Tone::Warn
    } else {
        Tone::Good
    }
}

/// Decides [`charge_tone_spec`].
pub fn charge_tone(percent: u32) -> (t: Tone)
    ensures
        t == charge_tone_spec(percent),
{
    if percent <= 20 {
        Tone::Danger
    } else if percent <= 50 {
        Tone::Warn
    } else {
        Tone::Good
    }
}

/// Decides [`health_tone_spec`].
pub fn health_tone(percent: u32) -> (t: Tone)
    ensures
        t == health_tone_spec(percent),
{
    if percent < 80 {
        Tone::Danger
    } else if percent < 90 {
        Tone::Warn
    } else {
        Tone::Good
    }
}

/// `digits` right-aligned in three columns.
pub open spec fn right_aligned3(digits: Seq<char>) -> Seq<char> {
    if digits.len() < 3 {
        spaces((3 - digits.len()) as nat) + digits
    } else {
        digits
    }
}

/// A percentage as a gauge followed by the number.
pub open spec fn reading_view(percent: u32, tone: Tone, g: Glyphs) -> LineView {
    gauge_view(percent, GAUGE_CELLS as nat, tone, g) + seq![
        (seq![' ', ' '], Tone::Plain),
        (right_aligned3(decimal(percent as nat)), tone),
        (seq!['%'], Tone::Plain),
    ]
}

fn percent_text(percent: u32) -> (s: String)
    ensures
        s@ == right_aligned3(decimal(percent as nat)),
{
    let digits = decimal_string(percent as u64);
    let n = digits.unicode_len();
    if n < 3 {
        let mut s = crate::ui::repeat_char(' ', 3 - n);
        s.append(digits.as_str());
        assert(crate::ui::repeated(' ', (3 - n) as nat) =~= spaces((3 - n) as nat));
        s
    } else {
        digits
    }
}

fn text(s: &str) -> (out: String)
    ensures
        out@ == s@,
{
    String::from_str(s)
}

fn reading(percent: u32, tone: Tone, g: &Glyphs) -> (l: Line)
    ensures
        l@ == reading_view(percent, tone, *g),
{
    let l = gauge(percent, GAUGE_CELLS, tone, g).plain(crate::ui::repeat_char(' ', 2)).push(percent_text(percent), tone).plain(
        crate::ui::char_string('%'),
    );
    proof {
        assert(crate::ui::repeated(' ', 2) =~= seq![' ', ' ']);
    }
    assert(l@ =~~= reading_view(percent, tone, *g));
    l
}

/// The battery section: charge and health, each when known.
pub open spec fn battery_rows_view(status: ServiceStatus, g: Glyphs) -> Seq<RowView> {
    (match status.battery_charge {
        Some(c) => seq![("Charge"@, reading_view(c, charge_tone_spec(c), g))],
        None => Seq::empty(),
    }) + (match status.battery_health {
        Some(h) => seq![("Health"@, reading_view(h, health_tone_spec(h), g))],
        None => Seq::empty(),
    })
}

/// The rows, as label and spans.
pub open spec fn row_views(rows: Seq<Row>) -> Seq<RowView> {
    rows.map_values(|r: Row| r@)
}

fn push_row(rows: &mut Vec<Row>, row: Row)
    ensures
        row_views(final(rows)@) == row_views(old(rows)@).push(row@),
{
    let ghost before = rows@;
    rows.push(row);
    assert(row_views(rows@) =~= row_views(before).push(row@));
}

fn battery_rows(status: &ServiceStatus, g: &Glyphs) -> (rows: Vec<Row>)
    ensures
        row_views(rows@) == battery_rows_view(*status, *g),
{
    let mut rows: Vec<Row> = Vec::new();
    if let Some(charge) = status.battery_charge {
        push_row(&mut rows, field(text("Charge"), reading(charge, charge_tone(charge), g)));
    }
    if let Some(health) = status.battery_health {
        push_row(&mut rows, field(text("Health"), reading(health, health_tone(health), g)));
    }
    assert(row_views(rows@) =~~= battery_rows_view(*status, *g));
    rows
}

/// The threshold in force, green when it is the configured limit and yellow
/// otherwise, marked when a boost or a calibration explains the difference.
pub open spec fn applied_view(status: ServiceStatus) -> Option<LineView> {
    match status.applied_threshold {
        None => None,
        Some(threshold) => {
            let tone = if threshold == status.charge_limit { Tone::Good } else { Tone::Warn };
            let base = seq![(decimal(threshold as nat), tone), (seq!['%'], Tone::Plain)];
            Some(if status.boost_until is Some {
                base.push(("  boost"@, Tone::Dim))
            } else if status.calibration_active {
                base.push(("  calibrating"@, Tone::Dim))
            } else {
                base
            })
        },
    }
}

fn applied(status: &ServiceStatus) -> (l: Option<Line>)
    ensures
        match l {
            Some(line) => applied_view(*status) == Some(line@),
            None => applied_view(*status) is None,
        },
{
    let threshold = match status.applied_threshold {
        Some(t) => t,
        None => return None,
    };
    let tone = if threshold == status.charge_limit { Tone::Good } else { Tone::Warn };
    let mut line = Line::new().push(decimal_string(threshold as u64), tone).plain(crate::ui::char_string('%'));
    if status.boost_until.is_some() {
        line = line.push(text("  boost"), Tone::Dim);
    } else if status.calibration_active {
        line = line.push(text("  calibrating"), Tone::Dim);
    }
    assert(line@ =~~= applied_view(*status).unwrap());
    Some(line)
}

/// The periodic full charge: every so many days, or off.
pub open spec fn periodic_view(status: ServiceStatus) -> LineView {
    if status.enable_periodic_full_charge {
        seq![("every "@, Tone::Plain), (decimal(status.full_charge_period as nat), Tone::Accent), (" days"@, Tone::Plain)]
    } else {
        seq![("off"@, Tone::Dim)]
    }
}

fn periodic(status: &ServiceStatus) -> (l: Line)
    ensures
        l@ == periodic_view(*status),
{
    let l = if status.enable_periodic_full_charge {
        Line::new().plain(text("every ")).push(decimal_string(status.full_charge_period as u64), Tone::Accent).plain(
            text(" days"),
        )
    } else {
        Line::new().push(text("off"), Tone::Dim)
    };
    assert(l@ =~~= periodic_view(*status));
    l
}

/// Whether `a - b` fits in an `i64`.
pub open spec fn difference_fits(a: i64, b: i64) -> bool {
    i64::MIN <= a - b <= i64::MAX
}

/// How long ago the last full charge was, at `now` (seconds since the epoch):
/// never, today, yesterday, or so many days ago.
pub open spec fn last_full_charge_view(status: ServiceStatus, now: i64) -> LineView {
    match status.last_full_charge {
        None => seq![("never"@, Tone::Warn)],
        Some(timestamp) => {
            let days = div_toward_zero(now - timestamp, SECONDS_PER_DAY as int);
            if days < 1 {
                seq![("today"@, Tone::Plain)]
            } else if days < 2 {
                seq![("yesterday"@, Tone::Plain)]
            } else {
                seq![(decimal(days as nat), Tone::Accent), (" days ago"@, Tone::Plain)]
            }
        },
    }
}

fn last_full_charge(status: &ServiceStatus, now: i64) -> (l: Line)
    requires
        status.last_full_charge matches Some(t) ==> difference_fits(now, t),
    ensures
        l@ == last_full_charge_view(*status, now),
{
    let timestamp = match status.last_full_charge {
        None => {
            let l = Line::new().push(text("never"), Tone::Warn);
            assert(l@ =~~= last_full_charge_view(*status, now));
            return l;
        },
        Some(t) => t,
    };
    let elapsed = now - timestamp;
    let days = if elapsed >= 0 { elapsed / SECONDS_PER_DAY } else { -((-(elapsed as i128)) / (SECONDS_PER_DAY as i128)) as i64 };
    assert(days == div_toward_zero(now - timestamp, SECONDS_PER_DAY as int));
    let l = if days < 1 {
        Line::new().plain(text("today"))
    } else if days < 2 {
        Line::new().plain(text("yesterday"))
    } else {
        Line::new().push(decimal_string(days as u64), Tone::Accent).plain(text(" days ago"))
    };
    assert(l@ =~~= last_full_charge_view(*status, now));
    l
}

/// The boost: off, ending, or the hours and minutes left at `now`.
pub open spec fn boost_view(status: ServiceStatus, now: i64) -> LineView {
    match status.boost_until {
        None => seq![("off"@, Tone::Dim)],
        Some(until) => {
            let remaining = until - now;
            if remaining <= 0 {
                seq![("ending"@, Tone::Accent)]
            } else {
                seq![
                    (decimal((remaining / 3600) as nat), Tone::Accent),
                    ("h "@, Tone::Plain),
                    (decimal((remaining % 3600 / 60) as nat), Tone::Accent),
                    ("m left"@, Tone::Plain),
                ]
            }
        },
    }
}

fn boost(status: &ServiceStatus, now: i64) -> (l: Line)
    requires
        status.boost_until matches Some(u) ==> difference_fits(u, now),
    ensures
        l@ == boost_view(*status, now),
{
    let until = match status.boost_until {
        None => {
            let l = Line::new().push(text("off"), Tone::Dim);
            assert(l@ =~~= boost_view(*status, now));
            return l;
        },
        Some(u) => u,
    };
    let remaining = until - now;
    if remaining <= 0 {
        let l = Line::new().push(text("ending"), Tone::Accent);
        assert(l@ =~~= boost_view(*status, now));
        return l;
    }
    let l = Line::new().push(decimal_string((remaining / 3600) as u64), Tone::Accent).plain(text("h ")).push(
        decimal_string((remaining % 3600 / 60) as u64),
        Tone::Accent,
    ).plain(text("m left"));
    assert(l@ =~~= boost_view(*status, now));
    l
}

/// The settings section: charge limit, threshold in force when known,
/// periodic full charge, last full charge and boost.
pub open spec fn config_rows_view(status: ServiceStatus, now: i64) -> Seq<RowView> {
    seq![("Charge limit"@, seq![(decimal(status.charge_limit as nat), Tone::Good), (seq!['%'], Tone::Plain)])] + (
    match applied_view(status) {
        Some(line) => seq![("Applied threshold"@, line)],
        None => Seq::empty(),
    }) + seq![
        ("Periodic full charge"@, periodic_view(status)),
        ("Last full charge"@, last_full_charge_view(status, now)),
        ("Boost"@, boost_view(status, now)),
    ]
}

fn config_rows(status: &ServiceStatus, now: i64) -> (rows: Vec<Row>)
    requires
        status.last_full_charge matches Some(t) ==> difference_fits(now, t),
        status.boost_until matches Some(u) ==> difference_fits(u, now),
    ensures
        row_views(rows@) == config_rows_view(*status, now),
{
    let mut rows: Vec<Row> = Vec::new();
    push_row(
        &mut rows,
        field(
            text("Charge limit"),
            Line::new().push(decimal_string(status.charge_limit as u64), Tone::Good).plain(crate::ui::char_string('%')),
        ),
    );
    if let Some(line) = applied(status) {
        push_row(&mut rows, field(text("Applied threshold"), line));
    }
    push_row(&mut rows, field(text("Periodic full charge"), periodic(status)));
    push_row(&mut rows, field(text("Last full charge"), last_full_charge(status, now)));
    push_row(&mut rows, field(text("Boost"), boost(status, now)));
    assert(row_views(rows@) =~~= config_rows_view(*status, now));
    rows
}

/// Adds the section `rows` to the panel view, as [`Panel::section`] does.
pub open spec fn with_section(p: PanelView, rows: Seq<RowView>) -> PanelView {
    if rows.len() == 0 {
        p
    } else {
        (p.0, p.1.push((rows, max_label(rows))))
    }
}

/// The status panel: under the title `zenbookd`, the battery section and the
/// settings section.
pub open spec fn panel_view(status: ServiceStatus, now: i64, g: Glyphs) -> PanelView {
    with_section(
        with_section(("zenbookd"@, Seq::<SectionView>::empty()), battery_rows_view(status, g)),
        config_rows_view(status, now),
    )
}

/// Whether the status's times can be compared with `now` without overflow.
pub open spec fn times_fit(status: ServiceStatus, now: i64) -> bool {
    &&& (status.last_full_charge matches Some(t) ==> difference_fits(now, t))
    &&& (status.boost_until matches Some(u) ==> difference_fits(u, now))
}

/// Decides [`times_fit`].
pub fn times_fit_at(status: &ServiceStatus, now: i64) -> (fit: bool)
    ensures
        fit == times_fit(*status, now),
{
    let last = match status.last_full_charge {
        Some(t) => {
            let d = now as i128 - t as i128;
            i64::MIN as i128 <= d && d <= i64::MAX as i128
        },
        None => true,
    };
    let boost = match status.boost_until {
        Some(u) => {
            let d = u as i128 - now as i128;
            i64::MIN as i128 <= d && d <= i64::MAX as i128
        },
        None => true,
    };
    last && boost
}

/// The status panel for `status` at `now` (seconds since the epoch), gauges
/// drawn with `g`.
pub fn panel(status: &ServiceStatus, now: i64, g: &Glyphs) -> (p: Panel)
    requires
        times_fit(*status, now),
    ensures
        p@ == panel_view(*status, now, *g),
        p.wf(),
{
    let battery = battery_rows(status, g);
    let settings = config_rows(status, now);
    Panel::new(text("zenbookd")).section(battery).section(settings)
}

proof fn lemma_text_free(s: Seq<char>)
    requires
        forall|k: int| 0 <= k < s.len() ==> s[k] != escape_char(),
    ensures
        escape_free(s),
{
}

proof fn lemma_decimal_free(n: nat)
    ensures
        escape_free(decimal(n)),
    decreases n,
{
    if n >= 10 {
        lemma_decimal_free(n / 10);
        let d = decimal(n / 10);
        assert forall|k: int| 0 <= k < decimal(n).len() implies decimal(n)[k] != escape_char() by {
            if k < d.len() {
                assert(decimal(n)[k] == d[k]);
            }
        }
    }
}

proof fn lemma_literals_free()
    ensures
        escape_free("zenbookd"@),
        escape_free("Charge"@),
        escape_free("Health"@),
        escape_free("Charge limit"@),
        escape_free("Applied threshold"@),
        escape_free("Periodic full charge"@),
        escape_free("Last full charge"@),
        escape_free("Boost"@),
        escape_free("  boost"@),
        escape_free("  calibrating"@),
        escape_free("every "@),
        escape_free(" days"@),
        escape_free("off"@),
        escape_free("never"@),
        escape_free("today"@),
        escape_free("yesterday"@),
        escape_free(" days ago"@),
        escape_free("ending"@),
        escape_free("h "@),
        escape_free("m left"@),
        escape_free(seq!['%']),
        escape_free(seq![' ', ' ']),
{
    reveal_strlit("zenbookd");
    reveal_strlit("Charge");
    reveal_strlit("Health");
    reveal_strlit("Charge limit");
    reveal_strlit("Applied threshold");
    reveal_strlit("Periodic full charge");
    reveal_strlit("Last full charge");
    reveal_strlit("Boost");
    reveal_strlit("  boost");
    reveal_strlit("  calibrating");
    reveal_strlit("every ");
    reveal_strlit(" days");
    reveal_strlit("off");
    reveal_strlit("never");
    reveal_strlit("today");
    reveal_strlit("yesterday");
    reveal_strlit(" days ago");
    reveal_strlit("ending");
    reveal_strlit("h ");
    reveal_strlit("m left");
    lemma_text_free("zenbookd"@);
    lemma_text_free("Charge"@);
    lemma_text_free("Health"@);
    lemma_text_free("Charge limit"@);
    lemma_text_free("Applied threshold"@);
    lemma_text_free("Periodic full charge"@);
    lemma_text_free("Last full charge"@);
    lemma_text_free("Boost"@);
    lemma_text_free("  boost"@);
    lemma_text_free("  calibrating"@);
    lemma_text_free("every "@);
    lemma_text_free(" days"@);
    lemma_text_free("off"@);
    lemma_text_free("never"@);
    lemma_text_free("today"@);
    lemma_text_free("yesterday"@);
    lemma_text_free(" days ago"@);
    lemma_text_free("ending"@);
    lemma_text_free("h "@);
    lemma_text_free("m left"@);
    lemma_text_free(seq!['%']);
    lemma_text_free(seq![' ', ' ']);
}

proof fn lemma_reading_free(percent: u32, tone: Tone, g: Glyphs)
    requires
        glyphs_escape_free(g),
    ensures
        free_of_escapes(reading_view(percent, tone, g)),
{
    lemma_literals_free();
    lemma_decimal_free(percent as nat);
    let digits = decimal(percent as nat);
    if digits.len() < 3 {
        lemma_repeated_free(' ', (3 - digits.len()) as nat);
        assert(spaces((3 - digits.len()) as nat) == repeated(' ', (3 - digits.len()) as nat));
        lemma_concat_free(spaces((3 - digits.len()) as nat), digits);
    }
    let cells = GAUGE_CELLS as nat;
    lemma_repeated_free(g.gauge_full, crate::ui::gauge_filled(percent, cells));
    lemma_repeated_free(g.gauge_empty, (cells - crate::ui::gauge_filled(percent, cells)) as nat);
    let tail: LineView = seq![
        (seq![' ', ' '], Tone::Plain),
        (right_aligned3(decimal(percent as nat)), tone),
        (seq!['%'], Tone::Plain),
    ];
    assert(free_of_escapes(gauge_view(percent, cells, tone, g)));
    assert(free_of_escapes(tail));
    lemma_line_concat_free(gauge_view(percent, cells, tone, g), tail);
}

proof fn lemma_config_rows_free(status: ServiceStatus, now: i64)
    ensures
        forall|j: int| 0 <= j < config_rows_view(status, now).len() ==> row_escape_free(
            #[trigger] config_rows_view(status, now)[j],
        ),
{
    lemma_literals_free();
    lemma_decimal_free(status.charge_limit as nat);
    lemma_decimal_free(status.full_charge_period as nat);
    if let Some(t) = status.applied_threshold {
        lemma_decimal_free(t as nat);
    }
    if let Some(t) = status.last_full_charge {
        let days = div_toward_zero(now - t, SECONDS_PER_DAY as int);
        lemma_decimal_free(days as nat);
    }
    if let Some(u) = status.boost_until {
        let remaining = u - now;
        lemma_decimal_free((remaining / 3600) as nat);
        lemma_decimal_free((remaining % 3600 / 60) as nat);
    }
    let rows = config_rows_view(status, now);
    assert forall|j: int| 0 <= j < rows.len() implies row_escape_free(#[trigger] rows[j]) by {
        let first: Seq<RowView> = seq![
            ("Charge limit"@, seq![(decimal(status.charge_limit as nat), Tone::Good), (seq!['%'], Tone::Plain)]),
        ];
        let middle: Seq<RowView> = match applied_view(status) {
            Some(line) => seq![("Applied threshold"@, line)],
            None => Seq::empty(),
        };
        let last: Seq<RowView> = seq![
            ("Periodic full charge"@, periodic_view(status)),
            ("Last full charge"@, last_full_charge_view(status, now)),
            ("Boost"@, boost_view(status, now)),
        ];
        assert(rows == first + middle + last);
        if j < first.len() {
            assert(rows[j] == first[j]);
        } else if j < first.len() + middle.len() {
            assert(rows[j] == middle[j - first.len()]);
        } else {
            assert(rows[j] == last[j - first.len() - middle.len()]);
        }
    }
}

proof fn lemma_panel_free(status: ServiceStatus, now: i64, g: Glyphs)
    requires
        glyphs_escape_free(g),
    ensures
        panel_escape_free(panel_view(status, now, g)),
{
    lemma_literals_free();
    lemma_config_rows_free(status, now);
    let battery = battery_rows_view(status, g);
    if let Some(c) = status.battery_charge {
        lemma_reading_free(c, charge_tone_spec(c), g);
    }
    if let Some(h) = status.battery_health {
        lemma_reading_free(h, health_tone_spec(h), g);
    }
    assert forall|j: int| 0 <= j < battery.len() implies row_escape_free(#[trigger] battery[j]) by {
        let a: Seq<RowView> = match status.battery_charge {
            Some(c) => seq![("Charge"@, reading_view(c, charge_tone_spec(c), g))],
            None => Seq::empty(),
        };
        let b: Seq<RowView> = match status.battery_health {
            Some(h) => seq![("Health"@, reading_view(h, health_tone_spec(h), g))],
            None => Seq::empty(),
        };
        assert(battery == a + b);
        if j < a.len() {
            assert(battery[j] == a[j]);
        } else {
            assert(battery[j] == b[j - a.len()]);
        }
    }
    let start: PanelView = ("zenbookd"@, Seq::<SectionView>::empty());
    lemma_with_section_free(start, battery);
    lemma_with_section_free(with_section(start, battery), config_rows_view(status, now));
}

proof fn lemma_with_section_free(p: PanelView, rows: Seq<RowView>)
    requires
        panel_escape_free(p),
        forall|j: int| 0 <= j < rows.len() ==> row_escape_free(#[trigger] rows[j]),
    ensures
        panel_escape_free(with_section(p, rows)),
{
    let q = with_section(p, rows);
    assert forall|i: int, j: int| 0 <= i < q.1.len() && 0 <= j < q.1[i].0.len() implies row_escape_free(
        #[trigger] q.1[i].0[j],
    ) by {
        if rows.len() > 0 && i == p.1.len() {
            assert(q.1[i].0 == rows);
        } else {
            assert(q.1[i] == p.1[i]);
        }
    }
}

/// Whether `shown` and `problems` are what the tool prints for `status` at
/// `now` on a terminal `width` columns wide, drawing with `g`: the panel for
/// standard output (when no glyph is the escape character); and for standard error,
/// after an empty line each, a warning for a configuration file that could not
/// be read and one for a threshold that could not be applied.
pub open spec fn reported_as(
    shown: Seq<char>,
    problems: Seq<char>,
    status: ServiceStatus,
    now: i64,
    width: nat,
    g: Glyphs,
) -> bool {
    &&& (glyphs_escape_free(g) ==> renders_lines(shown, layout_view(panel_view(status, now, g), width, g)))
    &&& exists|a: Seq<char>, b: Seq<char>| {
            &&& problems == a + b
            &&& match status.config_error {
                None => a.len() == 0,
                Some(e) => a.len() > 0 && a[0] == '\n' && message_as(
                    a.drop_first(),
                    Tone::Warn,
                    "1;33"@,
                    "!"@,
                    "Failed to read the configuration file"@,
                    e@,
                    Some(config_error_hint()),
                ),
            }
            &&& match status.threshold_error {
                None => b.len() == 0,
                Some(e) => b.len() > 0 && b[0] == '\n' && message_as(
                    b.drop_first(),
                    Tone::Warn,
                    "1;33"@,
                    "!"@,
                    "Failed to apply the charge threshold"@,
                    e@,
                    Some(threshold_error_hint()),
                ),
            }
        }
}

/// What the tool prints for `status` at `now` on a terminal `width` columns
/// wide: the panel for standard output; and for standard error, after an empty
/// line each, a warning for a configuration file that could not be read and
/// one for a threshold that could not be applied.
pub fn report(status: &ServiceStatus, now: i64, width: usize, g: &Glyphs) -> (out: (String, String))
    requires
        times_fit(*status, now),
    ensures
        reported_as(out.0@, out.1@, *status, now, width as nat, *g),
{
    let p = panel(status, now, g);
    let shown = p.render(width, g);
    proof {
        if glyphs_escape_free(*g) {
            lemma_panel_free(*status, now, *g);
        }
    }
    let mut a = String::new();
    if let Some(error) = &status.config_error {
        crate::text::push_char(&mut a, '\n');
        let msg = notice(
            "Failed to read the configuration file",
            error.as_str(),
            Some(
                "The charge limit above is what the daemon is enforcing, and it does not match the file on disk. Fix /etc/zenbookd/config.toml, then: zenbookd reload",
            ),
        );
        a.append(msg.as_str());
        assert(a@.drop_first() == msg@);
    }
    let mut b = String::new();
    if let Some(error) = &status.threshold_error {
        crate::text::push_char(&mut b, '\n');
        let msg = notice(
            "Failed to apply the charge threshold",
            error.as_str(),
            Some(
                "The daemon may lack write access to the battery sysfs attribute. Check that the udev rule from scripts/ is installed.",
            ),
        );
        b.append(msg.as_str());
        assert(b@.drop_first() == msg@);
    }
    let mut problems = String::new();
    problems.append(a.as_str());
    problems.append(b.as_str());
    (shown, problems)
}

/// What to do about a configuration file the daemon could not read.
pub open spec fn config_error_hint() -> Seq<char> {
    "The charge limit above is what the daemon is enforcing, and it does not match the file on disk. Fix /etc/zenbookd/config.toml, then: zenbookd reload"@
}

/// What to do about a threshold the daemon could not apply.
pub open spec fn threshold_error_hint() -> Seq<char> {
    "The daemon may lack write access to the battery sysfs attribute. Check that the udev rule from scripts/ is installed."@
}

/// How long ago the last full charge was, in whole days elapsed: under a full
/// day it was today, at least one but under two days it was yesterday, and
/// from two days on the line is the number of whole days followed by
/// ` days ago`. No full charge on record reads as never.
pub proof fn last_full_charge_law(status: ServiceStatus, now: i64, t: i64)
    requires
        status.last_full_charge == Some(t),
    ensures
        now - t < SECONDS_PER_DAY ==> last_full_charge_view(status, now) == seq![("today"@, Tone::Plain)],
        SECONDS_PER_DAY <= now - t < 2 * SECONDS_PER_DAY ==> last_full_charge_view(status, now) == seq![
            ("yesterday"@, Tone::Plain),
        ],
        now - t >= 2 * SECONDS_PER_DAY ==> last_full_charge_view(status, now) == seq![
            (decimal(((now - t) / 86_400int) as nat), Tone::Accent),
            (" days ago"@, Tone::Plain),
        ],
        last_full_charge_view(ServiceStatus { last_full_charge: None, ..status }, now) == seq![("never"@, Tone::Warn)],
{
    let e: int = now - t;
    if e >= 0 {
        assert(div_toward_zero(e, 86_400int) == e / 86_400int);
        if e < 86_400 {
            assert(e / 86_400int == 0);
        } else if e < 2 * 86_400 {
            assert(e / 86_400int == 1);
        } else {
            assert(e / 86_400int >= 2);
        }
    } else {
        assert((-e) / 86_400int >= 0);
    }
}

} // verus!
