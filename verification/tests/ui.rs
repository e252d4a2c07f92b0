use zenbookd::ui::{
    ascii_glyphs, failure, field, gauge, glyphs, notice, sanitize, success, unicode_glyphs, Line, Panel, Tone,
};

fn no_colours() {
    colored::control::set_override(false);
}

#[test]
fn sanitize_turns_control_characters_into_single_spaces() {
    assert_eq!(sanitize("  a\tb\n\u{7}c  "), "a b c");
    assert_eq!(sanitize("plain words"), "plain words");
    assert_eq!(sanitize("\n\t "), "");
}

#[test]
fn gauge_rounds_to_the_nearest_cell() {
    no_colours();
    let g = ascii_glyphs();

    assert_eq!(gauge(72, 20, Tone::Good, &g).render(), "##############......");
    assert_eq!(gauge(0, 20, Tone::Good, &g).render(), "....................");
    assert_eq!(gauge(100, 20, Tone::Good, &g).render(), "####################");
}

#[test]
fn gauge_shows_any_charge_as_at_least_one_cell() {
    no_colours();
    let g = ascii_glyphs();

    assert_eq!(gauge(1, 20, Tone::Danger, &g).render(), "#...................");
}

#[test]
fn gauge_caps_readings_above_a_hundred() {
    no_colours();
    let g = ascii_glyphs();

    assert_eq!(gauge(150, 10, Tone::Good, &g).render(), "##########");
    assert_eq!(gauge(150, 10, Tone::Good, &g).width(), 10);
}

#[test]
fn glyphs_follow_the_first_locale_variable_that_is_set() {
    let utf = Some("en_US.UTF-8".to_string());

    assert_eq!(glyphs(utf.clone(), None, None), unicode_glyphs());
    assert_eq!(glyphs(Some(String::new()), None, Some("C.utf8".to_string())), unicode_glyphs());
    assert_eq!(glyphs(Some("C".to_string()), None, utf), ascii_glyphs());
    assert_eq!(glyphs(None, None, None), ascii_glyphs());
}

fn small_panel() -> Panel {
    Panel::new("zenbookd".to_string())
        .section(vec![field("Charge".to_string(), Line::new().plain("72%".to_string()))])
}

#[test]
fn panel_is_boxed_when_it_fits() {
    no_colours();
    let shown = small_panel().render(80, &ascii_glyphs());

    assert_eq!(
        shown,
        "+- zenbookd ------+\n\
         |                 |\n\
         |   Charge  72%   |\n\
         |                 |\n\
         +-----------------+\n"
    );
}

#[test]
fn panel_is_bare_when_the_box_does_not_fit() {
    no_colours();

    assert_eq!(small_panel().render(18, &ascii_glyphs()), "Charge  72%\n");
    assert_eq!(small_panel().render(19, &ascii_glyphs()).lines().count(), 5);
}

#[test]
fn empty_sections_are_dropped() {
    no_colours();
    let panel = Panel::new("zenbookd".to_string()).section(Vec::new());

    assert_eq!(panel.render(80, &ascii_glyphs()), "");
}

#[test]
fn boxed_panel_lines_are_equally_wide() {
    no_colours();
    let panel = Panel::new("title".to_string())
        .section(vec![
            field("A".to_string(), Line::new().plain("one".to_string())),
            field("Longer".to_string(), Line::new().push("x".to_string(), Tone::Accent)),
        ])
        .section(vec![field("B".to_string(), Line::new().plain("a much longer value".to_string()))]);
    let shown = panel.render(80, &unicode_glyphs());
    let widths: Vec<usize> = shown.lines().map(|line| line.chars().count()).collect();

    assert_eq!(widths.len(), 10);
    assert!(widths.iter().all(|w| *w == widths[0]));
    assert!(shown.contains("\u{251c}"));
}

#[test]
fn failure_reports_headline_cause_and_hint() {
    no_colours();

    assert_eq!(
        failure("It broke", "the\ncause", Some("Try again")),
        "\u{2718} It broke\n  the cause\n  Try again\n"
    );
    assert_eq!(failure("It broke", "", None), "\u{2718} It broke\n");
}

#[test]
fn notice_is_a_warning() {
    no_colours();

    assert_eq!(notice("Careful", "why", None), "! Careful\n  why\n");
}

#[test]
fn success_is_a_check_mark_and_the_message() {
    no_colours();

    assert_eq!(success("Done"), "\u{2714} Done\n");
}

#[test]
fn tones_paint_with_their_colour_codes() {
    colored::control::set_override(true);
    let painted = Tone::Warn.paint("w");
    let plain = Tone::Plain.paint("p");
    colored::control::set_override(false);

    assert_eq!(painted, "\u{1b}[33mw\u{1b}[0m");
    assert_eq!(plain, "p");
}

#[test]
fn sanitizing_twice_changes_nothing_more() {
    let once = sanitize(" a \u{1b}[31m b\t\tc ");

    assert_eq!(once, "a [31m b c");
    assert_eq!(sanitize(&once), once);
}

#[test]
fn plain_spans_are_written_as_they_are() {
    colored::control::set_override(true);
    let line = Line::new().plain("ab".to_string()).plain(" \u{1b}[0m c".to_string());
    let shown = line.render();
    colored::control::set_override(false);

    assert_eq!(shown, "ab \u{1b}[0m c");
    assert_eq!(Line::new().render(), "");
}

#[test]
fn a_bare_panel_separates_its_sections_by_an_empty_line() {
    no_colours();
    let panel = Panel::new("zenbookd".to_string())
        .section(vec![field("A".to_string(), Line::new().plain("1".to_string()))])
        .section(vec![
            field("Bb".to_string(), Line::new().plain("2".to_string())),
            field("C".to_string(), Line::new().push("3".to_string(), Tone::Good)),
        ])
        .section(vec![field("Ddd".to_string(), Line::new().plain("4".to_string()))]);

    assert_eq!(panel.render(10, &ascii_glyphs()), "A  1\n\nBb  2\nC   3\n\nDdd  4\n");
}
