use zenbookd::ipc::ServiceStatus;
use zenbookd::status::{charge_tone, health_tone, report, SECONDS_PER_DAY};
use zenbookd::ui::{ascii_glyphs, Tone};

const NOW: i64 = 1_768_000_000;

fn status() -> ServiceStatus {
    ServiceStatus {
        charge_limit: 80,
        enable_periodic_full_charge: true,
        full_charge_period: 30,
        battery_health: Some(94),
        battery_charge: Some(72),
        applied_threshold: Some(80),
        boost_until: None,
        last_full_charge: Some(NOW - 3 * SECONDS_PER_DAY),
        calibration_active: false,
        threshold_error: None,
        config_error: None,
    }
}

fn shown(status: &ServiceStatus) -> (String, String) {
    colored::control::set_override(false);
    report(status, NOW, 120, &ascii_glyphs())
}

#[test]
fn charge_is_red_low_yellow_middling_green_high() {
    assert_eq!(charge_tone(20), Tone::Danger);
    assert_eq!(charge_tone(21), Tone::Warn);
    assert_eq!(charge_tone(50), Tone::Warn);
    assert_eq!(charge_tone(51), Tone::Good);
}

#[test]
fn health_is_red_below_80_yellow_below_90() {
    assert_eq!(health_tone(79), Tone::Danger);
    assert_eq!(health_tone(80), Tone::Warn);
    assert_eq!(health_tone(89), Tone::Warn);
    assert_eq!(health_tone(90), Tone::Good);
}

#[test]
fn panel_shows_readings_and_settings() {
    let (out, problems) = shown(&status());

    assert_eq!(problems, "");
    assert!(out.contains("|   Charge  ##############......   72%    |\n"), "{out}");
    assert!(out.contains("|   Health  ###################.   94%    |\n"), "{out}");
    assert!(out.contains("|   Charge limit          80%"), "{out}");
    assert!(out.contains("|   Applied threshold     80%"), "{out}");
    assert!(out.contains("|   Periodic full charge  every 30 days   |\n"), "{out}");
    assert!(out.contains("|   Last full charge      3 days ago"), "{out}");
    assert!(out.contains("|   Boost                 off"), "{out}");

    let widths: Vec<usize> = out.lines().map(|line| line.chars().count()).collect();
    assert_eq!(widths.len(), 14);
    assert!(widths.iter().all(|w| *w == 43));
}

#[test]
fn last_full_charge_reads_today_yesterday_or_never() {
    let mut s = status();
    s.last_full_charge = Some(NOW - 100);
    assert!(shown(&s).0.contains("Last full charge      today"));

    s.last_full_charge = Some(NOW - SECONDS_PER_DAY - 1);
    assert!(shown(&s).0.contains("Last full charge      yesterday"));

    s.last_full_charge = None;
    assert!(shown(&s).0.contains("Last full charge      never"));
}

#[test]
fn boost_shows_time_left_then_ending() {
    let mut s = status();
    s.boost_until = Some(NOW + 2 * 3600 + 5 * 60 + 7);
    let (out, _) = shown(&s);
    assert!(out.contains("Boost                 2h 5m left"), "{out}");
    assert!(out.contains("Applied threshold     80%  boost"), "{out}");

    s.boost_until = Some(NOW);
    assert!(shown(&s).0.contains("Boost                 ending"));
}

#[test]
fn calibration_is_marked_on_the_threshold() {
    let mut s = status();
    s.calibration_active = true;
    s.applied_threshold = Some(100);

    assert!(shown(&s).0.contains("Applied threshold     100%  calibrating"));
}

#[test]
fn periodic_charge_off_and_missing_readings() {
    let mut s = status();
    s.enable_periodic_full_charge = false;
    s.battery_charge = None;
    s.battery_health = None;
    s.applied_threshold = None;
    let (out, _) = shown(&s);

    assert!(out.contains("Periodic full charge  off"), "{out}");
    assert!(!out.contains("Health"));
    assert!(!out.contains("Applied threshold"));
    assert!(!out.contains("|   Charge  "));
}

#[test]
fn errors_become_warnings_on_standard_error() {
    let mut s = status();
    s.config_error = Some("expected an equals\nat line 2".to_string());
    s.threshold_error = Some("Permission denied".to_string());
    let (_, problems) = shown(&s);

    assert_eq!(
        problems,
        "\n! Failed to read the configuration file\n  expected an equals at line 2\n  The charge limit above is what the daemon is enforcing, and it does not match the file on disk. Fix /etc/zenbookd/config.toml, then: zenbookd reload\n\
         \n! Failed to apply the charge threshold\n  Permission denied\n  The daemon may lack write access to the battery sysfs attribute. Check that the udev rule from scripts/ is installed.\n"
    );
}

#[test]
fn narrow_terminals_get_the_bare_panel() {
    colored::control::set_override(false);
    let (out, _) = report(&status(), NOW, 40, &ascii_glyphs());

    assert!(out.starts_with("Charge  ##############......   72%\n"), "{out}");
    assert!(!out.contains('|'));
}
