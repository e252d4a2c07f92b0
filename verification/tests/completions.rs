use zenbookd::completions::{write_fish, CliArg, CliCommand, CliSpec, PossibleValue};

fn flag(short: Option<char>, long: &str, help: &str) -> CliArg {
    CliArg {
        positional: false,
        hidden: false,
        shorts: short.into_iter().collect(),
        longs: vec![long.to_string()],
        help: Some(help.to_string()),
        values: Vec::new(),
    }
}

fn help_flag() -> CliArg {
    flag(Some('h'), "help", "Print help")
}

fn positional(help: Option<&str>, values: &[&str]) -> CliArg {
    CliArg {
        positional: true,
        hidden: false,
        shorts: Vec::new(),
        longs: Vec::new(),
        help: help.map(|h| h.to_string()),
        values: values
            .iter()
            .map(|v| PossibleValue { name: v.to_string(), help: None, hidden: false })
            .collect(),
    }
}

fn command(name: &str, about: &str, args: Vec<CliArg>) -> CliCommand {
    CliCommand { name: name.to_string(), about: Some(about.to_string()), hidden: false, args }
}

/// The command line of the tool as it stands once built: every subcommand
/// carries `--help`, the root also `--version`, and a `help` subcommand
/// comes last.
fn tool() -> CliSpec {
    let root = CliCommand {
        name: "zenbookd".to_string(),
        about: Some("Zenbook battery daemon CLI".to_string()),
        hidden: false,
        args: vec![help_flag(), flag(Some('V'), "version", "Print version")],
    };
    let subcommands = vec![
        command("status", "Show the current battery and service status", vec![help_flag()]),
        command(
            "set-limit",
            "Set the maximum battery charge limit",
            vec![positional(Some("Charge limit percentage (1-100)"), &[]), help_flag()],
        ),
        command(
            "boost",
            "Charge to 100% for the next 24 hours or until full, then restore the limit",
            vec![
                flag(None, "stop", "Cancel an active boost and restore the charge limit immediately"),
                help_flag(),
            ],
        ),
        command(
            "set-periodic-charge",
            "Enable or disable the periodic full charge",
            vec![positional(None, &["on", "off"]), help_flag()],
        ),
        command(
            "set-charge-period",
            "Set how many days between periodic full charges",
            vec![positional(None, &[]), help_flag()],
        ),
        command(
            "set-wifi-power-save",
            "Disable Wi-Fi power saving while on AC power",
            vec![positional(None, &["on", "off"]), help_flag()],
        ),
        command(
            "reload",
            "Re-read /etc/zenbookd/config.toml without restarting the service",
            vec![help_flag()],
        ),
        command("help", "Print this message or the help of the given subcommand(s)", Vec::new()),
    ];
    CliSpec { root, subcommands }
}

fn script() -> String {
    write_fish(&tool())
}

#[test]
fn lists_each_visible_subcommand_with_its_about() {
    let script = script();
    let cli = tool();

    for sub in cli.subcommands.iter().filter(|sub| !sub.hidden) {
        let name = &sub.name;

        assert!(script.contains(&format!("-a {name}")), "missing subcommand {name} in:\n{script}");

        if let Some(about) = &sub.about {
            assert!(script.contains(about.as_str()), "missing description `{about}` in:\n{script}");
        }
    }
}

#[test]
fn includes_flags_and_toggle_values() {
    let script = script();

    assert!(script.contains("-l stop"));
    assert!(script.contains("-l help"));
    assert!(script.contains("-l version"));
    assert!(script.contains("-a on"));
    assert!(script.contains("-a off"));
    assert!(script.contains("-a help"));
    assert!(!script.contains("-a completions"));
    assert!(!script.lines().any(|line| line.trim_start().starts_with('#')));
}

#[test]
fn script_starts_by_turning_off_file_completion() {
    assert!(script().starts_with("complete -c zenbookd -f\n"));
}

#[test]
fn root_flags_complete_before_any_subcommand() {
    let script = script();

    assert!(script.contains(
        "complete -c zenbookd -n '__fish_use_subcommand' -s V -l version -d 'Print version'\n"
    ));
}

#[test]
fn toggle_values_complete_after_their_subcommand() {
    let script = script();

    assert!(script.contains(
        "complete -c zenbookd -n '__fish_seen_subcommand_from set-wifi-power-save' -a off\n"
    ));
}

#[test]
fn help_lists_every_subcommand_but_itself() {
    let script = script();

    assert!(script.contains("complete -c zenbookd -n '__fish_seen_subcommand_from help' -a reload"));
    assert!(!script.contains("complete -c zenbookd -n '__fish_seen_subcommand_from help' -a help"));
}

#[test]
fn quotes_and_backslashes_are_escaped() {
    let cli = CliSpec {
        root: CliCommand { name: "zenbookd".to_string(), about: None, hidden: false, args: Vec::new() },
        subcommands: vec![command("say", "it's a \\ test", Vec::new())],
    };

    assert!(write_fish(&cli).contains(" -a say -d 'it\\'s a \\\\ test'\n"));
}

#[test]
fn hidden_items_are_left_out() {
    let mut hidden = command("secret", "hidden", Vec::new());
    hidden.hidden = true;
    let mut quiet = flag(Some('q'), "quiet", "Say less");
    quiet.hidden = true;
    let cli = CliSpec {
        root: CliCommand { name: "zenbookd".to_string(), about: None, hidden: false, args: vec![quiet] },
        subcommands: vec![hidden],
    };

    assert_eq!(write_fish(&cli), "complete -c zenbookd -f\n");
}
