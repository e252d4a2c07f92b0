//! The command-line tool's commands, what it asks the daemon for each, and
//! what it tells the user about the answer.

use vstd::prelude::*;

use crate::config::prefixed;
use crate::ipc::{Request, Response, ServiceStatus};
use crate::status::{report, reported_as, times_fit};
use crate::text::{decimal, decimal_string, push_char};
use crate::ui::{failure, message_as, repeat_char, success, toned_as, Glyphs, Tone};

verus! {

/// An on/off argument.
#[derive(Debug, Clone, Copy, PartialEq, Eq, Structural)]
pub enum Toggle {
    On,
    Off,
}

/// The tool's subcommands.
#[derive(Debug, Clone, Copy, PartialEq, Eq, Structural)]
pub enum Commands {
    /// Show the current battery and service status.
    Status,
    /// Set the maximum battery charge limit (1-100).
    SetLimit { limit: u32 },
    /// Charge to 100% for the next 24 hours or until full, then restore the
    /// limit; with `stop`, cancel an active boost.
    Boost { stop: bool },
    /// Enable or disable the periodic full charge.
    SetPeriodicCharge { state: Toggle },
    /// Set how many days between periodic full charges.
    SetChargePeriod { days: u32 },
    /// Disable Wi-Fi power saving while on AC power.
    SetWifiPowerSave { state: Toggle },
    /// Re-read the configuration file without restarting the service.
    Reload,
}

/// The request a command sends.
pub open spec fn request_spec(command: Commands) -> Request {
    match command {
        Commands::Status => Request::GetStatus,
        Commands::SetLimit { limit } => Request::SetChargeLimit(limit),
        Commands::Boost { stop } => Request::SetBoost(!stop),
        Commands::SetPeriodicCharge { state } => Request::SetPeriodicFullCharge(state == Toggle::On),
        Commands::SetChargePeriod { days } => Request::SetFullChargePeriod(days),
        Commands::SetWifiPowerSave { state } => Request::SetWifiPowerSave(state == Toggle::On),
        Commands::Reload => Request::ReloadConfig,
    }
}

/// The request `command` sends to the daemon.
pub fn request_for(command: &Commands) -> (r: Request)
    ensures
        r == request_spec(*command),
{
    match command {
        Commands::Status => Request::GetStatus,
        Commands::SetLimit { limit } => Request::SetChargeLimit(*limit),
        Commands::Boost { stop } => Request::SetBoost(!*stop),
        Commands::SetPeriodicCharge { state } => Request::SetPeriodicFullCharge(*state == Toggle::On),
        Commands::SetChargePeriod { days } => Request::SetFullChargePeriod(*days),
        Commands::SetWifiPowerSave { state } => Request::SetWifiPowerSave(*state == Toggle::On),
        Commands::Reload => Request::ReloadConfig,
    }
}

/// What the user is told once the daemon carried out `command`.
pub open spec fn confirmation_spec(command: Commands) -> Seq<char> {
    match command {
        Commands::SetLimit { limit } => "Charge limit set to "@ + decimal(limit as nat) + "%"@,
        Commands::Boost { stop } => if stop {
            "Boost cancelled, charge limit restored"@
        } else {
            "Boost enabled, charging to 100% until full or for 24h"@
        },
        Commands::SetPeriodicCharge { state } => if state == Toggle::On {
            "Periodic full charge enabled"@
        } else {
            "Periodic full charge disabled"@
        },
        Commands::SetChargePeriod { days } => "Charge period set to "@ + decimal(days as nat) + " days"@,
        Commands::SetWifiPowerSave { state } => if state == Toggle::On {
            "Wi-Fi power saving disabled on AC"@
        } else {
            "Wi-Fi power saving left untouched on AC"@
        },
        Commands::Reload => "Configuration reloaded"@,
        Commands::Status => Seq::empty(),
    }
}

/// What the user is told once the daemon carried out `command`. A status
/// request is answered with the status, never with a bare success.
pub fn confirmation(command: &Commands) -> (s: String)
    requires
        !(command is Status),
    ensures
        s@ == confirmation_spec(*command),
{
    match command {
        Commands::SetLimit { limit } => {
            let mut s = String::from_str("Charge limit set to ");
            let n = decimal_string(*limit as u64);
            s.append(n.as_str());
            s.append("%");
            s
        },
        Commands::Boost { stop } => if *stop {
            String::from_str("Boost cancelled, charge limit restored")
        } else {
            String::from_str("Boost enabled, charging to 100% until full or for 24h")
        },
        Commands::SetPeriodicCharge { state } => if *state == Toggle::On {
            String::from_str("Periodic full charge enabled")
        } else {
            String::from_str("Periodic full charge disabled")
        },
        Commands::SetChargePeriod { days } => {
            let mut s = String::from_str("Charge period set to ");
            let n = decimal_string(*days as u64);
            s.append(n.as_str());
            s.append(" days");
            s
        },
        Commands::SetWifiPowerSave { state } => if *state == Toggle::On {
            String::from_str("Wi-Fi power saving disabled on AC")
        } else {
            String::from_str("Wi-Fi power saving left untouched on AC")
        },
        Commands::Reload => String::from_str("Configuration reloaded"),
        Commands::Status => String::new(),
    }
}

/// The example invocations shown after the help text, with their notes.
pub open spec fn example_pairs() -> Seq<(Seq<char>, Seq<char>)> {
    seq![
        ("status"@, "show charge, health and configuration"@),
        ("set-limit 80"@, "hold the battery at 80%"@),
        ("boost"@, "charge to 100% now, restore the limit after"@),
        ("set-charge-period 30"@, "days between periodic full charges"@),
        ("reload"@, "re-read config.toml without restarting"@),
    ]
}

/// One example line: the invocation styled as a literal, padded to 24
/// columns, then the note.
pub open spec fn example_line(pair: (Seq<char>, Seq<char>), literal: Seq<char>, literal_end: Seq<char>) -> Seq<char> {
    seq!['\n', ' ', ' '] + literal + "zenbookd "@ + pair.0 + literal_end + crate::ui::spaces(
        (if pair.0.len() < 24 { 24 - pair.0.len() } else { 0 }) as nat,
    ) + pair.1
}

/// The example lines after the first `n` examples.
pub open spec fn example_lines(n: nat, literal: Seq<char>, literal_end: Seq<char>) -> Seq<char>
    decreases n,
{
    if n == 0 {
        Seq::empty()
    } else {
        example_lines((n - 1) as nat, literal, literal_end) + example_line(example_pairs()[n - 1], literal, literal_end)
    }
}

/// The examples section of the help text. `header` and `literal` are the
/// terminal codes that start the heading and literal styles, `header_end`
/// and `literal_end` those that end them.
pub fn examples(header: &str, header_end: &str, literal: &str, literal_end: &str) -> (out: String)
    ensures
        out@ == header@ + "Examples:"@ + header_end@ + example_lines(5, literal@, literal_end@),
{
    let commands: [(&str, &str); 5] = [
        ("status", "show charge, health and configuration"),
        ("set-limit 80", "hold the battery at 80%"),
        ("boost", "charge to 100% now, restore the limit after"),
        ("set-charge-period 30", "days between periodic full charges"),
        ("reload", "re-read config.toml without restarting"),
    ];
    let ghost pairs = example_pairs();
    assert(pairs.len() == 5);
    assert forall|k: int| 0 <= k < 5 implies (#[trigger] commands@[k]).0@ == pairs[k].0 && commands@[k].1@
        == pairs[k].1 by {
        assert(commands@.map_values(|p: (&str, &str)| (p.0@, p.1@))[k] == pairs[k]);
    }
    let mut out = String::from_str(header);
    out.append("Examples:");
    out.append(header_end);
    let ghost start = out@;
    let mut i: usize = 0;
    while i < 5
        invariant
            i <= 5,
            pairs == example_pairs(),
            forall|k: int| 0 <= k < 5 ==> (#[trigger] commands@[k]).0@ == pairs[k].0 && commands@[k].1@ == pairs[k].1,
            out@ == start + example_lines(i as nat, literal@, literal_end@),
        decreases 5 - i,
    {
        let (command, note) = commands[i];
        let line = example_line_text(command, note, literal, literal_end);
        assert(line@ == example_line(pairs[i as int], literal@, literal_end@));
        out.append(line.as_str());
        assert(example_lines((i + 1) as nat, literal@, literal_end@) == example_lines(i as nat, literal@, literal_end@)
            + example_line(example_pairs()[i as int], literal@, literal_end@));
        i = i + 1;
    }
    out
}

fn example_line_text(command: &str, note: &str, literal: &str, literal_end: &str) -> (line: String)
    ensures
        line@ == example_line((command@, note@), literal@, literal_end@),
{
    let n = command.unicode_len();
    let padding = repeat_char(' ', if n < 24 { 24 - n } else { 0 });
    let mut out = String::new();
    push_char(&mut out, '\n');
    push_char(&mut out, ' ');
    push_char(&mut out, ' ');
    out.append(literal);
    out.append("zenbookd ");
    out.append(command);
    out.append(literal_end);
    out.append(padding.as_str());
    out.append(note);
    assert(crate::ui::repeated(' ', (if n < 24 { 24 - n } else { 0 }) as nat) =~= crate::ui::spaces(
        (if n < 24 { 24 - n } else { 0 }) as nat,
    ));
    assert(out@ =~= example_line((command@, note@), literal@, literal_end@));
    out
}

/// Why the tool could not connect to the daemon's socket.
#[derive(Debug, Clone, Copy, PartialEq, Eq, Structural)]
pub enum ConnectFailure {
    /// There is no socket: the service is not running.
    NotFound,
    /// The user may not open the socket.
    PermissionDenied,
    /// The socket exists but nothing listens on it.
    ConnectionRefused,
    /// Any other reason.
    Other,
}

/// The hint that goes with a failure to connect to the socket at `path`.
pub open spec fn connect_hint(kind: ConnectFailure, path: Seq<char>) -> Seq<char> {
    match kind {
        ConnectFailure::NotFound => "The service does not appear to be running. Try: systemctl status zenbookd.service"@,
        ConnectFailure::PermissionDenied => "The socket at "@ + path
            + " is group-owned by zenbookd. Try: sudo usermod -aG zenbookd $USER, then log back in"@,
        ConnectFailure::ConnectionRefused => "The socket exists but nothing is listening. Try: systemctl restart zenbookd.service"@,
        ConnectFailure::Other => "Try: systemctl status zenbookd.service"@,
    }
}

/// What the tool prints to standard error when it cannot reach the daemon's
/// socket at `path`: the failure, its cause, and a hint for its kind.
pub fn report_connect_failure(path: &str, kind: ConnectFailure, cause: &str) -> (out: String)
    ensures
        message_as(out@, Tone::Danger, "1;31"@, "\u{2718}"@, "Cannot reach the zenbookd service"@, cause@, Some(connect_hint(kind, path@))),
{
    let hint = match kind {
        ConnectFailure::NotFound => String::from_str(
            "The service does not appear to be running. Try: systemctl status zenbookd.service",
        ),
        ConnectFailure::PermissionDenied => {
            let mut h = prefixed("The socket at ", path);
            h.append(" is group-owned by zenbookd. Try: sudo usermod -aG zenbookd $USER, then log back in");
            h
        },
        ConnectFailure::ConnectionRefused => String::from_str(
            "The socket exists but nothing is listening. Try: systemctl restart zenbookd.service",
        ),
        ConnectFailure::Other => String::from_str("Try: systemctl status zenbookd.service"),
    };
    failure("Cannot reach the zenbookd service", cause, Some(hint.as_str()))
}

/// Why a request did not get an answer.
#[derive(Debug, Clone, PartialEq, Eq)]
pub enum CliError {
    /// The socket at `path` could not be opened.
    Connect { path: String, kind: ConnectFailure, cause: String },
    /// The exchange with the daemon failed; why.
    Ipc(String),
}

/// What the tool finally prints and how it exits.
#[derive(Debug, Clone, PartialEq, Eq)]
pub struct Outcome {
    /// For standard output.
    pub stdout: String,
    /// For standard error.
    pub stderr: String,
    /// Whether the tool exits successfully.
    pub success: bool,
}

/// What the tool prints and how it exits, given `command` and how asking the
/// daemon went, at `now` on a terminal `width` columns wide. A status is
/// shown as the status panel; a success is confirmed; a refusal, a failure to
/// connect and a lost connection are reported as failures.
pub fn conclude(
    command: &Commands,
    answer: Result<Response, CliError>,
    now: i64,
    width: usize,
    g: &Glyphs,
) -> (o: Outcome)
    requires
        !(command is Status && answer matches Ok(Response::Done)),
        answer matches Ok(Response::Status(s)) ==> times_fit(s, now),
    ensures
        match answer {
            Ok(Response::Status(s)) => o.success && reported_as(o.stdout@, o.stderr@, s, now, width as nat, *g),
            Ok(Response::Done) => o.success && o.stderr@.len() == 0 && exists|m: Seq<char>|
                toned_as(m, Tone::Good, "\u{2714}"@) && o.stdout@ == m + seq![' '] + confirmation_spec(*command)
                    + seq!['\n'],
            Ok(Response::Error(err)) => !o.success && o.stdout@.len() == 0 && message_as(
                o.stderr@,
                Tone::Danger,
                "1;31"@,
                "\u{2718}"@,
                "Service rejected the request"@,
                err@,
                None,
            ),
            Err(CliError::Connect { path, kind, cause }) => !o.success && o.stdout@.len() == 0 && message_as(
                o.stderr@,
                Tone::Danger,
                "1;31"@,
                "\u{2718}"@,
                "Cannot reach the zenbookd service"@,
                cause@,
                Some(connect_hint(kind, path@)),
            ),
            Err(CliError::Ipc(err)) => !o.success && o.stdout@.len() == 0 && message_as(
                o.stderr@,
                Tone::Danger,
                "1;31"@,
                "\u{2718}"@,
                "Lost contact with the zenbookd service"@,
                err@,
                Some("Try: systemctl status zenbookd.service"@),
            ),
        },
{
    match answer {
        Ok(Response::Status(status)) => {
            let (shown, problems) = report(&status, now, width, g);
            Outcome { stdout: shown, stderr: problems, success: true }
        },
        Ok(Response::Done) => {
            let message = confirmation(command);
            Outcome { stdout: success(message.as_str()), stderr: String::new(), success: true }
        },
        Ok(Response::Error(err)) => Outcome {
            stdout: String::new(),
            stderr: failure("Service rejected the request", err.as_str(), None),
            success: false,
        },
        Err(CliError::Connect { path, kind, cause }) => Outcome {
            stdout: String::new(),
            stderr: report_connect_failure(path.as_str(), kind, cause.as_str()),
            success: false,
        },
        Err(CliError::Ipc(err)) => Outcome {
            stdout: String::new(),
            stderr: failure(
                "Lost contact with the zenbookd service",
                err.as_str(),
                Some("Try: systemctl status zenbookd.service"),
            ),
            success: false,
        },
    }
}

/// Every command asks for what its confirmation announces: an on/off
/// command's request carries `true` exactly when the toggle is on, which is
/// exactly when the confirmation says the feature was enabled (or power saving
/// disabled); a boost starts exactly when `--stop` is absent; and the numbers
/// given are the numbers sent.
pub proof fn commands_request_what_they_confirm(state: Toggle, stop: bool, limit: u32, days: u32)
    ensures
        request_spec(Commands::SetPeriodicCharge { state }) == Request::SetPeriodicFullCharge(true) <==> state
            == Toggle::On,
        request_spec(Commands::SetPeriodicCharge { state }) == Request::SetPeriodicFullCharge(false) <==> state
            == Toggle::Off,
        request_spec(Commands::SetPeriodicCharge { state }) == Request::SetPeriodicFullCharge(true) <==> confirmation_spec(
            Commands::SetPeriodicCharge { state },
        ) == "Periodic full charge enabled"@,
        request_spec(Commands::SetWifiPowerSave { state }) == Request::SetWifiPowerSave(true) <==> state == Toggle::On,
        request_spec(Commands::SetWifiPowerSave { state }) == Request::SetWifiPowerSave(false) <==> state == Toggle::Off,
        request_spec(Commands::SetWifiPowerSave { state }) == Request::SetWifiPowerSave(true) <==> confirmation_spec(
            Commands::SetWifiPowerSave { state },
        ) == "Wi-Fi power saving disabled on AC"@,
        request_spec(Commands::Boost { stop }) == Request::SetBoost(true) <==> !stop,
        request_spec(Commands::Boost { stop }) == Request::SetBoost(false) <==> stop,
        request_spec(Commands::SetLimit { limit }) == Request::SetChargeLimit(limit),
        request_spec(Commands::SetChargePeriod { days }) == Request::SetFullChargePeriod(days),
        request_spec(Commands::Status) == Request::GetStatus,
        request_spec(Commands::Reload) == Request::ReloadConfig,
{
    reveal_strlit("Periodic full charge enabled");
    reveal_strlit("Periodic full charge disabled");
    reveal_strlit("Wi-Fi power saving disabled on AC");
    reveal_strlit("Wi-Fi power saving left untouched on AC");
    assert("Periodic full charge enabled"@ != "Periodic full charge disabled"@) by {
        assert("Periodic full charge enabled"@[22] != "Periodic full charge disabled"@[22]);
    }
    assert("Wi-Fi power saving disabled on AC"@ != "Wi-Fi power saving left untouched on AC"@) by {
        assert("Wi-Fi power saving disabled on AC"@.len() != "Wi-Fi power saving left untouched on AC"@.len());
    }
}

} // verus!
