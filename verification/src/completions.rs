//! Shell completions for the command-line tool, for fish.
//!
//! The script is written from a description of the tool's command line: its
//! subcommands, their arguments, and the values an argument takes.

use vstd::prelude::*;

use crate::text::{has_prefix, push_char};
use crate::ui::holds;

verus! {

/// A value an argument takes.
#[derive(Debug, Clone)]
pub struct PossibleValue {
    /// The value as typed.
    pub name: String,
    /// What it means, if described.
    pub help: Option<String>,
    /// Whether it is left out of help and completions.
    pub hidden: bool,
}

/// An argument of a command.
#[derive(Debug, Clone)]
pub struct CliArg {
    /// Whether it is given by position rather than by a flag.
    pub positional: bool,
    /// Whether it is left out of help and completions.
    pub hidden: bool,
    /// Its short flag and visible short aliases.
    pub shorts: Vec<char>,
    /// Its long flag and visible long aliases.
    pub longs: Vec<String>,
    /// What it does, if described.
    pub help: Option<String>,
    /// The values it takes, if it takes a fixed set.
    pub values: Vec<PossibleValue>,
}

/// A command or subcommand.
#[derive(Debug, Clone)]
pub struct CliCommand {
    /// Its name.
    pub name: String,
    /// What it does, if described.
    pub about: Option<String>,
    /// Whether it is left out of help and completions.
    pub hidden: bool,
    /// Its arguments, positional ones included, in order.
    pub args: Vec<CliArg>,
}

/// The tool's command line: the top-level command and its subcommands.
#[derive(Debug, Clone)]
pub struct CliSpec {
    pub root: CliCommand,
    pub subcommands: Vec<CliCommand>,
}

/// The lines `f` gives for each element of `s`, one after the other.
pub open spec fn each<A>(s: Seq<A>, f: spec_fn(A) -> Seq<char>) -> Seq<char>
    decreases s.len(),
{
    if s.len() == 0 {
        Seq::empty()
    } else {
        each(s.drop_last(), f) + f(s.last())
    }
}

/// `text` quoted for a single-quoted fish string: backslashes and single
/// quotes escaped with a backslash.
pub open spec fn escaped(text: Seq<char>) -> Seq<char> {
    each(text, |c: char| if c == '\\' { seq!['\\', '\\'] } else if c == '\'' { seq!['\\', '\''] } else { seq![c] })
}

/// The ` -d '…'` part that describes an item, if it is described.
pub open spec fn description(help: Option<String>) -> Seq<char> {
    match help {
        Some(h) => " -d '"@ + escaped(h@) + "'"@,
        None => Seq::empty(),
    }
}

/// The start of every completion line under `condition`.
pub open spec fn under(condition: Seq<char>) -> Seq<char> {
    "complete -c zenbookd -n '"@ + condition + "'"@
}

/// The completion line for a flag argument under `condition`: its short and
/// long names and its description. Positional, hidden and nameless arguments
/// give none.
pub open spec fn named_arg_line(condition: Seq<char>, arg: CliArg) -> Seq<char> {
    if arg.positional || arg.hidden || (arg.shorts@.len() == 0 && arg.longs@.len() == 0) {
        Seq::empty()
    } else {
        under(condition) + each(arg.shorts@, |c: char| " -s "@ + seq![c]) + each(
            arg.longs@,
            |l: String| " -l "@ + l@,
        ) + description(arg.help) + seq!['\n']
    }
}

/// The completion lines for the flags of `cmd` under `condition`.
pub open spec fn named_lines(condition: Seq<char>, cmd: CliCommand) -> Seq<char> {
    each(cmd.args@, |a: CliArg| named_arg_line(condition, a))
}

/// The completion line for a value of a positional argument.
pub open spec fn value_line(condition: Seq<char>, value: PossibleValue) -> Seq<char> {
    if value.hidden {
        Seq::empty()
    } else {
        under(condition) + " -a "@ + value.name@ + description(value.help) + seq!['\n']
    }
}

/// The completion lines for the values of a visible positional argument.
pub open spec fn positional_arg_lines(condition: Seq<char>, arg: CliArg) -> Seq<char> {
    if !arg.positional || arg.hidden {
        Seq::empty()
    } else {
        each(arg.values@, |v: PossibleValue| value_line(condition, v))
    }
}

/// The completion lines for the values of the positional arguments of `cmd`.
pub open spec fn positional_lines(condition: Seq<char>, cmd: CliCommand) -> Seq<char> {
    each(cmd.args@, |a: CliArg| positional_arg_lines(condition, a))
}

/// The condition under which a subcommand's arguments complete.
pub open spec fn seen_condition(name: Seq<char>) -> Seq<char> {
    "__fish_seen_subcommand_from "@ + name
}

/// The line that offers a visible subcommand where a subcommand is expected.
pub open spec fn subcommand_line(sub: CliCommand) -> Seq<char> {
    if sub.hidden {
        Seq::empty()
    } else {
        under("__fish_use_subcommand"@) + " -a "@ + sub.name@ + description(sub.about) + seq!['\n']
    }
}

/// The flag and value lines of a visible subcommand.
pub open spec fn subcommand_arg_lines(sub: CliCommand) -> Seq<char> {
    if sub.hidden {
        Seq::empty()
    } else {
        named_lines(seen_condition(sub.name@), sub) + positional_lines(seen_condition(sub.name@), sub)
    }
}

/// The line that offers a visible subcommand other than `help` after `help`.
pub open spec fn help_line(sub: CliCommand) -> Seq<char> {
    if sub.hidden || sub.name@ == "help"@ {
        Seq::empty()
    } else {
        under(seen_condition("help"@)) + " -a "@ + sub.name@ + description(sub.about) + seq!['\n']
    }
}

/// The fish completion script for `cli`: files are never completed; the
/// top-level flags; each visible subcommand; each visible subcommand's flags
/// and values; and each visible subcommand again after `help`.
pub open spec fn fish_script(cli: CliSpec) -> Seq<char> {
    "complete -c zenbookd -f\n"@ + named_lines("__fish_use_subcommand"@, cli.root) + each(
        cli.subcommands@,
        |s: CliCommand| subcommand_line(s),
    ) + each(cli.subcommands@, |s: CliCommand| subcommand_arg_lines(s)) + each(
        cli.subcommands@,
        |s: CliCommand| help_line(s),
    )
}

/// `text` quoted for a single-quoted fish string.
fn escape(text: &str) -> (out: String)
    ensures
        out@ == escaped(text@),
{
    let cs = crate::text::chars_of(text);
    let ghost f = |c: char| if c == '\\' { seq!['\\', '\\'] } else if c == '\'' { seq!['\\', '\''] } else { seq![c] };
    let mut out = String::new();
    let mut i: usize = 0;
    while i < cs.len()
        invariant
            i <= cs.len(),
            cs@ == text@,
            f == (|c: char| if c == '\\' { seq!['\\', '\\'] } else if c == '\'' { seq!['\\', '\''] } else { seq![c] }),
            out@ == each(cs@.take(i as int), f),
        decreases cs.len() - i,
    {
        let c = cs[i];
        if c == '\\' {
            push_char(&mut out, '\\');
            push_char(&mut out, '\\');
        } else if c == '\'' {
            push_char(&mut out, '\\');
            push_char(&mut out, '\'');
        } else {
            push_char(&mut out, c);
        }
        assert(cs@.take(i + 1).drop_last() == cs@.take(i as int));
        assert(cs@.take(i + 1).last() == c);
        i = i + 1;
    }
    assert(cs@.take(cs.len() as int) == cs@);
    out
}

fn describe(out: &mut String, help: &Option<String>)
    ensures
        final(out)@ == old(out)@ + description(*help),
{
    if let Some(h) = help {
        out.append(" -d '");
        let e = escape(h.as_str());
        out.append(e.as_str());
        out.append("'");
    }
}

fn start_line(condition: &str) -> (out: String)
    ensures
        out@ == under(condition@),
{
    let mut out = String::from_str("complete -c zenbookd -n '");
    out.append(condition);
    out.append("'");
    out
}

/// Writes the completion line for a flag argument.
fn emit_named_arg(out: &mut String, condition: &str, arg: &CliArg)
    ensures
        final(out)@ == old(out)@ + named_arg_line(condition@, *arg),
{
    if arg.positional || arg.hidden {
        return;
    }
    let mut spec = start_line(condition);
    let mut named = false;
    let ghost base = spec@;
    let mut i: usize = 0;
    while i < arg.shorts.len()
        invariant
            i <= arg.shorts.len(),
            named == (i > 0),
            spec@ == base + each(arg.shorts@.take(i as int), |c: char| " -s "@ + seq![c]),
        decreases arg.shorts.len() - i,
    {
        spec.append(" -s ");
        push_char(&mut spec, arg.shorts[i]);
        named = true;
        assert(arg.shorts@.take(i + 1).drop_last() == arg.shorts@.take(i as int));
        i = i + 1;
    }
    assert(arg.shorts@.take(arg.shorts.len() as int) == arg.shorts@);
    let ghost mid = spec@;
    let mut j: usize = 0;
    while j < arg.longs.len()
        invariant
            j <= arg.longs.len(),
            named == (arg.shorts@.len() > 0 || j > 0),
            spec@ == mid + each(arg.longs@.take(j as int), |l: String| " -l "@ + l@),
        decreases arg.longs.len() - j,
    {
        spec.append(" -l ");
        spec.append(arg.longs[j].as_str());
        named = true;
        assert(arg.longs@.take(j + 1).drop_last() == arg.longs@.take(j as int));
        j = j + 1;
    }
    assert(arg.longs@.take(arg.longs.len() as int) == arg.longs@);
    if !named {
        return;
    }
    describe(&mut spec, &arg.help);
    push_char(&mut spec, '\n');
    out.append(spec.as_str());
}

/// Writes the completion lines for the flags of `cmd`.
fn emit_named(out: &mut String, condition: &str, cmd: &CliCommand)
    ensures
        final(out)@ == old(out)@ + named_lines(condition@, *cmd),
{
    let ghost start = out@;
    let mut i: usize = 0;
    while i < cmd.args.len()
        invariant
            i <= cmd.args.len(),
            out@ == start + each(cmd.args@.take(i as int), |a: CliArg| named_arg_line(condition@, a)),
        decreases cmd.args.len() - i,
    {
        emit_named_arg(out, condition, &cmd.args[i]);
        assert(cmd.args@.take(i + 1).drop_last() == cmd.args@.take(i as int));
        i = i + 1;
    }
    assert(cmd.args@.take(cmd.args.len() as int) == cmd.args@);
}

/// Writes the completion lines for the values of the positional arguments of
/// `cmd`.
fn emit_positionals(out: &mut String, condition: &str, cmd: &CliCommand)
    ensures
        final(out)@ == old(out)@ + positional_lines(condition@, *cmd),
{
    let ghost start = out@;
    let mut i: usize = 0;
    while i < cmd.args.len()
        invariant
            i <= cmd.args.len(),
            out@ == start + each(cmd.args@.take(i as int), |a: CliArg| positional_arg_lines(condition@, a)),
        decreases cmd.args.len() - i,
    {
        let arg = &cmd.args[i];
        let ghost before = out@;
        if arg.positional && !arg.hidden {
            let mut j: usize = 0;
            while j < arg.values.len()
                invariant
                    j <= arg.values.len(),
                    out@ == before + each(arg.values@.take(j as int), |v: PossibleValue| value_line(condition@, v)),
                decreases arg.values.len() - j,
            {
                let value = &arg.values[j];
                if !value.hidden {
                    let mut spec = start_line(condition);
                    spec.append(" -a ");
                    spec.append(value.name.as_str());
                    describe(&mut spec, &value.help);
                    push_char(&mut spec, '\n');
                    out.append(spec.as_str());
                }
                assert(arg.values@.take(j + 1).drop_last() == arg.values@.take(j as int));
                j = j + 1;
            }
            assert(arg.values@.take(arg.values.len() as int) == arg.values@);
        }
        assert(cmd.args@.take(i + 1).drop_last() == cmd.args@.take(i as int));
        i = i + 1;
    }
    assert(cmd.args@.take(cmd.args.len() as int) == cmd.args@);
}

/// The fish completion script for `cli`; see [`fish_script`].
pub fn write_fish(cli: &CliSpec) -> (out: String)
    ensures
        out@ == fish_script(*cli),
{
    let mut out = String::from_str("complete -c zenbookd -f\n");
    emit_named(&mut out, "__fish_use_subcommand", &cli.root);
    let subs = &cli.subcommands;

    let ghost start = out@;
    let mut i: usize = 0;
    while i < subs.len()
        invariant
            i <= subs.len(),
            out@ == start + each(subs@.take(i as int), |s: CliCommand| subcommand_line(s)),
        decreases subs.len() - i,
    {
        let sub = &subs[i];
        if !sub.hidden {
            let mut spec = start_line("__fish_use_subcommand");
            spec.append(" -a ");
            spec.append(sub.name.as_str());
            describe(&mut spec, &sub.about);
            push_char(&mut spec, '\n');
            out.append(spec.as_str());
        }
        assert(subs@.take(i + 1).drop_last() == subs@.take(i as int));
        i = i + 1;
    }
    assert(subs@.take(subs.len() as int) == subs@);

    let ghost start = out@;
    let mut i: usize = 0;
    while i < subs.len()
        invariant
            i <= subs.len(),
            out@ == start + each(subs@.take(i as int), |s: CliCommand| subcommand_arg_lines(s)),
        decreases subs.len() - i,
    {
        let sub = &subs[i];
        if !sub.hidden {
            let mut condition = String::from_str("__fish_seen_subcommand_from ");
            condition.append(sub.name.as_str());
            emit_named(&mut out, condition.as_str(), sub);
            emit_positionals(&mut out, condition.as_str(), sub);
        }
        assert(subs@.take(i + 1).drop_last() == subs@.take(i as int));
        i = i + 1;
    }
    assert(subs@.take(subs.len() as int) == subs@);

    let help = String::from_str("help");
    let mut help_condition = String::from_str("__fish_seen_subcommand_from ");
    help_condition.append("help");
    let ghost start = out@;
    let mut i: usize = 0;
    while i < subs.len()
        invariant
            i <= subs.len(),
            help@ == "help"@,
            help_condition@ == seen_condition("help"@),
            out@ == start + each(subs@.take(i as int), |s: CliCommand| help_line(s)),
        decreases subs.len() - i,
    {
        let sub = &subs[i];
        if !sub.hidden && !(sub.name == help) {
            let mut spec = start_line(help_condition.as_str());
            spec.append(" -a ");
            spec.append(sub.name.as_str());
            describe(&mut spec, &sub.about);
            push_char(&mut spec, '\n');
            out.append(spec.as_str());
        }
        assert(subs@.take(i + 1).drop_last() == subs@.take(i as int));
        i = i + 1;
    }
    assert(subs@.take(subs.len() as int) == subs@);
    out
}

proof fn lemma_holds_within(a: Seq<char>, x: Seq<char>, p: Seq<char>, q: Seq<char>)
    requires
        holds(a, x),
    ensures
        holds(p + a + q, x),
{
    let i = choose|i: int| 0 <= i && i + x.len() <= a.len() && #[trigger] a.subrange(i, i + x.len()) == x;
    let whole = p + a + q;
    let k = p.len() + i;
    assert(whole.subrange(k, k + x.len()) =~= a.subrange(i, i + x.len()));
}

proof fn lemma_holds_itself(x: Seq<char>)
    ensures
        holds(x, x),
{
    let i: int = 0;
    assert(x.subrange(i, i + x.len()) =~= x);
}

proof fn lemma_each_holds<A>(s: Seq<A>, f: spec_fn(A) -> Seq<char>, i: int)
    requires
        0 <= i < s.len(),
    ensures
        holds(each(s, f), f(s[i])),
    decreases s.len(),
{
    let front = each(s.drop_last(), f);
    if i == s.len() - 1 {
        lemma_holds_itself(f(s[i]));
        lemma_holds_within(f(s[i]), f(s[i]), front, Seq::empty());
        assert(front + f(s[i]) + Seq::<char>::empty() == each(s, f));
    } else {
        lemma_each_holds(s.drop_last(), f, i);
        assert(s.drop_last()[i] == s[i]);
        lemma_holds_within(front, f(s[i]), Seq::empty(), f(s.last()));
        assert(Seq::<char>::empty() + front + f(s.last()) == each(s, f));
    }
}

/// A flag of a visible subcommand completes after that subcommand has been
/// typed: the script holds the flag's line, that line is under the condition
/// that the subcommand was seen, and it offers each of the flag's long names.
pub proof fn subcommand_flags_complete_after_their_subcommand(cli: CliSpec, k: int, j: int, m: int)
    requires
        0 <= k < cli.subcommands@.len(),
        !cli.subcommands@[k].hidden,
        0 <= j < cli.subcommands@[k].args@.len(),
        !cli.subcommands@[k].args@[j].positional,
        !cli.subcommands@[k].args@[j].hidden,
        0 <= m < cli.subcommands@[k].args@[j].longs@.len(),
    ensures
        ({
            let sub = cli.subcommands@[k];
            let arg = sub.args@[j];
            let line = named_arg_line(seen_condition(sub.name@), arg);
            &&& holds(fish_script(cli), line)
            &&& has_prefix(line, under(seen_condition(sub.name@)))
            &&& holds(line, " -l "@ + arg.longs@[m]@)
        }),
{
    let sub = cli.subcommands@[k];
    let arg = sub.args@[j];
    let cond = seen_condition(sub.name@);
    let line = named_arg_line(cond, arg);
    let fl = |a: CliArg| named_arg_line(cond, a);
    lemma_each_holds(sub.args@, fl, j);
    assert(fl(arg) == line);
    let sal = subcommand_arg_lines(sub);
    assert(sal == named_lines(cond, sub) + positional_lines(cond, sub));
    lemma_holds_within(named_lines(cond, sub), line, Seq::empty(), positional_lines(cond, sub));
    assert(Seq::<char>::empty() + named_lines(cond, sub) + positional_lines(cond, sub) == sal);
    let fs = |s: CliCommand| subcommand_arg_lines(s);
    lemma_each_holds(cli.subcommands@, fs, k);
    assert(fs(sub) == sal);
    let all = each(cli.subcommands@, fs);
    assert(holds(sal, line));
    assert forall|x: Seq<char>| holds(all, x) <== holds(sal, x) && holds(all, sal) by {
        if holds(sal, x) && holds(all, sal) {
            let a = choose|i: int| 0 <= i && i + sal.len() <= all.len() && #[trigger] all.subrange(i, i + sal.len()) == sal;
            let b = choose|i: int| 0 <= i && i + x.len() <= sal.len() && #[trigger] sal.subrange(i, i + x.len()) == x;
            assert(all.subrange(a + b, a + b + x.len()) =~= sal.subrange(b, b + x.len()));
        }
    }
    let before = "complete -c zenbookd -f\n"@ + named_lines("__fish_use_subcommand"@, cli.root) + each(
        cli.subcommands@,
        |s: CliCommand| subcommand_line(s),
    );
    let after = each(cli.subcommands@, |s: CliCommand| help_line(s));
    lemma_holds_within(all, line, before, after);
    assert(before + all + after == fish_script(cli));
    assert(line.subrange(0, under(cond).len() as int) =~= under(cond));
    let fll = |l: String| " -l "@ + l@;
    lemma_each_holds(arg.longs@, fll, m);
    assert(fll(arg.longs@[m]) == " -l "@ + arg.longs@[m]@);
    let shorts = each(arg.shorts@, |c: char| " -s "@ + seq![c]);
    let longs = each(arg.longs@, fll);
    lemma_holds_within(longs, " -l "@ + arg.longs@[m]@, under(cond) + shorts, description(arg.help) + seq!['\n']);
    assert(under(cond) + shorts + longs + (description(arg.help) + seq!['\n']) == line);
}

} // verus!
