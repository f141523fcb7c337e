//! The shell-command job variant: a command name and its arguments.

use vstd::prelude::*;
use crate::config::ConfigValue;
use crate::run::{RunError, RunSuccess, spec_run_outcome};

verus! {

/// A command to launch, with its ordered argument list. Immutable after
/// construction, and self-contained, so it can be handed to whichever thread
/// executes it.
#[derive(Debug, Clone, PartialEq)]
pub struct ShellCommand {
    command: String,
    args: Vec<String>,
}

/// What a `ShellCommand` holds, as plain sequences.
pub struct ShellCommandView {
    pub command: Seq<char>,
    pub args: Seq<Seq<char>>,
}

impl View for ShellCommand {
    type V = ShellCommandView;

    closed spec fn view(&self) -> ShellCommandView {
        ShellCommandView { command: self.command@, args: self.args.deep_view() }
    }
}

impl DeepView for ShellCommand {
    type V = ShellCommandView;

    open spec fn deep_view(&self) -> ShellCommandView {
        self.view()
    }
}

/// The argument a configuration value decodes to: a string reads as itself,
/// anything else as the empty string.
pub open spec fn spec_arg(c: ConfigValue) -> Seq<char> {
    match c {
        ConfigValue::Str(s) => s@,
        _ => Seq::empty(),
    }
}

/// The argument list an array of configuration values decodes to.
pub open spec fn spec_args(items: Seq<ConfigValue>) -> Seq<Seq<char>> {
    Seq::new(items.len(), |i: int| spec_arg(items[i]))
}

/// The shell command a configuration value decodes to: a missing or mistyped
/// `command` reads as the empty string, a missing or mistyped `args` as the
/// empty list — decoding never fails, only the eventual launch may.
pub open spec fn spec_shell_command(v: ConfigValue) -> ShellCommandView {
    ShellCommandView {
        command: match v.spec_field("command"@) {
            Some(ConfigValue::Str(s)) => s@,
            _ => Seq::empty(),
        },
        args: spec_args(v.spec_items("args"@)),
    }
}

impl ShellCommand {
    pub fn new(command: String, args: Vec<String>) -> (r: Self)
        ensures
            r@.command == command@,
            r@.args == args.deep_view(),
    {
        ShellCommand { command, args }
    }

    /// Decodes a shell command from a configuration value, substituting the
    /// documented neutral defaults for missing or mistyped fields.
    pub fn new_from_value(v: &ConfigValue) -> (r: Self)
        ensures
            r@ == spec_shell_command(*v),
    {
        let command: String = match v.get("command") {
            Some(c) => match c {
                ConfigValue::Str(s) => s.clone(),
                _ => String::new(),
            },
            None => String::new(),
        };
        let args: Vec<String> = match v.get("args") {
            Some(c) => match c {
                ConfigValue::Arr(items) => args_from_values(items),
                _ => Vec::new(),
            },
            None => Vec::new(),
        };
        proof {
            if !(v.spec_field("args"@) matches Some(ConfigValue::Arr(_))) {
                assert(args.deep_view() =~= spec_args(v.spec_items("args"@)));
            }
        }
        ShellCommand { command, args }
    }

    /// The command name to launch.
    pub fn command(&self) -> (c: &String)
        ensures
            c@ == self@.command,
    {
        &self.command
    }

    /// The arguments to hand to the command, in order.
    pub fn args(&self) -> (a: &Vec<String>)
        ensures
            a.deep_view() == self@.args,
    {
        &self.args
    }

    /// The outcome this command's run reports, given whether the caller
    /// managed to initiate the launch. The run never waits for the launched
    /// process: success means the effect was initiated, nothing more.
    pub fn run_outcome(&self, initiated: bool) -> (r: Result<RunSuccess, RunError>)
        ensures
            r is Ok <==> initiated,
            match r {
                Ok(s) => spec_run_outcome(initiated) == Ok::<Seq<char>, Seq<char>>(s@),
                Err(e) => spec_run_outcome(initiated) == Err::<Seq<char>, Seq<char>>(e@),
            },
    {
        if initiated {
            Ok(RunSuccess::new("Notification thrown".to_owned()))
        } else {
            Err(RunError::new("Notification failed to throw".to_owned()))
        }
    }
}

fn args_from_values(items: &Vec<ConfigValue>) -> (r: Vec<String>)
    ensures
        r.deep_view() == spec_args(items@),
{
    let mut out: Vec<String> = Vec::new();
    let mut i: usize = 0;
    while i < items.len()
        invariant
            i <= items.len(),
            out@.len() == i,
            forall|j: int| 0 <= j < i ==> out@[j]@ == spec_arg(items@[j]),
        decreases items.len() - i,
    {
        let arg: String = match &items[i] {
            ConfigValue::Str(s) => s.clone(),
            _ => String::new(),
        };
        out.push(arg);
        i += 1;
    }
    proof {
        assert(out.deep_view() =~= spec_args(items@));
    }
    out
}

} // verus!
