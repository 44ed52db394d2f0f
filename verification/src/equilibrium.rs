//! The commands of the cluster balancing tool, and the banner each one
//! prints when it starts.

use vstd::prelude::*;
use vstd::string::*;

verus! {

/// How partitions are to be balanced.
#[derive(Clone, Copy, Debug, PartialEq, Eq, Structural)]
pub enum Mode {
    Spread,
    Size,
}

/// A command of the balancing tool with its arguments.
pub enum Command {
    Balance { bootstrap_server: String, mode: Mode, incremental: bool, plan: bool },
    Supervise { bootstrap_server: String, incremental: bool },
    DecommissionBroker { bootstrap_server: String, incremental: bool, plan: bool },
}

/// `{:?}` of a mode: the variant's name.
pub open spec fn mode_debug(mode: Mode) -> Seq<char> {
    match mode {
        Mode::Spread => "Spread"@,
        Mode::Size => "Size"@,
    }
}

/// `{}` of a boolean.
pub open spec fn bool_text(b: bool) -> Seq<char> {
    if b {
        "true"@
    } else {
        "false"@
    }
}

/// The banner a command prints when it starts: its name, then one line per
/// argument.
pub open spec fn spec_banner(command: &Command) -> Seq<char> {
    match command {
        Command::Balance { bootstrap_server, mode, incremental, plan } => "Balance Started\n bootstrap-server ["@
            + bootstrap_server@ + "]\n mode : ["@ + mode_debug(*mode) + "]\n incremental : ["@
            + bool_text(*incremental) + "]\n plan : ["@ + bool_text(*plan) + "]"@,
        Command::Supervise { bootstrap_server, incremental } => "Supervision Started\n bootstrap-server ["@
            + bootstrap_server@ + "]\n incremental : ["@ + bool_text(*incremental) + "]"@,
        Command::DecommissionBroker { bootstrap_server, incremental, plan } =>
            "Decommission Started\n bootstrap-server ["@ + bootstrap_server@ + "]\n incremental : ["@
            + bool_text(*incremental) + "]\n plan : ["@ + bool_text(*plan) + "]"@,
    }
}

fn mode_text(mode: Mode) -> (text: &'static str)
    ensures
        text@ == mode_debug(mode),
{
    match mode {
        Mode::Spread => "Spread",
        Mode::Size => "Size",
    }
}

fn bool_str(b: bool) -> (text: &'static str)
    ensures
        text@ == bool_text(b),
{
    if b {
        "true"
    } else {
        "false"
    }
}

impl Command {
    /// The banner this command prints when it starts.
    pub fn banner(&self) -> (banner: String)
        ensures
            banner@ == spec_banner(self),
    {
        match self {
            Command::Balance { bootstrap_server, mode, incremental, plan } => {
                let mut s = String::from_str("Balance Started\n bootstrap-server [");
                s.append(bootstrap_server.as_str());
                s.append("]\n mode : [");
                s.append(mode_text(*mode));
                s.append("]\n incremental : [");
                s.append(bool_str(*incremental));
                s.append("]\n plan : [");
                s.append(bool_str(*plan));
                s.append("]");
                s
            },
            Command::Supervise { bootstrap_server, incremental } => {
                let mut s = String::from_str("Supervision Started\n bootstrap-server [");
                s.append(bootstrap_server.as_str());
                s.append("]\n incremental : [");
                s.append(bool_str(*incremental));
                s.append("]");
                s
            },
            Command::DecommissionBroker { bootstrap_server, incremental, plan } => {
                let mut s = String::from_str("Decommission Started\n bootstrap-server [");
                s.append(bootstrap_server.as_str());
                s.append("]\n incremental : [");
                s.append(bool_str(*incremental));
                s.append("]\n plan : [");
                s.append(bool_str(*plan));
                s.append("]");
                s
            },
        }
    }
}

/// Each banner opens with the command's name and the broker it talks to, and
/// closes with its flags, each after its own label: the incremental flag,
/// then (where the command has one) the plan flag as the very last value;
/// between them stands the balancing mode, for the command that has one.
pub proof fn lemma_banner_shows_each_argument(command: &Command)
    ensures
        match command {
            Command::Balance { bootstrap_server, mode, incremental, plan } => {
                &&& ("Balance Started\n bootstrap-server ["@ + bootstrap_server@ + "]\n mode : ["@
                    + mode_debug(*mode) + "]"@).is_prefix_of(spec_banner(command))
                &&& ("\n incremental : ["@ + bool_text(*incremental) + "]\n plan : ["@ + bool_text(
                    *plan,
                ) + "]"@).is_suffix_of(spec_banner(command))
                &&& spec_banner(command).len() == 35 + bootstrap_server@.len() + 11
                    + mode_debug(*mode).len() + 1 + 17 + bool_text(*incremental).len() + 1 + 10
                    + bool_text(*plan).len() + 1
            },
            Command::Supervise { bootstrap_server, incremental } => {
                &&& ("Supervision Started\n bootstrap-server ["@ + bootstrap_server@
                    + "]"@).is_prefix_of(spec_banner(command))
                &&& ("\n incremental : ["@ + bool_text(*incremental) + "]"@).is_suffix_of(
                    spec_banner(command),
                )
                &&& spec_banner(command).len() == 39 + bootstrap_server@.len() + 1 + 17 + bool_text(
                    *incremental,
                ).len() + 1
            },
            Command::DecommissionBroker { bootstrap_server, incremental, plan } => {
                &&& ("Decommission Started\n bootstrap-server ["@ + bootstrap_server@
                    + "]"@).is_prefix_of(spec_banner(command))
                &&& ("\n incremental : ["@ + bool_text(*incremental) + "]\n plan : ["@ + bool_text(
                    *plan,
                ) + "]"@).is_suffix_of(spec_banner(command))
                &&& spec_banner(command).len() == 40 + bootstrap_server@.len() + 1 + 17 + bool_text(
                    *incremental,
                ).len() + 1 + 10 + bool_text(*plan).len() + 1
            },
        },
{
    reveal_strlit("Balance Started\n bootstrap-server [");
    reveal_strlit("Supervision Started\n bootstrap-server [");
    reveal_strlit("Decommission Started\n bootstrap-server [");
    reveal_strlit("]\n mode : [");
    reveal_strlit("\n incremental : [");
    reveal_strlit("]\n incremental : [");
    reveal_strlit("]\n plan : [");
    reveal_strlit("]");
    reveal_strlit("true");
    reveal_strlit("false");
    reveal_strlit("Spread");
    reveal_strlit("Size");
    match command {
        Command::Balance { bootstrap_server, mode, incremental, plan } => {
            let head = "Balance Started\n bootstrap-server ["@ + bootstrap_server@ + "]\n mode : ["@
                + mode_debug(*mode) + "]"@;
            let tail = "\n incremental : ["@ + bool_text(*incremental) + "]\n plan : ["@ + bool_text(
                *plan,
            ) + "]"@;
            assert(spec_banner(command) =~= head + tail);
        },
        Command::Supervise { bootstrap_server, incremental } => {
            let head = "Supervision Started\n bootstrap-server ["@ + bootstrap_server@ + "]"@;
            let tail = "\n incremental : ["@ + bool_text(*incremental) + "]"@;
            assert(spec_banner(command) =~= head + tail);
        },
        Command::DecommissionBroker { bootstrap_server, incremental, plan } => {
            let head = "Decommission Started\n bootstrap-server ["@ + bootstrap_server@ + "]"@;
            let tail = "\n incremental : ["@ + bool_text(*incremental) + "]\n plan : ["@ + bool_text(
                *plan,
            ) + "]"@;
            assert(spec_banner(command) =~= head + tail);
        },
    }
}

} // verus!
