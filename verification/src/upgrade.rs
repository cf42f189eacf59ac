//! The programmable transaction that upgrades a published package.
use crate::values::{ObjectID, ObjectRef};
use vstd::prelude::*;

verus! {

/// What an argument of a command refers to.
#[derive(Clone, Copy, Debug, PartialEq, Eq)]
pub enum Argument {
    /// An input of the transaction.
    Input(usize),
    /// The result of an earlier command.
    Result(usize),
}

/// An input of the transaction.
#[derive(Clone, Copy, Debug, PartialEq, Eq)]
pub enum ProgramInput {
    /// An object of the sender's.
    OwnedObject(ObjectRef),
    /// The policy that allows compatible upgrades.
    CompatiblePolicy,
    /// The digest of the package that is upgraded to.
    PackageDigest,
}

/// One command of the transaction.
#[derive(Debug, PartialEq, Eq)]
pub enum Command {
    /// Calls a function of the framework.
    FrameworkCall { module: &'static str, function: &'static str, arguments: Vec<Argument> },
    /// Replaces `package` by the package that is upgraded to.
    Upgrade { package: ObjectID, ticket: Argument },
}

/// A programmable transaction.
#[derive(Debug, PartialEq, Eq)]
pub struct Program {
    pub inputs: Vec<ProgramInput>,
    pub commands: Vec<Command>,
}

impl Argument {
    /// Whether the argument of a command can refer to this: to one of `inputs`
    /// inputs, or to a command before the one at `position`.
    pub open spec fn in_scope(self, inputs: nat, position: int) -> bool {
        match self {
            Argument::Input(i) => i < inputs,
            Argument::Result(i) => i < position,
        }
    }
}

impl Command {
    /// What the command refers to, in order.
    pub open spec fn arguments(self) -> Seq<Argument> {
        match self {
            Command::FrameworkCall { arguments, .. } => arguments@,
            Command::Upgrade { ticket, .. } => seq![ticket],
        }
    }

    /// Whether this calls `package::function` with these arguments.
    pub open spec fn is_package_call(self, function: &'static str, args: Seq<Argument>) -> bool {
        self matches Command::FrameworkCall { module, function: f, arguments } && module
            == "package" && f == function && arguments@ == args
    }
}

impl Program {
    /// Every argument refers to an input that there is, or to a command that
    /// has run before.
    pub open spec fn wf(self) -> bool {
        forall|c: int, a: int|
            0 <= c < self.commands@.len() && 0 <= a < self.commands@[c].arguments().len()
                ==> (#[trigger] self.commands@[c].arguments()[a]).in_scope(self.inputs@.len(), c)
    }
}

/// Upgrades `package` by authority of its upgrade capability: authorizes the
/// upgrade, which gives a ticket; upgrades by that ticket, which gives a
/// receipt; commits the receipt to the same capability.
pub fn upgrade_program(package: ObjectID, upgrade_cap: ObjectRef) -> (r: Program)
    ensures
        r.inputs@ == seq![
            ProgramInput::OwnedObject(upgrade_cap),
            ProgramInput::CompatiblePolicy,
            ProgramInput::PackageDigest,
        ],
        r.commands@.len() == 3,
        r.commands@[0].is_package_call(
            "authorize_upgrade",
            seq![Argument::Input(0), Argument::Input(1), Argument::Input(2)],
        ),
        r.commands@[1] == (Command::Upgrade { package, ticket: Argument::Result(0) }),
        r.commands@[2].is_package_call(
            "commit_upgrade",
            seq![Argument::Input(0), Argument::Result(1)],
        ),
        r.commands@[0] matches Command::FrameworkCall { module, function, arguments } && module
            == "package" && function == "authorize_upgrade" && arguments@ == seq![
            Argument::Input(0),
            Argument::Input(1),
            Argument::Input(2),
        ],
        r.commands@[2] matches Command::FrameworkCall { module, function, arguments } && module
            == "package" && function == "commit_upgrade" && arguments@ == seq![
            Argument::Input(0),
            Argument::Result(1),
        ],
        r.wf(),
{
    let inputs: Vec<ProgramInput> = vec![
        ProgramInput::OwnedObject(upgrade_cap),
        ProgramInput::CompatiblePolicy,
        ProgramInput::PackageDigest,
    ];
    assert(inputs@ =~= seq![
        ProgramInput::OwnedObject(upgrade_cap),
        ProgramInput::CompatiblePolicy,
        ProgramInput::PackageDigest,
    ]);
    let authorize: Vec<Argument> = vec![Argument::Input(0), Argument::Input(1), Argument::Input(2)];
    assert(authorize@ =~= seq![Argument::Input(0), Argument::Input(1), Argument::Input(2)]);
    let commit: Vec<Argument> = vec![Argument::Input(0), Argument::Result(1)];
    assert(commit@ =~= seq![Argument::Input(0), Argument::Result(1)]);
    let commands: Vec<Command> = vec![
        Command::FrameworkCall {
            module: "package",
            function: "authorize_upgrade",
            arguments: authorize,
        },
        Command::Upgrade { package, ticket: Argument::Result(0) },
        Command::FrameworkCall { module: "package", function: "commit_upgrade", arguments: commit },
    ];
    Program { inputs, commands }
}

} // verus!
