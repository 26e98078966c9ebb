//! What to do for each window event, and the text of each command.
use vstd::prelude::*;
use crate::config::AutotileConfig;
use crate::decide::{decide, decide_spec, LayoutCommand};
use crate::tree::{Node, Workspace};

verus! {

/// The kinds of window change that the dispatcher tells apart.
#[derive(Clone, Copy, Debug, PartialEq, Eq, Structural)]
pub enum WindowEventKind {
    Focus,
    New,
    Close,
    Other,
}

/// Whether an event of this kind calls for a decision, and so for a fresh
/// snapshot of the tree.
pub open spec fn wants_decision_spec(kind: WindowEventKind) -> bool {
    kind == WindowEventKind::Focus || kind == WindowEventKind::New
}

/// The commands issued for an event, given the decision taken for it (ignored
/// where the event calls for none): the decision where it is not `NoOp`, then
/// `Balance` after a new or closed window where balancing is on.
pub open spec fn event_commands_spec(
    kind: WindowEventKind,
    decision: LayoutCommand,
    enable_balance: bool,
) -> Seq<LayoutCommand> {
    let first = if wants_decision_spec(kind) && decision != LayoutCommand::NoOp {
        seq![decision]
    } else {
        Seq::empty()
    };
    let balance = if enable_balance && (kind == WindowEventKind::New || kind
        == WindowEventKind::Close) {
        seq![LayoutCommand::Balance]
    } else {
        Seq::empty()
    };
    first + balance
}

/// Whether an event of this kind calls for a decision.
pub fn wants_decision(kind: WindowEventKind) -> (r: bool)
    ensures
        r == wants_decision_spec(kind),
{
    match kind {
        WindowEventKind::Focus | WindowEventKind::New => true,
        _ => false,
    }
}

/// The commands to issue for an event, given the decision taken for it.
pub fn event_commands(kind: WindowEventKind, decision: LayoutCommand, config: &AutotileConfig) -> (r:
    Vec<LayoutCommand>)
    ensures
        r@ == event_commands_spec(kind, decision, config.enable_balance),
{
    let mut r: Vec<LayoutCommand> = Vec::new();
    if wants_decision(kind) && decision != LayoutCommand::NoOp {
        r.push(decision);
    }
    let closes_or_opens = match kind {
        WindowEventKind::New | WindowEventKind::Close => true,
        _ => false,
    };
    if config.enable_balance && closes_or_opens {
        r.push(LayoutCommand::Balance);
    }
    assert(r@ =~= event_commands_spec(kind, decision, config.enable_balance));
    r
}

/// The commands to issue for an event, with the decision taken on the given
/// snapshot where the event calls for one.
pub fn handle_event(
    kind: WindowEventKind,
    tree: &Node,
    ws: &Vec<Workspace>,
    config: &AutotileConfig,
) -> (r: Vec<LayoutCommand>)
    ensures
        r@ == event_commands_spec(kind, decide_spec(*tree, ws@, *config), config.enable_balance),
{
    let decision = if wants_decision(kind) {
        decide(tree, ws, config)
    } else {
        LayoutCommand::NoOp
    };
    event_commands(kind, decision, config)
}

/// The window manager's text for a command; `NoOp` has none.
pub open spec fn command_text_spec(cmd: LayoutCommand) -> Option<Seq<char>> {
    match cmd {
        LayoutCommand::SplitHorizontal => Some("splith"@),
        LayoutCommand::SplitVertical => Some("splitv"@),
        LayoutCommand::Balance => Some("balance"@),
        LayoutCommand::NoOp => None,
    }
}

/// The window manager's text for a command; `NoOp` has none.
pub fn command_text(cmd: LayoutCommand) -> (r: Option<&'static str>)
    ensures
        match r {
            Some(t) => command_text_spec(cmd) == Some(t@),
            None => command_text_spec(cmd) is None,
        },
{
    match cmd {
        LayoutCommand::SplitHorizontal => Some("splith"),
        LayoutCommand::SplitVertical => Some("splitv"),
        LayoutCommand::Balance => Some("balance"),
        LayoutCommand::NoOp => None,
    }
}

} // verus!
