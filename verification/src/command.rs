//! Classification of an invocation by its first argument token.
//!
//! The three lifecycle tokens are matched case-sensitively and exactly; any
//! other first token, and the empty argument list, are pass-throughs handed
//! to the daemon over the session protocol. A command is classified once and
//! never re-classified.

use vstd::prelude::*;

verus! {

/// How an invocation is routed: a lifecycle command handled by process
/// management, or a pass-through forwarded to the daemon.
#[derive(Clone, Copy, Debug, PartialEq, Eq, Structural)]
pub enum LifecycleCommand {
    Start,
    Stop,
    Restart,
    PassThrough,
}

/// Classification of the raw arguments by their first token.
pub open spec fn spec_classify(args: Seq<Seq<char>>) -> LifecycleCommand {
    if args.len() == 0 {
        LifecycleCommand::PassThrough
    } else if args[0] == "start"@ {
        LifecycleCommand::Start
    } else if args[0] == "stop"@ {
        LifecycleCommand::Stop
    } else if args[0] == "restart"@ {
        LifecycleCommand::Restart
    } else {
        LifecycleCommand::PassThrough
    }
}

/// Classifies the first argument token; anything but the three lifecycle
/// tokens, including no arguments at all, is a pass-through.
pub fn classify(args: &Vec<String>) -> (c: LifecycleCommand)
    ensures
        c == spec_classify(args.deep_view()),
{
    if args.len() == 0 {
        return LifecycleCommand::PassThrough;
    }
    let first: &String = &args[0];
    if *first == "start".to_owned() {
        LifecycleCommand::Start
    } else if *first == "stop".to_owned() {
        LifecycleCommand::Stop
    } else if *first == "restart".to_owned() {
        LifecycleCommand::Restart
    } else {
        LifecycleCommand::PassThrough
    }
}

/// Any first token other than the three lifecycle tokens — and the empty
/// argument list — classifies as a pass-through.
pub proof fn lemma_classify_passthrough(args: Seq<Seq<char>>)
    requires
        args.len() == 0 || (args[0] != "start"@ && args[0] != "stop"@ && args[0] != "restart"@),
    ensures
        spec_classify(args) is PassThrough,
{
}

} // verus!
