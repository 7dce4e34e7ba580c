//! The connectivity monitor: the state machine that keeps the network
//! interface joined and publishes how far the join has come.
//!
//! The monitor never touches the connectivity driver itself. It names the
//! driver operation that is to be carried out next, is told how that operation
//! ended, and answers with the state to publish, a notice for the log, and the
//! next operation. Whoever runs it carries out one operation after the other,
//! for as long as the process lives: there is no final state.

use vstd::prelude::*;
use crate::types::{IpInfo, WifiState};

verus! {

/// Length of one interval of the monitor's loop, in milliseconds. It is also
/// the delay before a failed attempt is tried again: there is no backoff.
pub const LOOP_INTERVAL_MS: u64 = 100;

/// A driver operation that the monitor asks for.
#[derive(Clone, Copy, Debug, PartialEq, Eq)]
pub enum Command {
    /// Ask the driver whether the interface is connected.
    CheckLink,
    /// Start the connectivity driver.
    Start,
    /// Issue the connect.
    Connect,
    /// Wait for the network interface to come up.
    WaitNetifUp,
    /// Query what the interface was assigned.
    QueryIpInfo,
    /// Issue a disconnect, to reset the driver before the next attempt.
    Disconnect,
    /// Let one interval of the monitor's loop pass: `LOOP_INTERVAL_MS`.
    Sleep,
}

/// How a driver operation ended.
#[derive(Clone, Copy, Debug, PartialEq, Eq)]
pub enum Reply {
    /// The operation succeeded and has nothing to tell.
    Done,
    /// The driver's answer to `CheckLink`.
    Link(bool),
    /// The driver's answer to `QueryIpInfo`.
    Info(IpInfo),
    /// The operation failed.
    Failed,
}

/// What the log is to say about a step of the monitor.
#[derive(Clone, Copy, Debug, PartialEq, Eq)]
pub enum Notice {
    Nothing,
    /// The interface is down and a reconnect attempt begins.
    LinkDown,
    /// The access point accepted the connect.
    ApReached,
    /// The interface is up and has its addresses.
    Connected,
    /// The interface came up, but its addresses could not be read.
    IpInfoFailed,
    /// The reconnect attempt failed.
    ConnectFailed,
}

/// What the monitor decides when it learns how an operation ended.
#[derive(Clone, Copy, Debug, PartialEq, Eq)]
pub struct Transition {
    /// The connectivity state to publish, if the step publishes one.
    pub publish: Option<WifiState>,
    pub notice: Notice,
    /// The operation to carry out next.
    pub command: Command,
}

/// The monitor as a value: the operation it waits for, and the state it
/// published last.
pub struct Monitor {
    pub pending: Command,
    pub online: WifiState,
}

/// What the monitor decides when the operation `pending` ends with `reply`.
///
/// Only `Link(true)` counts as a connected interface and only `Info` as an
/// answer to `QueryIpInfo`. Any other operation has succeeded unless the reply
/// is `Failed`.
pub open spec fn transition(pending: Command, reply: Reply) -> Transition {
    match pending {
        Command::Sleep => quiet(Command::CheckLink),
        Command::CheckLink => if reply == Reply::Link(true) {
            quiet(Command::Sleep)
        } else {
            Transition {
                publish: Some(WifiState::Connecting),
                notice: Notice::LinkDown,
                command: Command::Start,
            }
        },
        Command::Start => if reply is Failed {
            fallback()
        } else {
            quiet(Command::Connect)
        },
        Command::Connect => if reply is Failed {
            fallback()
        } else {
            Transition {
                publish: Some(WifiState::AcquiringIp),
                notice: Notice::ApReached,
                command: Command::WaitNetifUp,
            }
        },
        Command::WaitNetifUp => if reply is Failed {
            fallback()
        } else {
            quiet(Command::QueryIpInfo)
        },
        Command::QueryIpInfo => match reply {
            Reply::Info(info) => Transition {
                publish: Some(WifiState::Connected(info)),
                notice: Notice::Connected,
                command: Command::Sleep,
            },
            _ => Transition {
                publish: Some(WifiState::Disconnected),
                notice: Notice::IpInfoFailed,
                command: Command::Disconnect,
            },
        },
        Command::Disconnect => if reply is Failed {
            fallback()
        } else {
            quiet(Command::Sleep)
        },
    }
}

/// A step that publishes nothing and has nothing for the log.
pub open spec fn quiet(command: Command) -> Transition {
    Transition { publish: None, notice: Notice::Nothing, command }
}

/// The end of a failed attempt: back to `Disconnected`, and the next attempt
/// waits for the next round of the loop.
pub open spec fn fallback() -> Transition {
    Transition {
        publish: Some(WifiState::Disconnected),
        notice: Notice::ConnectFailed,
        command: Command::Sleep,
    }
}

impl Transition {
    fn quiet(command: Command) -> (t: Transition)
        ensures
            t == quiet(command),
    {
        Transition { publish: None, notice: Notice::Nothing, command }
    }

    fn fallback() -> (t: Transition)
        ensures
            t == fallback(),
    {
        Transition {
            publish: Some(WifiState::Disconnected),
            notice: Notice::ConnectFailed,
            command: Command::Sleep,
        }
    }
}

/// The monitor after the operation it waited for ended with `reply`.
pub open spec fn monitor_step(m: Monitor, reply: Reply) -> Monitor {
    let t = transition(m.pending, reply);
    Monitor {
        pending: t.command,
        online: match t.publish {
            Some(state) => state,
            None => m.online,
        },
    }
}

/// The monitor at process start: nothing is published yet, which reads as
/// `Disconnected`, and the first thing to do is to check the link.
pub open spec fn monitor_start() -> Monitor {
    Monitor { pending: Command::CheckLink, online: WifiState::Disconnected }
}

/// The monitor after its operations ended with `replies`, in their order.
pub open spec fn monitor_run(m: Monitor, replies: Seq<Reply>) -> Monitor
    decreases replies.len(),
{
    if replies.len() == 0 {
        m
    } else {
        monitor_step(monitor_run(m, replies.drop_last()), replies.last())
    }
}

/// The states that the monitor published while its operations ended with
/// `replies`, in the order in which it published them.
pub open spec fn publications(m: Monitor, replies: Seq<Reply>) -> Seq<WifiState>
    decreases replies.len(),
{
    if replies.len() == 0 {
        Seq::empty()
    } else {
        let before = publications(m, replies.drop_last());
        match transition(monitor_run(m, replies.drop_last()).pending, replies.last()).publish {
            Some(state) => before.push(state),
            None => before,
        }
    }
}

/// Whether the monitor is between two reconnect attempts: it lets the interval
/// pass, checks the link, or resets the driver after a failed attempt.
pub open spec fn between_attempts(pending: Command) -> bool {
    pending is Sleep || pending is CheckLink || pending is Disconnect
}

/// The state that readers see is the one that the monitor published last, and
/// `Disconnected` as long as it has published none.
pub proof fn law_state_is_last_published(replies: Seq<Reply>)
    ensures
        monitor_run(monitor_start(), replies).online == if publications(
            monitor_start(),
            replies,
        ).len() == 0 {
            WifiState::Disconnected
        } else {
            publications(monitor_start(), replies).last()
        },
    decreases replies.len(),
{
    if replies.len() > 0 {
        law_state_is_last_published(replies.drop_last());
    }
}

/// A failed step of a reconnect attempt ends the attempt: the monitor
/// publishes `Disconnected`, gives a notice of the failure, and is between
/// attempts afterwards.
pub proof fn law_failure_falls_back(m: Monitor, reply: Reply)
    requires
        m.pending is Start || m.pending is Connect || m.pending is WaitNetifUp || m.pending
            is QueryIpInfo || m.pending is Disconnect,
        reply is Failed,
    ensures
        transition(m.pending, reply).publish == Some(WifiState::Disconnected),
        transition(m.pending, reply).notice is ConnectFailed || transition(m.pending, reply).notice
            is IpInfoFailed,
        monitor_step(m, reply).online == WifiState::Disconnected,
        between_attempts(monitor_step(m, reply).pending),
{
}

/// Between two attempts the state stays `Disconnected`: from a monitor that is
/// between attempts and has published `Disconnected`, whatever the driver
/// answers, the state is `Disconnected` until a step begins the next attempt,
/// which is the only step that leaves the span and publishes `Connecting`.
pub proof fn law_disconnected_until_retry(m: Monitor, replies: Seq<Reply>)
    requires
        between_attempts(m.pending),
        m.online == WifiState::Disconnected,
        forall|k: int|
            0 <= k < replies.len() ==> #[trigger] transition(
                monitor_run(m, replies.take(k)).pending,
                replies[k],
            ).publish != Some(WifiState::Connecting),
    ensures
        between_attempts(monitor_run(m, replies).pending),
        monitor_run(m, replies).online == WifiState::Disconnected,
    decreases replies.len(),
{
    if replies.len() > 0 {
        let front = replies.drop_last();
        assert forall|k: int| 0 <= k < front.len() implies #[trigger] transition(
            monitor_run(m, front.take(k)).pending,
            front[k],
        ).publish != Some(WifiState::Connecting) by {
            assert(front.take(k) == replies.take(k));
            assert(front[k] == replies[k]);
        }
        law_disconnected_until_retry(m, front);
        let k = replies.len() - 1;
        assert(replies.take(k) == front);
        assert(transition(monitor_run(m, replies.take(k)).pending, replies[k]).publish != Some(
            WifiState::Connecting,
        ));
    }
}

/// The connectivity monitor.
pub struct Networking {
    pending: Command,
    online: WifiState,
}

impl View for Networking {
    type V = Monitor;

    closed spec fn view(&self) -> Monitor {
        Monitor { pending: self.pending, online: self.online }
    }
}

impl Networking {
    pub fn new() -> (net: Self)
        ensures
            net@ == monitor_start(),
    {
        Networking { pending: Command::CheckLink, online: WifiState::Disconnected }
    }

    /// The operation whose end the monitor waits for.
    pub fn pending(&self) -> (command: Command)
        ensures
            command == self@.pending,
    {
        self.pending
    }

    /// The state that the monitor published last.
    pub fn state(&self) -> (state: WifiState)
        ensures
            state == self@.online,
    {
        self.online
    }

    /// Takes in how the pending operation ended, and decides what follows.
    pub fn step(&mut self, reply: Reply) -> (t: Transition)
        ensures
            t == transition(old(self)@.pending, reply),
            final(self)@ == monitor_step(old(self)@, reply),
    {
        let failed = match reply {
            Reply::Failed => true,
            _ => false,
        };
        let t = match self.pending {
            Command::Sleep => Transition::quiet(Command::CheckLink),
            Command::CheckLink => match reply {
                Reply::Link(true) => Transition::quiet(Command::Sleep),
                _ => Transition {
                    publish: Some(WifiState::Connecting),
                    notice: Notice::LinkDown,
                    command: Command::Start,
                },
            },
            Command::Start => if failed {
                Transition::fallback()
            } else {
                Transition::quiet(Command::Connect)
            },
            Command::Connect => if failed {
                Transition::fallback()
            } else {
                Transition {
                    publish: Some(WifiState::AcquiringIp),
                    notice: Notice::ApReached,
                    command: Command::WaitNetifUp,
                }
            },
            Command::WaitNetifUp => if failed {
                Transition::fallback()
            } else {
                Transition::quiet(Command::QueryIpInfo)
            },
            Command::QueryIpInfo => match reply {
                Reply::Info(info) => Transition {
                    publish: Some(WifiState::Connected(info)),
                    notice: Notice::Connected,
                    command: Command::Sleep,
                },
                _ => Transition {
                    publish: Some(WifiState::Disconnected),
                    notice: Notice::IpInfoFailed,
                    command: Command::Disconnect,
                },
            },
            Command::Disconnect => if failed {
                Transition::fallback()
            } else {
                Transition::quiet(Command::Sleep)
            },
        };
        self.pending = t.command;
        match t.publish {
            Some(state) => {
                self.online = state;
            },
            None => {},
        }
        t
    }
}

} // verus!
