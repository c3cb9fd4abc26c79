//! The control channel's decisions: which notifications concern which engine,
//! what to ask the controller, and which fetched commands go to the engines.
use crate::conf::{is_valid_uri, uri_accepted, ConfError};
use crate::retry::{register_retry_secs, REGISTER_RETRY_MAX_SECS, REGISTER_RETRY_MIN_SECS};
use crate::structures::{
    fping_converted, fping_entry_valid, ping_converted, ping_entry_valid, tcp_converted, tcp_entry_valid,
    FPingCommand, GrpcFpingCommand, GrpcPingCommand, GrpcTcpPingCommand, IpAddress, PingCommand, TcpPingCommand,
};
use vstd::prelude::*;

verus! {

/// Capacity of the broadcast channel that fans notifications out.
pub const UPDATE_CHANNEL_CAPACITY: usize = 16;

/// Capacity of each channel from the control channel to an engine.
pub const COMMAND_CHANNEL_CAPACITY: usize = 16;

/// The probe kind that a notification concerns.
#[derive(Clone, Copy, Debug, PartialEq, Eq, Structural)]
pub enum CommandType {
    Ping,
    TcpPing,
    Fping,
}

/// The wire code of each probe kind.
pub open spec fn type_code(t: CommandType) -> i32 {
    match t {
        CommandType::Ping => 0,
        CommandType::TcpPing => 1,
        CommandType::Fping => 2,
    }
}

impl CommandType {
    pub fn code(self) -> (r: i32)
        ensures
            r == type_code(self),
    {
        match self {
            CommandType::Ping => 0,
            CommandType::TcpPing => 1,
            CommandType::Fping => 2,
        }
    }

    /// The kind with the given wire code; none for an unknown code.
    pub fn from_code(code: i32) -> (r: Option<CommandType>)
        ensures
            r matches Some(t) ==> type_code(t) == code,
            r.is_none() ==> forall|t: CommandType| type_code(t) != code,
    {
        if code == 0 {
            Some(CommandType::Ping)
        } else if code == 1 {
            Some(CommandType::TcpPing)
        } else if code == 2 {
            Some(CommandType::Fping)
        } else {
            None
        }
    }
}

/// "Commands of this kind changed": what the controller streams.
#[derive(Clone, Debug)]
pub struct UpdateNotification {
    pub command_type: i32,
    pub version: String,
}

/// A request for the current commands of one version.
#[derive(Clone, Debug)]
pub struct CommandReq {
    pub agent_id: u32,
    pub version: String,
}

/// The indices `i < n` for which `keep(i)` holds, in increasing order.
pub open spec fn kept(keep: spec_fn(int) -> bool, n: nat) -> Seq<int>
    decreases n,
{
    if n == 0 {
        Seq::empty()
    } else if keep(n - 1) {
        kept(keep, (n - 1) as nat).push(n - 1)
    } else {
        kept(keep, (n - 1) as nat)
    }
}

/// The entries of an ICMP command list that can run, by index.
pub open spec fn ping_kept(items: Seq<GrpcPingCommand>, ips: Seq<Option<IpAddress>>) -> Seq<int> {
    kept(|i: int| ping_entry_valid(items[i], ips[i]), items.len())
}

/// The entries of a TCP-connect command list that can run, by index.
pub open spec fn tcp_kept(items: Seq<GrpcTcpPingCommand>) -> Seq<int> {
    kept(|i: int| tcp_entry_valid(items[i]), items.len())
}

/// The entries of a fast-ping list that can be probed, by index.
pub open spec fn fping_kept(items: Seq<GrpcFpingCommand>, ips: Seq<Option<IpAddress>>) -> Seq<int> {
    kept(|i: int| fping_entry_valid(items[i], ips[i]), items.len())
}

/// The control channel of one agent: it registers with the controller and
/// hands out one `Commander` per engine.
#[derive(Clone, Debug)]
pub struct SuperCommander {
    pub agent_id: u32,
    pub controller_add: String,
}

impl SuperCommander {
    /// A control channel to the controller at `controller_add`, which must be
    /// a URI.
    pub fn new(controller_add: &str, agent_id: u32) -> (r: Result<SuperCommander, ConfError>)
        ensures
            uri_accepted(controller_add@) <==> r.is_ok(),
            r matches Ok(c) ==> c.controller_add@ == controller_add@ && c.agent_id == agent_id,
            r matches Err(e) ==> e == ConfError::ControllerUrl,
    {
        if is_valid_uri(controller_add) {
            Ok(SuperCommander { agent_id, controller_add: controller_add.to_owned() })
        } else {
            Err(ConfError::ControllerUrl)
        }
    }

    /// A subscriber for one engine.
    pub fn build_commander(&self) -> (c: Commander)
        ensures
            c.agent_id == self.agent_id,
    {
        Commander { agent_id: self.agent_id }
    }
}

/// The subscriber that turns notifications into command sets for one engine.
#[derive(Clone, Copy, Debug, PartialEq, Eq, Structural)]
pub struct Commander {
    pub agent_id: u32,
}

impl Commander {
    /// The request for the commands of `version`.
    pub fn build_command_req(&self, version: String) -> (r: CommandReq)
        ensures
            r.agent_id == self.agent_id,
            r.version@ == version@,
    {
        CommandReq { agent_id: self.agent_id, version }
    }

    /// What a notification asks of the subscriber for probe kind `kind`: a
    /// fetch of the notified version when it concerns that kind, nothing
    /// otherwise.
    pub fn on_notification(&self, n: &UpdateNotification, kind: CommandType) -> (r: Option<CommandReq>)
        ensures
            r.is_some() == (n.command_type == type_code(kind)),
            r matches Some(req) ==> req.agent_id == self.agent_id && req.version@ == n.version@,
    {
        if n.command_type == kind.code() {
            Some(self.build_command_req(n.version.clone()))
        } else {
            None
        }
    }

    /// The ICMP commands of a fetched list, given each entry's parsed address:
    /// the entries that can run, in list order. The others are dropped.
    pub fn build_ping_commands(items: &Vec<GrpcPingCommand>, ips: &Vec<Option<IpAddress>>) -> (r: Vec<PingCommand>)
        requires
            items.len() == ips.len(),
        ensures
            r.len() == ping_kept(items@, ips@).len(),
            forall|j: int|
                0 <= j < r.len() ==> {
                    let k = ping_kept(items@, ips@)[j];
                    ping_converted(items@[k], ips@[k].unwrap(), #[trigger] r@[j])
                },
    {
        let ghost keep = |i: int| ping_entry_valid(items@[i], ips@[i]);
        let mut out: Vec<PingCommand> = Vec::with_capacity(items.len());
        let mut i: usize = 0;
        while i < items.len()
            invariant
                i <= items.len(),
                items.len() == ips.len(),
                keep == (|i: int| ping_entry_valid(items@[i], ips@[i])),
                out.len() == kept(keep, i as nat).len(),
                forall|j: int|
                    0 <= j < out.len() ==> {
                        let k = kept(keep, i as nat)[j];
                        ping_converted(items@[k], ips@[k].unwrap(), #[trigger] out@[j])
                    },
            decreases items.len() - i,
        {
            let c = PingCommand::from_wire(&items[i], ips[i]);
            if let Some(c) = c {
                out.push(c);
            }
            i += 1;
        }
        out
    }

    /// The TCP-connect commands of a fetched list: the entries that can run,
    /// in list order.
    pub fn build_tcp_ping_commands(items: &Vec<GrpcTcpPingCommand>) -> (r: Vec<TcpPingCommand>)
        ensures
            r.len() == tcp_kept(items@).len(),
            forall|j: int| 0 <= j < r.len() ==> tcp_converted(items@[tcp_kept(items@)[j]], #[trigger] r@[j]),
    {
        let ghost keep = |i: int| tcp_entry_valid(items@[i]);
        let mut out: Vec<TcpPingCommand> = Vec::with_capacity(items.len());
        let mut i: usize = 0;
        while i < items.len()
            invariant
                i <= items.len(),
                keep == (|i: int| tcp_entry_valid(items@[i])),
                out.len() == kept(keep, i as nat).len(),
                forall|j: int| 0 <= j < out.len() ==> tcp_converted(items@[kept(keep, i as nat)[j]], #[trigger] out@[j]),
            decreases items.len() - i,
        {
            let c = TcpPingCommand::from_wire(&items[i]);
            if let Some(c) = c {
                out.push(c);
            }
            i += 1;
        }
        out
    }

    /// The fast-ping targets of a fetched list, given each entry's parsed
    /// address: the entries that can be probed, in list order.
    pub fn build_fping_commands(items: &Vec<GrpcFpingCommand>, ips: &Vec<Option<IpAddress>>) -> (r: Vec<FPingCommand>)
        requires
            items.len() == ips.len(),
        ensures
            r.len() == fping_kept(items@, ips@).len(),
            forall|j: int|
                0 <= j < r.len() ==> {
                    let k = fping_kept(items@, ips@)[j];
                    fping_converted(items@[k], ips@[k].unwrap(), #[trigger] r@[j])
                },
    {
        let ghost keep = |i: int| fping_entry_valid(items@[i], ips@[i]);
        let mut out: Vec<FPingCommand> = Vec::with_capacity(items.len());
        let mut i: usize = 0;
        while i < items.len()
            invariant
                i <= items.len(),
                items.len() == ips.len(),
                keep == (|i: int| fping_entry_valid(items@[i], ips@[i])),
                out.len() == kept(keep, i as nat).len(),
                forall|j: int|
                    0 <= j < out.len() ==> {
                        let k = kept(keep, i as nat)[j];
                        fping_converted(items@[k], ips@[k].unwrap(), #[trigger] out@[j])
                    },
            decreases items.len() - i,
        {
            let c = FPingCommand::from_wire(&items[i], ips[i]);
            if let Some(c) = c {
                out.push(c);
            }
            i += 1;
        }
        out
    }
}

/// Where the subscription to the controller stands.
#[derive(Clone, Copy, Debug, PartialEq, Eq, Structural)]
pub enum LinkState {
    /// A registration call is due.
    Registering,
    /// The notification stream is open.
    Subscribed,
    /// Waiting before registering again.
    Waiting,
}

/// What happened on the subscription.
#[derive(Clone, Copy, Debug, PartialEq, Eq, Structural)]
pub enum LinkEvent {
    /// The registration call opened a stream.
    Registered,
    /// The registration call failed.
    RegisterFailed,
    /// A notification arrived on the stream.
    Notified,
    /// The stream broke or the controller closed it.
    StreamLost,
    /// The wait is over.
    WaitOver,
}

/// What the driver of the subscription does next.
#[derive(Clone, Copy, Debug, PartialEq, Eq, Structural)]
pub enum LinkAction {
    /// Call the controller's registration.
    Register,
    /// Read the next notification from the stream.
    Listen,
    /// Hand the notification to the subscribers, then read the next one.
    Forward,
    /// Sleep this many seconds.
    Wait { secs: u64 },
    /// The event cannot happen in this state; nothing changes.
    Ignore,
}

/// The state after `e` in state `s`.
pub open spec fn link_next(s: LinkState, e: LinkEvent) -> LinkState {
    match (s, e) {
        (LinkState::Registering, LinkEvent::Registered) => LinkState::Subscribed,
        (LinkState::Registering, LinkEvent::RegisterFailed) => LinkState::Waiting,
        (LinkState::Subscribed, LinkEvent::StreamLost) => LinkState::Waiting,
        (LinkState::Waiting, LinkEvent::WaitOver) => LinkState::Registering,
        _ => s,
    }
}

/// Whether `a` is the action for `e` in state `s`. Every failure and every
/// loss of the stream is followed by a wait of 5 to 15 seconds.
pub open spec fn link_action_fits(s: LinkState, e: LinkEvent, a: LinkAction) -> bool {
    match (s, e) {
        (LinkState::Registering, LinkEvent::Registered) => a == LinkAction::Listen,
        (LinkState::Registering, LinkEvent::RegisterFailed) | (LinkState::Subscribed, LinkEvent::StreamLost) => {
            a matches LinkAction::Wait { secs } && REGISTER_RETRY_MIN_SECS <= secs <= REGISTER_RETRY_MAX_SECS
        },
        (LinkState::Subscribed, LinkEvent::Notified) => a == LinkAction::Forward,
        (LinkState::Waiting, LinkEvent::WaitOver) => a == LinkAction::Register,
        _ => a == LinkAction::Ignore,
    }
}

/// The subscription to the controller: registration, the stream, and the
/// randomised wait after each failure, retried for as long as the agent runs.
#[derive(Clone, Copy, Debug, PartialEq, Eq, Structural)]
pub struct ControlLink {
    pub state: LinkState,
}

impl ControlLink {
    /// A link about to register.
    pub fn new() -> (l: ControlLink)
        ensures
            l.state == LinkState::Registering,
    {
        ControlLink { state: LinkState::Registering }
    }

    /// Takes an event and says what to do next.
    pub fn on_event(&mut self, e: LinkEvent) -> (a: LinkAction)
        ensures
            final(self).state == link_next(old(self).state, e),
            link_action_fits(old(self).state, e, a),
    {
        match (self.state, e) {
            (LinkState::Registering, LinkEvent::Registered) => {
                self.state = LinkState::Subscribed;
                LinkAction::Listen
            },
            (LinkState::Registering, LinkEvent::RegisterFailed) | (LinkState::Subscribed, LinkEvent::StreamLost) => {
                self.state = LinkState::Waiting;
                LinkAction::Wait { secs: register_retry_secs() }
            },
            (LinkState::Subscribed, LinkEvent::Notified) => LinkAction::Forward,
            (LinkState::Waiting, LinkEvent::WaitOver) => {
                self.state = LinkState::Registering;
                LinkAction::Register
            },
            _ => LinkAction::Ignore,
        }
    }
}

/// After a lost stream the link registers again, and only after one wait of 5
/// to 15 seconds: the loss leads to waiting, and waiting leads back to
/// registering and nowhere else.
pub proof fn lemma_loss_then_reregister(e: LinkEvent)
    ensures
        link_next(LinkState::Subscribed, LinkEvent::StreamLost) == LinkState::Waiting,
        link_next(LinkState::Registering, LinkEvent::RegisterFailed) == LinkState::Waiting,
        link_next(LinkState::Waiting, e) == LinkState::Registering <==> e == LinkEvent::WaitOver,
        link_next(LinkState::Waiting, e) == LinkState::Registering || link_next(LinkState::Waiting, e)
            == LinkState::Waiting,
{
}

} // verus!
