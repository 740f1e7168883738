//! What the proxy is started with.

use vstd::prelude::*;

verus! {

/// The size of the copy buffer where none is asked for: 128 KiB.
pub const DEFAULT_COPY_BUF: usize = 131072;

/// The host part of an address.
#[derive(Clone, Copy, Debug, PartialEq, Eq)]
pub enum Host {
    /// The four octets of an IPv4 address.
    V4([u8; 4]),
    /// The eight segments of an IPv6 address.
    V6([u16; 8]),
}

/// A host and a port.
#[derive(Clone, Copy, Debug, PartialEq, Eq)]
pub struct Endpoint {
    pub host: Host,
    pub port: u16,
}

/// The configuration of the proxy. It is given once and applies to every
/// connection alike.
#[derive(Clone, Debug, PartialEq, Eq)]
pub struct Args {
    /// The address to listen on.
    pub bind: Endpoint,
    /// The address to relay to.
    pub target: Endpoint,
    /// The receive-buffer size to ask of each socket, in bytes.
    pub recv_buf: Option<usize>,
    /// The send-buffer size to ask of each socket, in bytes.
    pub send_buf: Option<usize>,
    /// The congestion-control algorithm to ask of each socket.
    pub congestion_controller: Option<String>,
    /// The size of each copy buffer, in bytes.
    pub copy_buf: usize,
}

/// One socket option to apply, with the value asked for.
#[derive(Debug, PartialEq, Eq)]
pub enum Tuning {
    SendBuffer(usize),
    ReceiveBuffer(usize),
    Congestion(String),
}

/// A tuning as a mathematical value.
pub ghost enum TuningView {
    SendBuffer(nat),
    ReceiveBuffer(nat),
    Congestion(Seq<char>),
}

impl View for Tuning {
    type V = TuningView;

    open spec fn view(&self) -> TuningView {
        match *self {
            Tuning::SendBuffer(size) => TuningView::SendBuffer(size as nat),
            Tuning::ReceiveBuffer(size) => TuningView::ReceiveBuffer(size as nat),
            Tuning::Congestion(name) => TuningView::Congestion(name@),
        }
    }
}

impl Args {
    /// The options that this configuration asks for, in the order in which
    /// they are applied: send buffer, receive buffer, congestion control.
    pub open spec fn plan(&self) -> Seq<TuningView> {
        let send = match self.send_buf {
            Some(size) => seq![TuningView::SendBuffer(size as nat)],
            None => seq![],
        };
        let recv = match self.recv_buf {
            Some(size) => seq![TuningView::ReceiveBuffer(size as nat)],
            None => seq![],
        };
        let congestion = match self.congestion_controller {
            Some(name) => seq![TuningView::Congestion(name@)],
            None => seq![],
        };
        send + recv + congestion
    }

    /// A configuration with no socket option asked for and the default copy
    /// buffer.
    pub fn new(bind: Endpoint, target: Endpoint) -> (args: Args)
        ensures
            args.bind == bind,
            args.target == target,
            args.recv_buf is None,
            args.send_buf is None,
            args.congestion_controller is None,
            args.copy_buf == DEFAULT_COPY_BUF,
            args.plan() == Seq::<TuningView>::empty(),
    {
        Args {
            bind,
            target,
            recv_buf: None,
            send_buf: None,
            congestion_controller: None,
            copy_buf: DEFAULT_COPY_BUF,
        }
    }

    /// The options to apply to each socket, in order.
    pub fn tunings(&self) -> (plan: Vec<Tuning>)
        ensures
            plan@.len() == self.plan().len(),
            forall|i: int| 0 <= i < plan@.len() ==> (#[trigger] plan@[i])@ == self.plan()[i],
    {
        let mut plan: Vec<Tuning> = Vec::new();
        if let Some(size) = self.send_buf {
            plan.push(Tuning::SendBuffer(size));
        }
        if let Some(size) = self.recv_buf {
            plan.push(Tuning::ReceiveBuffer(size));
        }
        if let Some(name) = &self.congestion_controller {
            plan.push(Tuning::Congestion(name.clone()));
        }
        plan
    }
}

} // verus!
