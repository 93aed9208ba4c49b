//! Ports of a pod and the port forwards started to them.
use vstd::prelude::*;
use crate::text::{decimal_nat, push_char, push_str, u64_to_string};

verus! {

/// A detected port from a pod's container spec
#[derive(Debug, Clone)]
pub struct PodPort {
    pub container_name: String,
    pub port: u16,
    pub protocol: String,
    pub name: Option<String>,
}

/// The text a port is listed with: `container:port/protocol`, then ` (name)`
/// when the port is named.
pub open spec fn port_display(p: PodPort) -> Seq<char> {
    p.container_name@ + seq![':'] + decimal_nat(p.port as nat) + seq!['/'] + p.protocol@ + match p.name {
        Some(n) => seq![' ', '('] + n@ + seq![')'],
        None => Seq::empty(),
    }
}

impl PodPort {
    pub fn display(&self) -> (s: String)
        ensures
            s@ == port_display(*self),
    {
        let mut s = self.container_name.clone();
        push_char(&mut s, ':');
        let port = u64_to_string(self.port as u64);
        push_str(&mut s, port.as_str());
        push_char(&mut s, '/');
        push_str(&mut s, self.protocol.as_str());
        match &self.name {
            Some(n) => {
                push_char(&mut s, ' ');
                push_char(&mut s, '(');
                push_str(&mut s, n.as_str());
                push_char(&mut s, ')');
            },
            None => {},
        }
        s
    }
}

/// Status of a port forward
#[derive(Debug, Clone)]
pub enum PortForwardStatus {
    Active,
    Failed(String),
    Stopped,
}

/// The label of a port-forward status.
pub open spec fn status_label(s: PortForwardStatus) -> Seq<char> {
    match s {
        PortForwardStatus::Active => "Active"@,
        PortForwardStatus::Failed(msg) => "Failed: "@ + msg@,
        PortForwardStatus::Stopped => "Stopped"@,
    }
}

impl PortForwardStatus {
    pub fn label(&self) -> (s: String)
        ensures
            s@ == status_label(*self),
    {
        match self {
            PortForwardStatus::Active => "Active".to_owned(),
            PortForwardStatus::Failed(msg) => {
                let mut s = "Failed: ".to_owned();
                push_str(&mut s, msg.as_str());
                s
            },
            PortForwardStatus::Stopped => "Stopped".to_owned(),
        }
    }
}

/// A tracked port-forward entry
#[derive(Debug, Clone)]
pub struct PortForwardEntry {
    pub id: u64,
    pub pod_name: String,
    pub namespace: String,
    pub local_port: u16,
    pub remote_port: u16,
    pub status: PortForwardStatus,
    pub started_at: String,
}

} // verus!
