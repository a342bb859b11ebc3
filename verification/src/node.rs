//! The node services that the launchpad manages.

use std::path::PathBuf;
use vstd::prelude::*;

verus! {

/// What a node service was last known to do.
#[derive(Clone, Copy, Debug, PartialEq, Eq, Structural)]
pub enum ServiceStatus {
    /// Added, and never started.
    Added,
    /// Running.
    Running,
    /// Stopped.
    Stopped,
    /// Removed from the machine; only its registry entry is left.
    Removed,
}

impl ServiceStatus {
    /// The status in one word.
    pub open spec fn word(self) -> Seq<char> {
        match self {
            ServiceStatus::Added => "Added"@,
            ServiceStatus::Running => "Running"@,
            ServiceStatus::Stopped => "Stopped"@,
            ServiceStatus::Removed => "Removed"@,
        }
    }

    /// The status in one word.
    pub fn label(self) -> (res: String)
        ensures
            res@ == self.word(),
    {
        match self {
            ServiceStatus::Added => "Added".to_string(),
            ServiceStatus::Running => "Running".to_string(),
            ServiceStatus::Stopped => "Stopped".to_string(),
            ServiceStatus::Removed => "Removed".to_string(),
        }
    }
}

/// The address of a node's RPC server.
#[derive(Clone, Copy, Debug, PartialEq, Eq)]
pub enum RpcAddress {
    /// An IPv4 address and a port.
    V4 { octets: [u8; 4], port: u16 },
    /// An IPv6 address, a port, and the flow information and scope of the socket.
    V6 { segments: [u16; 8], port: u16, flowinfo: u32, scope_id: u32 },
}

/// A node service, as the registry describes it.
#[derive(Debug, PartialEq, Eq)]
pub struct NodeServiceData {
    /// The name under which the service is managed.
    pub service_name: String,
    /// The node's identity on the network, in text, once the node has run.
    pub peer_id: Option<String>,
    /// What the service was last known to do.
    pub status: ServiceStatus,
    /// Where the node answers RPC calls.
    pub rpc_socket_addr: RpcAddress,
    /// Where the node keeps its data.
    pub data_dir_path: PathBuf,
}

impl NodeServiceData {
    /// Whether the service runs.
    pub open spec fn is_running(self) -> bool {
        self.status == ServiceStatus::Running
    }

    /// Whether the service is still on the machine.
    pub open spec fn is_present(self) -> bool {
        self.status != ServiceStatus::Removed
    }
}

/// The texts of a sequence of strings.
pub open spec fn texts(strings: Seq<String>) -> Seq<Seq<char>> {
    strings.map_values(|s: String| s@)
}

/// The nodes that run, in order.
pub open spec fn running(nodes: Seq<NodeServiceData>) -> Seq<NodeServiceData> {
    nodes.filter(|n: NodeServiceData| n.is_running())
}

/// The nodes that were not removed, in order.
pub open spec fn present(nodes: Seq<NodeServiceData>) -> Seq<NodeServiceData> {
    nodes.filter(|n: NodeServiceData| n.is_present())
}

/// The names of the running nodes, in order.
pub open spec fn running_names(nodes: Seq<NodeServiceData>) -> Seq<Seq<char>> {
    running(nodes).map_values(|n: NodeServiceData| n.service_name@)
}

/// No removed node is among `nodes`.
pub open spec fn none_removed(nodes: Seq<NodeServiceData>) -> bool {
    forall|i: int| 0 <= i < nodes.len() ==> (#[trigger] nodes[i]).is_present()
}

/// Filtering one element more either appends that element or changes nothing.
pub(crate) proof fn lemma_filter_step<T>(s: Seq<T>, i: int, keep: spec_fn(T) -> bool)
    requires
        0 <= i < s.len(),
    ensures
        s.take(i + 1).filter(keep) == (if keep(s[i]) {
            s.take(i).filter(keep).push(s[i])
        } else {
            s.take(i).filter(keep)
        }),
{
    reveal(Seq::filter);
    assert(s.take(i + 1).drop_last() =~= s.take(i));
}

/// Keeps the nodes that were not removed.
pub fn keep_present(nodes: Vec<NodeServiceData>) -> (res: Vec<NodeServiceData>)
    ensures
        res@ == present(nodes@),
        none_removed(res@),
{
    let ghost all = nodes@;
    let ghost keep = |n: NodeServiceData| n.is_present();
    let mut kept: Vec<NodeServiceData> = Vec::new();
    proof {
        assert(all.take(0).filter(keep) =~= Seq::<NodeServiceData>::empty()) by {
            reveal(Seq::filter);
        }
    }
    for node in it: nodes.into_iter()
        invariant
            it.seq() == all,
            keep == (|n: NodeServiceData| n.is_present()),
            kept@ == all.take(it.index()).filter(keep),
            none_removed(kept@),
    {
        proof {
            lemma_filter_step(all, it.index(), keep);
        }
        if node.status != ServiceStatus::Removed {
            kept.push(node);
        }
    }
    assert(all.take(all.len() as int) =~= all);
    kept
}

/// The names of the running nodes, in order.
pub fn names_of_running(nodes: &Vec<NodeServiceData>) -> (res: Vec<String>)
    ensures
        texts(res@) == running_names(nodes@),
{
    let ghost keep = |n: NodeServiceData| n.is_running();
    let ghost name = |n: NodeServiceData| n.service_name@;
    let mut names: Vec<String> = Vec::new();
    let mut i: usize = 0;
    proof {
        reveal(Seq::filter);
        assert(texts(names@) =~= nodes@.take(0).filter(keep).map_values(name));
    }
    while i < nodes.len()
        invariant
            i <= nodes.len(),
            keep == (|n: NodeServiceData| n.is_running()),
            name == (|n: NodeServiceData| n.service_name@),
            texts(names@) == nodes@.take(i as int).filter(keep).map_values(name),
        decreases nodes.len() - i,
    {
        let ghost before = names@;
        proof {
            lemma_filter_step(nodes@, i as int, keep);
        }
        if nodes[i].status == ServiceStatus::Running {
            names.push(nodes[i].service_name.clone());
            proof {
                let done = nodes@.take(i as int).filter(keep);
                assert(texts(names@) =~= texts(before).push(nodes@[i as int].service_name@));
                assert(done.push(nodes@[i as int]).map_values(name) =~= done.map_values(name).push(
                    nodes@[i as int].service_name@,
                ));
            }
        }
        i += 1;
    }
    assert(nodes@.take(nodes@.len() as int) =~= nodes@);
    names
}

} // verus!
