//! What the running nodes have earned and used.

use crate::action::Action;
use crate::node::{lemma_filter_step, running, NodeServiceData, RpcAddress, ServiceStatus};
use std::path::PathBuf;
use tokio::sync::mpsc::UnboundedSender;
use vstd::prelude::*;

verus! {

/// How long the statistics stay as they are before they are collected again, in
/// nanoseconds.
pub const NODE_STAT_UPDATE_INTERVAL: u128 = 5_000_000_000;

/// Statistics over all the running nodes.
#[derive(Clone, Copy, Debug, PartialEq, Eq, Structural)]
pub struct NodeStats {
    pub nanos_earned: usize,
    pub space_allocated: usize,
    pub memory_usage: usize,
    pub network_usage: usize,
    /// When the statistics were last collected, in nanoseconds on a monotonic clock.
    pub last_update: u128,
}

/// The nodes to ask for their statistics, and where the answers go.
pub struct StatsFetch {
    /// RPC address and data directory of each node.
    pub targets: Vec<(RpcAddress, PathBuf)>,
    /// Takes the actions that report the answers.
    pub action_sender: UnboundedSender<Action>,
}

/// Where a node is asked for its statistics.
pub open spec fn stat_target(node: NodeServiceData) -> (RpcAddress, PathBuf) {
    (node.rpc_socket_addr, node.data_dir_path)
}

impl NodeStats {
    /// The statistics at time `now`, before anything was collected.
    pub open spec fn none_yet(now: u128) -> NodeStats {
        NodeStats {
            nanos_earned: 0,
            space_allocated: 0,
            memory_usage: 0,
            network_usage: 0,
            last_update: now,
        }
    }

    /// Whether more than the interval has passed at time `now`. A clock that went
    /// backwards shows no time as passed.
    pub open spec fn due(self, now: u128) -> bool {
        now - self.last_update > NODE_STAT_UPDATE_INTERVAL
    }

    /// The statistics at time `now`, before anything was collected.
    pub fn new(now: u128) -> (res: NodeStats)
        ensures
            res == NodeStats::none_yet(now),
    {
        NodeStats {
            nanos_earned: 0,
            space_allocated: 0,
            memory_usage: 0,
            network_usage: 0,
            last_update: now,
        }
    }

    /// Whether the statistics are to be collected again at time `now`.
    pub fn is_due(&self, now: u128) -> (res: bool)
        ensures
            res == self.due(now),
    {
        now.saturating_sub(self.last_update) > NODE_STAT_UPDATE_INTERVAL
    }

    /// Picks the running nodes out of `nodes`, in order, to ask each for its statistics.
    pub fn fetch_all_node_stats(
        nodes: &Vec<NodeServiceData>,
        action_sender: UnboundedSender<Action>,
    ) -> (res: StatsFetch)
        ensures
            res.targets@ == running(nodes@).map_values(|n: NodeServiceData| stat_target(n)),
            res.action_sender == action_sender,
    {
        let ghost keep = |n: NodeServiceData| n.is_running();
        let ghost target = |n: NodeServiceData| stat_target(n);
        let mut targets: Vec<(RpcAddress, PathBuf)> = Vec::new();
        let mut i: usize = 0;
        proof {
            reveal(Seq::filter);
            assert(targets@ =~= nodes@.take(0).filter(keep).map_values(target));
        }
        while i < nodes.len()
            invariant
                i <= nodes.len(),
                keep == (|n: NodeServiceData| n.is_running()),
                target == (|n: NodeServiceData| stat_target(n)),
                targets@ == nodes@.take(i as int).filter(keep).map_values(target),
            decreases nodes.len() - i,
        {
            proof {
                lemma_filter_step(nodes@, i as int, keep);
            }
            if nodes[i].status == ServiceStatus::Running {
                targets.push((nodes[i].rpc_socket_addr, nodes[i].data_dir_path.clone()));
                proof {
                    let done = nodes@.take(i as int).filter(keep);
                    assert(done.push(nodes@[i as int]).map_values(target) =~= done.map_values(
                        target,
                    ).push(stat_target(nodes@[i as int])));
                }
            }
            i += 1;
        }
        assert(nodes@.take(nodes@.len() as int) =~= nodes@);
        StatsFetch { targets, action_sender }
    }
}

} // verus!
