//! What holds of lists of nodes: which are known, which run, and what they are called.

use crate::node::{
    none_removed, present, running, running_names, texts, NodeServiceData, ServiceStatus,
};
use crate::stats::stat_target;
use vstd::prelude::*;

verus! {

/// The present nodes are those whose status is not Removed, in order: added and stopped ones
/// with the running ones.
pub proof fn law_present_nodes(nodes: Seq<NodeServiceData>, node: NodeServiceData)
    ensures
        present(nodes) == nodes.filter(|n: NodeServiceData| n.status != ServiceStatus::Removed),
        present(nodes).contains(node) <==> nodes.contains(node) && node.status
            != ServiceStatus::Removed,
{
    let keep = |n: NodeServiceData| n.is_present();
    assert(keep =~= (|n: NodeServiceData| n.status != ServiceStatus::Removed));
    if present(nodes).contains(node) {
        nodes.lemma_filter_contains_rev(keep, node);
        let k = choose|k: int| 0 <= k < present(nodes).len() && present(nodes)[k] == node;
        nodes.lemma_filter_pred(keep, k);
    }
    if nodes.contains(node) && node.status != ServiceStatus::Removed {
        let i = choose|i: int| 0 <= i < nodes.len() && nodes[i] == node;
        nodes.lemma_filter_contains(keep, i);
    }
}

/// One more node at the end is one more present node at the end, unless it was removed; and
/// no node is present where there is none.
pub proof fn law_present_grows(nodes: Seq<NodeServiceData>, node: NodeServiceData)
    ensures
        present(Seq::empty()) == Seq::<NodeServiceData>::empty(),
        node.status != ServiceStatus::Removed ==> present(nodes.push(node)) == present(nodes).push(
            node,
        ),
        node.status == ServiceStatus::Removed ==> present(nodes.push(node)) == present(nodes),
{
    reveal(Seq::filter);
    assert(nodes.push(node).drop_last() =~= nodes);
}

/// The names of the running nodes are the service names of those whose status is Running, in
/// order.
pub proof fn law_names_of_running(nodes: Seq<NodeServiceData>)
    ensures
        running(nodes) == nodes.filter(|n: NodeServiceData| n.status == ServiceStatus::Running),
        running_names(nodes) == nodes.filter(
            |n: NodeServiceData| n.status == ServiceStatus::Running,
        ).map_values(|n: NodeServiceData| n.service_name@),
{
    assert((|n: NodeServiceData| n.is_running()) =~= (|n: NodeServiceData|
        n.status == ServiceStatus::Running));
}

/// One more node at the end is one more name at the end if it runs, and one more place to
/// ask for statistics, which is its RPC address with its data directory; else it is neither.
pub proof fn law_running_grows(nodes: Seq<NodeServiceData>, node: NodeServiceData)
    ensures
        ({
            let target = |n: NodeServiceData| stat_target(n);
            let more = nodes.push(node);
            &&& running_names(Seq::empty()) == Seq::<Seq<char>>::empty()
            &&& node.status == ServiceStatus::Running ==> {
                &&& running_names(more) == running_names(nodes).push(node.service_name@)
                &&& running(more).map_values(target) == running(nodes).map_values(target).push(
                    (node.rpc_socket_addr, node.data_dir_path),
                )
            }
            &&& node.status != ServiceStatus::Running ==> {
                &&& running_names(more) == running_names(nodes)
                &&& running(more) == running(nodes)
            }
        }),
{
    reveal(Seq::filter);
    let more = nodes.push(node);
    assert(more.drop_last() =~= nodes);
    if node.is_running() {
        assert(running(more) =~= running(nodes).push(node));
        assert(running_names(more) =~= running_names(nodes).push(node.service_name@));
        let target = |n: NodeServiceData| stat_target(n);
        assert(running(more).map_values(target) =~= running(nodes).map_values(target).push(
            (node.rpc_socket_addr, node.data_dir_path),
        ));
    }
    assert(running_names(Seq::empty()) =~= Seq::<Seq<char>>::empty());
}

/// Statistics are asked of the running nodes alone, of each at its RPC address, with its
/// data directory, in order.
pub proof fn law_stat_targets(nodes: Seq<NodeServiceData>)
    ensures
        running(nodes).map_values(|n: NodeServiceData| stat_target(n)) == nodes.filter(
            |n: NodeServiceData| n.status == ServiceStatus::Running,
        ).map_values(|n: NodeServiceData| (n.rpc_socket_addr, n.data_dir_path)),
{
    law_names_of_running(nodes);
    assert((|n: NodeServiceData| stat_target(n)) =~= (|n: NodeServiceData|
        (n.rpc_socket_addr, n.data_dir_path)));
}

/// None of the nodes was removed if and only if each has another status.
pub proof fn law_none_removed(nodes: Seq<NodeServiceData>)
    ensures
        none_removed(nodes) <==> forall|i: int|
            0 <= i < nodes.len() ==> (#[trigger] nodes[i]).status != ServiceStatus::Removed,
{
    if forall|i: int|
        0 <= i < nodes.len() ==> (#[trigger] nodes[i]).status != ServiceStatus::Removed {
        assert forall|i: int| 0 <= i < nodes.len() implies (#[trigger] nodes[i]).is_present() by {
        }
    }
    if none_removed(nodes) {
        assert forall|i: int| 0 <= i < nodes.len() implies (#[trigger] nodes[i]).status
            != ServiceStatus::Removed by {
            assert(nodes[i].is_present());
        }
    }
}

/// A sequence of strings has the text of each string, in order.
pub proof fn law_texts_of_strings(strings: Seq<String>)
    ensures
        texts(strings).len() == strings.len(),
        forall|i: int| 0 <= i < strings.len() ==> #[trigger] texts(strings)[i] == strings[i]@,
{
}

/// Each status has its own word: the name of the status.
pub proof fn law_words(status: ServiceStatus)
    ensures
        status == ServiceStatus::Added ==> status.word() == "Added"@,
        status == ServiceStatus::Running ==> status.word() == "Running"@,
        status == ServiceStatus::Stopped ==> status.word() == "Stopped"@,
        status == ServiceStatus::Removed ==> status.word() == "Removed"@,
{
}

} // verus!
