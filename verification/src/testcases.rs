//! A test of the network in which a tenth of the validators go down.

use vstd::prelude::*;

verus! {

/// The test that stops a tenth of the validators, runs traffic through the
/// others, and starts the stopped ones again.
#[derive(Clone, Copy, Debug, PartialEq, Eq)]
pub struct PartialNodesDown;

impl PartialNodesDown {
    /// The name under which the test reports.
    pub fn name(&self) -> (name: &'static str)
        ensures
            name@ == "10%-down"@,
    {
        "10%-down"
    }

    /// Splits the validators into those to stop (the first tenth, rounded
    /// down) and those that keep running (the rest), order kept.
    pub fn split_nodes<T>(&self, nodes: Vec<T>) -> (split: (Vec<T>, Vec<T>))
        ensures
            split.0@ == nodes@.subrange(0, (nodes@.len() / 10) as int),
            split.1@ == nodes@.subrange((nodes@.len() / 10) as int, nodes@.len() as int),
    {
        let mut down_nodes = nodes;
        let count: usize = down_nodes.len() / 10;
        let up_nodes = down_nodes.split_off(count);
        (down_nodes, up_nodes)
    }
}

/// The nodes stopped and those kept running are, together, all the nodes, in
/// their order.
pub proof fn lemma_split_covers_all<T>(nodes: Seq<T>)
    ensures
        nodes.subrange(0, (nodes.len() / 10) as int) + nodes.subrange((nodes.len() / 10) as int, nodes.len() as int)
            == nodes,
{
    assert(nodes.subrange(0, (nodes.len() / 10) as int) + nodes.subrange((nodes.len() / 10) as int, nodes.len() as int)
        =~= nodes);
}

} // verus!
