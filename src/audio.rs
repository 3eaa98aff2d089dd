use vstd::prelude::*;

verus! {

#[verifier::external_type_specification]
#[verifier::external_body]
pub struct ExManager(firefly_audio::Manager);

#[verifier::external_type_specification]
#[verifier::external_body]
pub struct ExNode(firefly_audio::Node);

/// Why an audio node could not be reached or added.
#[derive(Clone, Copy, Debug, PartialEq, Eq, Structural)]
pub enum AudioError {
    TooManyChildren,
    TooManyNodes,
    UnknownId(u32),
}

/// The outcome of an operation on a node.
pub type AudioResult = Result<(), AudioError>;

/// A node found by its id, or why it was not.
pub type NodeLookup<'a> = Result<&'a mut firefly_audio::Node, AudioError>;

/// The path from the root to each node of the audio tree, by node id.
pub uninterp spec fn node_paths(m: firefly_audio::Manager) -> Seq<Seq<u8>>;

/// Relies on `firefly_audio::Manager::new`: a new tree holds the root
/// alone, at the empty path.
#[verifier::external_body]
pub fn new_audio() -> (r: firefly_audio::Manager)
    ensures
        node_paths(r) == seq![Seq::<u8>::empty()],
{
    firefly_audio::Manager::new()
}

/// Relies on `firefly_audio::Manager::get_node`: it finds a node exactly
/// when its id is below the number of nodes, and reports the id otherwise.
#[verifier::external_body]
fn node_of<'a>(m: &'a mut firefly_audio::Manager, id: u32) -> (r: NodeLookup<'a>)
    ensures
        r is Ok <==> (id as int) < node_paths(*old(m)).len(),
        r is Err ==> r == NodeLookup::Err(AudioError::UnknownId(id)),
{
    match m.get_node(id) {
        Ok(node) => Ok(node),
        Err(firefly_audio::NodeError::TooManyChildren) => Err(AudioError::TooManyChildren),
        Err(firefly_audio::NodeError::TooManyNodes) => Err(AudioError::TooManyNodes),
        Err(firefly_audio::NodeError::UnknownID(i)) => Err(AudioError::UnknownId(i)),
    }
}

/// Relies on `firefly_audio::Node::reset`: it puts the node's processor
/// and modulator back to their first state.
#[verifier::external_body]
fn reset_node(n: &mut firefly_audio::Node) {
    n.reset()
}

/// Relies on `firefly_audio::Node::reset_all`: it resets the node and all
/// the nodes under it.
#[verifier::external_body]
fn reset_subtree(n: &mut firefly_audio::Node) {
    n.reset_all()
}

/// Whether `p` lies strictly under the node at `path`.
pub open spec fn below(p: Seq<u8>, path: Seq<u8>) -> bool {
    p.len() > path.len() && p.subrange(0, path.len() as int) == path
}

/// Relies on `firefly_audio::Manager::clear`: an unknown id is reported and
/// changes nothing; otherwise the node loses its children, and the tree
/// forgets every path under it.
#[verifier::external_body]
fn clear_node(m: &mut firefly_audio::Manager, id: u32) -> (r: AudioResult)
    ensures
        r is Ok <==> (id as int) < node_paths(*old(m)).len(),
        r is Err ==> r == AudioResult::Err(AudioError::UnknownId(id)) && node_paths(*final(m))
            == node_paths(*old(m)),
        r is Ok ==> node_paths(*final(m)) == node_paths(*old(m)).filter(
            |p: Seq<u8>| !below(p, node_paths(*old(m))[id as int]),
        ),
{
    match m.clear(id) {
        Ok(()) => Ok(()),
        Err(firefly_audio::NodeError::TooManyChildren) => Err(AudioError::TooManyChildren),
        Err(firefly_audio::NodeError::TooManyNodes) => Err(AudioError::TooManyNodes),
        Err(firefly_audio::NodeError::UnknownID(i)) => Err(AudioError::UnknownId(i)),
    }
}

/// Reset the node `id`, or only the node when `all` is off, or it and all
/// the nodes under it when `all` is on.
pub fn reset(m: &mut firefly_audio::Manager, id: u32, all: bool) -> (r: AudioResult)
    ensures
        r is Ok <==> (id as int) < node_paths(*old(m)).len(),
        r is Err ==> r == AudioResult::Err(AudioError::UnknownId(id)),
{
    match node_of(m, id) {
        Ok(node) => {
            if all {
                reset_subtree(node);
            } else {
                reset_node(node);
            }
            Ok(())
        },
        Err(e) => Err(e),
    }
}

/// Remove all children of the node `id`.
pub fn clear(m: &mut firefly_audio::Manager, id: u32) -> (r: AudioResult)
    ensures
        r is Ok <==> (id as int) < node_paths(*old(m)).len(),
        r is Err ==> r == AudioResult::Err(AudioError::UnknownId(id)) && node_paths(*final(m))
            == node_paths(*old(m)),
        r is Ok ==> node_paths(*final(m)) == node_paths(*old(m)).filter(
            |p: Seq<u8>| !below(p, node_paths(*old(m))[id as int]),
        ),
{
    clear_node(m, id)
}

} // verus!
