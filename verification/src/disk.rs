//! A model of the disk, to say what a run leaves behind.
//!
//! The disk is the set of paths at which something exists. The model says
//! what each action may do to it, as far as the driver's report tells. It is
//! used in proofs only: a run never sees the disk, it sees events.

use crate::steps::{ActionView, EventView};
use vstd::prelude::*;

verus! {

/// The one path that `action` may create, change or remove, if it has one.
pub open spec fn target(action: ActionView) -> Option<Seq<char>> {
    match action {
        ActionView::CreateDir { path } => Some(path),
        ActionView::Download { url, path } => Some(path),
        ActionView::Transcode { job } => Some(job.output),
        ActionView::Remove { path } => Some(path),
        ActionView::Discard { path } => Some(path),
        _ => None,
    }
}

/// The action puts something at its target.
pub open spec fn creates(action: ActionView) -> bool {
    action is CreateDir || action is Download || action is Transcode
}

/// The driver, handed `action` with the disk as `before`, may report `event`
/// and leave the disk as `after`.
///
/// - A probe is answered with the truth.
/// - An action that was carried out has put its target there, or taken it
///   away.
/// - An action that failed, or was answered with something else, may have
///   left its target in either state: a download or the transcoder may have
///   written a part of it.
/// - No action touches any path but its target.
pub open spec fn may_follow(
    before: Set<Seq<char>>,
    action: ActionView,
    event: EventView,
    after: Set<Seq<char>>,
) -> bool {
    &&& action matches ActionView::Probe { path } ==> (event matches EventView::Exists(found)
        ==> found == before.contains(path))
    &&& match target(action) {
        Some(path) => {
            &&& after.remove(path) == before.remove(path)
            &&& event is Done ==> after.contains(path) == creates(action)
        },
        None => after == before,
    }
}

} // verus!
