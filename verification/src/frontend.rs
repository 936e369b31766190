use vstd::prelude::*;
use crate::num::Bounds;
use crate::params::Input;
use crate::queue::{EnqueueRequest, Job};
use crate::tag::{spec_tag, tag_of};
use crate::validate::{spec_check, ValidationError};

verus! {

/// The greeting of the service root.
pub fn hello() -> (r: String)
    ensures
        r@ == "KVFinder Web"@,
{
    String::from_str("KVFinder Web")
}

/// The queue id a tag resolves to: the last of the ids the queue service
/// lists under the tag, or nothing when the tag is unknown.
pub fn last_queue_id(ids: &Vec<u32>) -> (r: Option<u32>)
    ensures
        ids@.len() == 0 ==> r is None,
        ids@.len() > 0 ==> r == Some(ids@.last()),
{
    if ids.len() == 0 {
        None
    } else {
        Some(ids[ids.len() - 1])
    }
}

/// The first step of a submission: validate the envelope and name it by its
/// content tag. A refused envelope keeps the rule's error; an accepted one
/// is tagged by its canonical serialisation.
pub fn create_begin(
    input: &Input,
    pdb_bounds: &Result<Bounds, ValidationError>,
    canonical: &Vec<u8>,
) -> (r: Result<String, ValidationError>)
    ensures
        spec_check(*input, *pdb_bounds) is Ok ==> (r matches Ok(t) && t@ == spec_tag(canonical@)),
        spec_check(*input, *pdb_bounds) matches Err(e) ==> r == Err::<String, ValidationError>(e),
{
    match input.check(pdb_bounds) {
        Err(e) => Err(e),
        Ok(_) => Ok(tag_of(canonical)),
    }
}

/// How a submission proceeds once the queue has been asked for its tag.
#[derive(Clone, Debug)]
pub enum CreateStep {
    /// The tag is already queued: answer with the existing job view.
    Respond(Job),
    /// The tag is new: enqueue this body, then answer with the tag.
    Enqueue(EnqueueRequest),
}

/// The second step of a submission. A hit on the tag is answered with the
/// existing job view and nothing is enqueued; a miss enqueues the envelope
/// under exactly this tag.
pub fn create_after_lookup(tag: String, input: Input, found: Option<Job>) -> (r: CreateStep)
    ensures
        r is Enqueue <==> found is None,
        found matches Some(j) ==> r == CreateStep::Respond(j),
        found is None ==> (r matches CreateStep::Enqueue(q) && q.tags@.len() == 1 && q.tags@[0]
            == tag && q.input == input),
{
    match found {
        Some(j) => CreateStep::Respond(j),
        None => CreateStep::Enqueue(EnqueueRequest::new(tag, input)),
    }
}

} // verus!
