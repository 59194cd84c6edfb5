use vstd::prelude::*;
use crate::json::{json_member, json_str, parse_json, parsed_json, value_as_str, value_get};
use crate::server::registry::{route_step_for, Registry, RouteStep};

verus! {

/// Why a producer's text frame is dropped instead of routed.
#[derive(Debug, Clone, Copy, PartialEq, Eq)]
pub enum DropReason {
    /// The frame is not a JSON document.
    NotJson,
    /// The document has no string member `computer_id`.
    MissingComputerId,
}

/// The computer that a producer's text frame is addressed to: the string
/// member `computer_id` of the JSON document the frame holds.
pub open spec fn frame_addressee(text: Seq<char>) -> Result<Seq<char>, DropReason> {
    match parsed_json(text) {
        None => Err(DropReason::NotJson),
        Some(document) => match json_member(document, "computer_id"@) {
            None => Err(DropReason::MissingComputerId),
            Some(id) => match json_str(id) {
                None => Err(DropReason::MissingComputerId),
                Some(computer_id) => Ok(computer_id),
            },
        },
    }
}

/// Any JSON document whose member `computer_id` is a string is addressed
/// to that computer, whatever its other members are (a `type` tag, a path,
/// file contents, anything else).
pub proof fn lemma_addressee_is_id_member(
    text: Seq<char>,
    document: serde_json::Value,
    id: serde_json::Value,
    computer_id: Seq<char>,
)
    requires
        parsed_json(text) == Some(document),
        json_member(document, "computer_id"@) == Some(id),
        json_str(id) == Some(computer_id),
    ensures
        frame_addressee(text) == Ok::<Seq<char>, DropReason>(computer_id),
{
}

/// A frame is dropped as not JSON exactly when serde_json rejects it, and as
/// missing its id exactly when it is JSON but has no string member
/// `computer_id`; otherwise it is addressed.
pub proof fn lemma_drop_reasons(text: Seq<char>)
    ensures
        frame_addressee(text) == Err::<Seq<char>, DropReason>(DropReason::NotJson) <==> parsed_json(
            text,
        ) is None,
        frame_addressee(text) == Err::<Seq<char>, DropReason>(DropReason::MissingComputerId) <==> (
        parsed_json(text) matches Some(d) && !(json_member(d, "computer_id"@) matches Some(v)
            && json_str(v) is Some)),
{
}

/// Reads the id of the computer that a producer's text frame is addressed to.
pub fn frame_computer_id(text: &str) -> (id: Result<String, DropReason>)
    ensures
        match id {
            Ok(computer_id) => frame_addressee(text@) == Ok::<Seq<char>, DropReason>(
                computer_id@,
            ),
            Err(reason) => frame_addressee(text@) == Err::<Seq<char>, DropReason>(reason),
        },
{
    let document = match parse_json(text) {
        Ok(document) => document,
        Err(_) => return Err(DropReason::NotJson),
    };
    let id = match value_get(&document, "computer_id") {
        Some(id) => id,
        None => return Err(DropReason::MissingComputerId),
    };
    match value_as_str(id) {
        Some(computer_id) => Ok(computer_id.to_owned()),
        None => Err(DropReason::MissingComputerId),
    }
}

/// What handling a producer's text frame asks for.
pub enum Dispatch<S> {
    /// The frame is dropped; no session is involved.
    Dropped(DropReason),
    /// The frame is routed to `computer_id`, as `step` says.
    Route { computer_id: String, step: RouteStep<S> },
}

/// Handles a text frame from a producer: reads the computer it is addressed
/// to and finds the session to forward the frame to, verbatim.
pub fn dispatch<S: Clone>(registry: &Registry<S>, text: &str) -> (d: Dispatch<S>)
    ensures
        match frame_addressee(text@) {
            Err(reason) => d == Dispatch::<S>::Dropped(reason),
            Ok(id) => match d {
                Dispatch::Route { computer_id, step } => computer_id@ == id && route_step_for(
                    registry@,
                    id,
                    text@,
                    step,
                ),
                Dispatch::Dropped(_) => false,
            },
        },
{
    match frame_computer_id(text) {
        Err(reason) => Dispatch::Dropped(reason),
        Ok(computer_id) => {
            let step = registry.begin_route(computer_id.as_str(), text);
            Dispatch::Route { computer_id, step }
        },
    }
}

} // verus!
