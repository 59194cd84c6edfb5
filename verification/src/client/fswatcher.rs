use vstd::prelude::*;

verus! {

/// A directory to watch, and the computer that changes under it are for.
#[derive(Debug, Clone)]
pub struct WatchTarget {
    pub dir: String,
    pub computer_id: String,
}

/// Whether `std::path::Path::starts_with` holds of `path` and `base`: `base`
/// is a prefix of `path` in whole path components.
pub uninterp spec fn path_has_prefix(path: Seq<char>, base: Seq<char>) -> bool;

/// Calls `std::path::Path::starts_with` on `path` and `base`. Trusted: the
/// result is what `path_has_prefix` names. The std documentation states
/// that only whole components match; the component rules themselves (those
/// of the platform built for) are not written out here.
#[verifier::external_body]
fn path_starts_with(path: &str, base: &str) -> (r: bool)
    ensures
        r == path_has_prefix(path@, base@),
{
    std::path::Path::new(path).starts_with(base)
}

/// The computer that a change at `path` is for: that of the first target
/// whose directory holds `path`.
pub open spec fn target_of(targets: Seq<WatchTarget>, path: Seq<char>) -> Option<Seq<char>>
    decreases targets.len(),
{
    if targets.len() == 0 {
        None
    } else if path_has_prefix(path, targets[0].dir@) {
        Some(targets[0].computer_id@)
    } else {
        target_of(targets.drop_first(), path)
    }
}

/// Finds the computer that a change at `path` is for.
pub fn target_for(targets: &Vec<WatchTarget>, path: &str) -> (id: Option<String>)
    ensures
        match id {
            Some(s) => target_of(targets@, path@) == Some(s@),
            None => target_of(targets@, path@) is None,
        },
{
    let mut i: usize = 0;
    assert(targets@.skip(0) =~= targets@);
    while i < targets.len()
        invariant
            0 <= i <= targets@.len(),
            target_of(targets@, path@) == target_of(targets@.skip(i as int), path@),
        decreases targets@.len() - i,
    {
        assert(targets@.skip(i as int).drop_first() =~= targets@.skip(i + 1));
        if path_starts_with(path, targets[i].dir.as_str()) {
            return Some(targets[i].computer_id.clone());
        }
        i = i + 1;
    }
    None
}

/// The computer id a watch event is reported under: that of the target
/// holding its first path, or the empty id where the event has no path or
/// no target holds it.
pub open spec fn event_target(targets: Seq<WatchTarget>, first_path: Option<Seq<char>>) -> Seq<
    char,
> {
    match first_path {
        Some(p) => match target_of(targets, p) {
            Some(id) => id,
            None => Seq::empty(),
        },
        None => Seq::empty(),
    }
}

/// Names the computer a watch event is for, from the event's first path.
pub fn event_computer_id(targets: &Vec<WatchTarget>, first_path: Option<&str>) -> (id: String)
    ensures
        id@ == event_target(
            targets@,
            match first_path {
                Some(p) => Some(p@),
                None => None,
            },
        ),
{
    match first_path {
        Some(p) => match target_for(targets, p) {
            Some(id) => id,
            None => String::new(),
        },
        None => String::new(),
    }
}

} // verus!
