use vstd::prelude::*;
use crate::client::fswatcher::WatchTarget;

verus! {

/// What a watching client needs: the relay to send to and the directories
/// to watch.
#[derive(Debug)]
pub struct Settings {
    pub ws_url: String,
    pub watch: Vec<WatchTarget>,
}

} // verus!
