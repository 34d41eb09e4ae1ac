//! What an incoming update travels in on its way to a handler.

use vstd::prelude::*;
use crate::bot::Bot;

verus! {

/// An update together with the `Bot` that it arrived under, so that whoever
/// handles the update can make further requests.
#[derive(Debug, Clone)]
pub struct UpdateWithCx<'a, Upd> {
    pub bot: &'a Bot,
    pub update: Upd,
}

} // verus!
