//! Offline indicator: whether the network was last seen reachable.

use vstd::prelude::*;

verus! {

/// Messages of the offline indicator.
#[derive(Debug, Clone, Copy)]
pub enum OfflineIndicatorMessage {
    /// A connectivity check was requested.
    CheckConnectivity,
}

impl Default for OfflineIndicatorMessage {
    fn default() -> (m: Self)
        ensures
            m == OfflineIndicatorMessage::CheckConnectivity,
    {
        OfflineIndicatorMessage::CheckConnectivity
    }
}

/// The indicator's state: the connectivity status shown.
#[derive(Debug, Clone)]
pub struct OfflineIndicator {
    is_online: bool,
}

impl OfflineIndicator {
    /// The status shown (specification).
    pub closed spec fn online(&self) -> bool {
        self.is_online
    }

    /// An indicator showing `is_online`.
    pub fn new(is_online: bool) -> (i: Self)
        ensures
            i.online() == is_online,
    {
        OfflineIndicator { is_online }
    }

    /// An indicator showing offline.
    pub fn default() -> (i: Self)
        ensures
            !i.online(),
    {
        OfflineIndicator { is_online: false }
    }

    /// Handles a message; the check itself is made by the caller, which then
    /// reports the outcome with `set_online`, so the status is unchanged.
    pub fn update(&mut self, message: OfflineIndicatorMessage)
        ensures
            final(self).online() == old(self).online(),
    {
        match message {
            OfflineIndicatorMessage::CheckConnectivity => {},
        }
    }

    /// Records the connectivity status.
    pub fn set_online(&mut self, online: bool)
        ensures
            final(self).online() == online,
    {
        self.is_online = online;
    }

    /// The status shown.
    pub fn is_online(&self) -> (b: bool)
        ensures
            b == self.online(),
    {
        self.is_online
    }

    /// The status text shown beside the dot: `Online` or `Offline`.
    pub fn status_text(&self) -> (t: &'static str)
        ensures
            t@ == (if self.online() { "Online"@ } else { "Offline"@ }),
    {
        if self.is_online { "Online" } else { "Offline" }
    }
}

} // verus!
