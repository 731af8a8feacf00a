//! Cache manager: the statistics shown, the size limit being edited, and
//! whether a clear is under way.
//!
//! The manager holds a handle of type `C` to the cache it manages (or none);
//! it never touches the cache itself.  When a message calls for clearing,
//! `update` answers with [`CacheCommand::Clear`] and the caller performs it.

use vstd::prelude::*;
use crate::fetch::types::CacheStats;
use crate::text::{decimal, decimal_string, parse_u64, parsed_u64, push_decimal, push_str};

verus! {

/// Default size limit shown, in MiB (1 GiB).
pub const DEFAULT_MAX_SIZE_MB: u64 = 1024;

/// Messages of the cache manager.
#[derive(Debug, Clone)]
pub enum CacheManagerMessage {
    /// The clear button was pressed.
    ClearCache,
    /// The size-limit field changed (MiB, as typed).
    MaxSizeChanged(String),
    /// The typed size limit is to be applied.
    ApplyMaxSize,
    /// The settings panel is to be shown or hidden.
    ToggleSettings,
    /// The statistics are to be refreshed (by the caller).
    RefreshStats,
    /// A clear finished.
    CacheCleared,
    /// A cache operation failed.
    CacheError(String),
}

/// What the caller is asked to do after a message.
#[derive(Debug, Clone, Copy, PartialEq, Eq, Structural)]
pub enum CacheCommand {
    /// Clear the managed cache, then report `CacheCleared` or `CacheError`.
    Clear,
}

/// The state of the cache manager.
#[derive(Debug)]
pub struct CacheManager<C> {
    /// The managed cache, if any.
    pub cache: Option<C>,
    /// The statistics shown.
    pub stats: CacheStats,
    /// The size-limit field as typed (MiB).
    pub max_size_input: String,
    /// Whether the settings panel is shown.
    pub show_settings: bool,
    /// The size limit in effect (MiB).
    pub current_max_size_mb: u64,
    /// Whether a clear is under way.
    pub clearing: bool,
}

/// Statistics of an empty cache.
pub open spec fn empty_stats() -> CacheStats {
    CacheStats { total_size: 0, entry_count: 0, oldest: None, newest: None }
}

/// The state after `msg`, and whether the cache is to be cleared.
pub open spec fn manager_next<C>(m: CacheManager<C>, msg: CacheManagerMessage) -> (CacheManager<C>, Option<CacheCommand>) {
    match msg {
        CacheManagerMessage::ClearCache => if m.cache is Some {
            (CacheManager { clearing: true, ..m }, Some(CacheCommand::Clear))
        } else {
            (m, None)
        },
        CacheManagerMessage::MaxSizeChanged(v) => (CacheManager { max_size_input: v, ..m }, None),
        CacheManagerMessage::ApplyMaxSize => match parsed_u64(m.max_size_input@) {
            Some(n) => (CacheManager { current_max_size_mb: n, ..m }, None),
            None => (m, None),
        },
        CacheManagerMessage::ToggleSettings => (CacheManager { show_settings: !m.show_settings, ..m }, None),
        CacheManagerMessage::RefreshStats => (m, None),
        CacheManagerMessage::CacheCleared => (CacheManager { clearing: false, ..m }, None),
        CacheManagerMessage::CacheError(_) => (CacheManager { clearing: false, ..m }, None),
    }
}

/// The fields of two managers agree, the text field by its text.
pub open spec fn same_manager<C>(a: CacheManager<C>, b: CacheManager<C>) -> bool {
    &&& a.cache == b.cache
    &&& a.stats == b.stats
    &&& a.max_size_input@ == b.max_size_input@
    &&& a.show_settings == b.show_settings
    &&& a.current_max_size_mb == b.current_max_size_mb
    &&& a.clearing == b.clearing
}

impl<C> CacheManager<C> {
    /// A manager of `cache` with the default 1024 MiB limit.
    pub fn new(cache: C) -> (m: Self)
        ensures
            m.cache == Some(cache),
            m.stats == empty_stats(),
            m.max_size_input@ == decimal(DEFAULT_MAX_SIZE_MB as nat),
            !m.show_settings,
            m.current_max_size_mb == DEFAULT_MAX_SIZE_MB,
            !m.clearing,
    {
        Self::with_max_size(cache, DEFAULT_MAX_SIZE_MB)
    }

    /// A manager of `cache` with a limit of `max_size_mb` MiB.
    pub fn with_max_size(cache: C, max_size_mb: u64) -> (m: Self)
        ensures
            m.cache == Some(cache),
            m.stats == empty_stats(),
            m.max_size_input@ == decimal(max_size_mb as nat),
            !m.show_settings,
            m.current_max_size_mb == max_size_mb,
            !m.clearing,
    {
        CacheManager {
            cache: Some(cache),
            stats: CacheStats::default(),
            max_size_input: decimal_string(max_size_mb),
            show_settings: false,
            current_max_size_mb: max_size_mb,
            clearing: false,
        }
    }

    /// Sets the statistics shown.
    pub fn set_stats(&mut self, stats: CacheStats)
        ensures
            same_manager(*final(self), (CacheManager { stats, ..*old(self) })),
    {
        self.stats = stats;
    }

    /// Handles a message; answers `Some(CacheCommand::Clear)` when the cache
    /// is to be cleared.
    pub fn update(&mut self, message: CacheManagerMessage) -> (cmd: Option<CacheCommand>)
        ensures
            same_manager(*final(self), manager_next(*old(self), message).0),
            cmd == manager_next(*old(self), message).1,
    {
        match message {
            CacheManagerMessage::ClearCache => {
                if self.cache.is_some() {
                    self.clearing = true;
                    Some(CacheCommand::Clear)
                } else {
                    None
                }
            },
            CacheManagerMessage::MaxSizeChanged(value) => {
                self.max_size_input = value;
                None
            },
            CacheManagerMessage::ApplyMaxSize => {
                if let Some(size) = parse_u64(self.max_size_input.as_str()) {
                    self.current_max_size_mb = size;
                }
                None
            },
            CacheManagerMessage::ToggleSettings => {
                self.show_settings = !self.show_settings;
                None
            },
            CacheManagerMessage::RefreshStats => None,
            CacheManagerMessage::CacheCleared => {
                self.clearing = false;
                None
            },
            CacheManagerMessage::CacheError(_) => {
                self.clearing = false;
                None
            },
        }
    }

    /// The size limit in effect (MiB).
    pub fn current_max_size_mb(&self) -> (n: u64)
        ensures
            n == self.current_max_size_mb,
    {
        self.current_max_size_mb
    }

    /// Whether the settings panel is shown.
    pub fn show_settings(&self) -> (b: bool)
        ensures
            b == self.show_settings,
    {
        self.show_settings
    }

    /// Whether a clear is under way.
    pub fn is_clearing(&self) -> (b: bool)
        ensures
            b == self.clearing,
    {
        self.clearing
    }

    /// The text of the clear button: `Clearing...` while a clear is under
    /// way, `Clear Cache` otherwise.
    pub fn clear_button_label(&self) -> (t: &'static str)
        ensures
            t@ == (if self.clearing { "Clearing..."@ } else { "Clear Cache"@ }),
    {
        if self.clearing { "Clearing..." } else { "Clear Cache" }
    }

    /// The text of the button that shows or hides the settings panel.
    pub fn settings_toggle_label(&self) -> (t: &'static str)
        ensures
            t@ == (if self.show_settings { "▲ Hide Settings"@ } else { "▼ Show Settings"@ }),
    {
        if self.show_settings { "▲ Hide Settings" } else { "▼ Show Settings" }
    }

    /// The line that states the limit in effect: `Current limit: {n} MB`.
    pub fn current_limit_text(&self) -> (t: String)
        ensures
            t@ == "Current limit: "@ + decimal(self.current_max_size_mb as nat) + " MB"@,
    {
        let mut t = String::new();
        push_str(&mut t, "Current limit: ");
        push_decimal(&mut t, self.current_max_size_mb);
        push_str(&mut t, " MB");
        proof {
            assert(t@ =~= "Current limit: "@ + decimal(self.current_max_size_mb as nat) + " MB"@);
        }
        t
    }
}

impl<C> Default for CacheManager<C> {
    /// A manager without a cache, with the default 1024 MiB limit.
    fn default() -> (m: Self)
        ensures
            m.cache is None,
            m.stats == empty_stats(),
            m.max_size_input@ == decimal(DEFAULT_MAX_SIZE_MB as nat),
            !m.show_settings,
            m.current_max_size_mb == DEFAULT_MAX_SIZE_MB,
            !m.clearing,
    {
        CacheManager {
            cache: None,
            stats: CacheStats::default(),
            max_size_input: decimal_string(DEFAULT_MAX_SIZE_MB),
            show_settings: false,
            current_max_size_mb: DEFAULT_MAX_SIZE_MB,
            clearing: false,
        }
    }
}

/// Toggling the settings panel twice shows what was shown before.
pub proof fn lemma_toggle_settings_twice<C>(m: CacheManager<C>)
    ensures
        manager_next(manager_next(m, CacheManagerMessage::ToggleSettings).0, CacheManagerMessage::ToggleSettings).0
            == m,
{
}

/// A clear asked of a manager with a cache is under way until it is reported
/// done or failed; without a cache nothing happens.
pub proof fn lemma_clear_round_trip<C>(m: CacheManager<C>, outcome: CacheManagerMessage)
    requires
        outcome is CacheCleared || outcome is CacheError,
    ensures
        m.cache is Some ==> manager_next(m, CacheManagerMessage::ClearCache).0.clearing
            && manager_next(m, CacheManagerMessage::ClearCache).1 == Some(CacheCommand::Clear)
            && !manager_next(manager_next(m, CacheManagerMessage::ClearCache).0, outcome).0.clearing,
        m.cache is None ==> manager_next(m, CacheManagerMessage::ClearCache) == (m, None::<CacheCommand>),
{
}

/// Applying a size limit that does not read as a number keeps the limit in effect.
pub proof fn lemma_apply_unreadable_keeps_limit<C>(m: CacheManager<C>)
    requires
        parsed_u64(m.max_size_input@) is None,
    ensures
        manager_next(m, CacheManagerMessage::ApplyMaxSize).0.current_max_size_mb == m.current_max_size_mb,
{
}

} // verus!
