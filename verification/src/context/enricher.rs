//! The `ContextEnricher` plugin trait.

use vstd::prelude::*;
use crate::text::opt_view;
use crate::types::{ContexaError, ContextSnapshot, SnapshotView};

verus! {

/// Descriptive information about an enricher plugin.
#[derive(Debug)]
pub struct PluginInfo {
    pub id: String,
    pub name: String,
    pub version: String,
    pub author: String,
    pub description: String,
}

/// What the application observed about the snapshot's window on behalf of
/// the enrichers: the text of the browser address bar (UI Automation id
/// `addressEditBox`), when one was found.
#[derive(Debug)]
pub struct WindowProbe {
    pub address_bar: Option<String>,
}

/// An application-specific enricher: adds what it knows about one kind of
/// window to a snapshot.
pub trait ContextEnricher {
    /// Whether this enricher handles the given process.
    open spec fn spec_matches(&self, process_name: Seq<char>) -> bool {
        false
    }

    /// Execution priority; higher runs first.
    open spec fn spec_priority(&self) -> u32 {
        0
    }

    /// What one run of `enrich` may do: starting from `before`, with the
    /// address-bar text the application read, it succeeds or not and leaves
    /// `after`. An enricher that says nothing more allows any run.
    open spec fn enriches(
        &self,
        before: SnapshotView,
        address_bar: Option<Seq<char>>,
        succeeded: bool,
        after: SnapshotView,
    ) -> bool {
        true
    }

    /// Whether `info` is this enricher's descriptive information. An
    /// enricher that says nothing more allows any.
    open spec fn describes(&self, info: PluginInfo) -> bool {
        true
    }

    /// Returns true if this enricher handles the given process.
    fn matches(&self, process_name: &str) -> (r: bool)
        ensures
            r == self.spec_matches(process_name@),
    ;

    /// Enriches the snapshot with application-specific data, using what the
    /// application observed about the window.
    fn enrich(&self, snapshot: &mut ContextSnapshot, probe: &WindowProbe) -> (r: Result<(), ContexaError>)
        requires
            old(snapshot).wf(),
        ensures
            final(snapshot).wf(),
            self.enriches(old(snapshot)@, opt_view(probe.address_bar), r is Ok, final(snapshot)@),
    ;

    /// Execution priority; higher runs first.
    fn priority(&self) -> (p: u32)
        ensures
            p == self.spec_priority(),
    ;

    /// The plugin's descriptive information.
    fn info(&self) -> (i: PluginInfo)
        ensures
            self.describes(i),
    ;
}

} // verus!
