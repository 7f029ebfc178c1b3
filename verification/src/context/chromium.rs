//! Chrome/Edge enricher. Both browsers are Chromium and share the same
//! address-bar automation id, so one implementation covers both, configured
//! through [`ChromiumEnricher::chrome`] and [`ChromiumEnricher::edge`].

use vstd::prelude::*;
use crate::context::enricher::{ContextEnricher, PluginInfo, WindowProbe};
use crate::text::{chars_of, chars_eq_ignore_ascii_case, eq_ignore_ascii_case, opt_view};
use crate::types::{lookup, ContexaError, ContextSnapshot, SnapshotView};

verus! {

/// UI Automation id of the Chromium address bar.
pub const ADDRESS_BAR_AUTOMATION_ID: &'static str = "addressEditBox";

pub const CHROMIUM_PRIORITY: u32 = 100;

/// Enricher for a Chromium-based browser.
#[derive(Clone, Copy, Debug)]
pub struct ChromiumEnricher {
    pub process_name: &'static str,
    pub browser_tag: &'static str,
    pub plugin_id: &'static str,
    pub plugin_name: &'static str,
}

impl ChromiumEnricher {
    /// The Google Chrome enricher.
    pub fn chrome() -> (e: Self)
        ensures
            e.process_name@ == "chrome.exe"@,
            e.browser_tag@ == "chrome"@,
            e.plugin_id@ == "enricher.chrome"@,
            e.plugin_name@ == "Chrome Enricher"@,
    {
        ChromiumEnricher {
            process_name: "chrome.exe",
            browser_tag: "chrome",
            plugin_id: "enricher.chrome",
            plugin_name: "Chrome Enricher",
        }
    }

    /// The Microsoft Edge enricher.
    pub fn edge() -> (e: Self)
        ensures
            e.process_name@ == "msedge.exe"@,
            e.browser_tag@ == "edge"@,
            e.plugin_id@ == "enricher.edge"@,
            e.plugin_name@ == "Edge Enricher"@,
    {
        ChromiumEnricher {
            process_name: "msedge.exe",
            browser_tag: "edge",
            plugin_id: "enricher.edge",
            plugin_name: "Edge Enricher",
        }
    }
}

/// What a Chromium enricher does to a snapshot: without a window handle
/// nothing; otherwise the address-bar text, when one was read, becomes the
/// URL and the `browser` metadata key is set to the browser's tag, the rest
/// of the snapshot staying as it was.
pub open spec fn chromium_enriched(
    tag: Seq<char>,
    before: SnapshotView,
    address_bar: Option<Seq<char>>,
    after: SnapshotView,
) -> bool {
    if before.hwnd is None {
        after == before
    } else {
        &&& after.url == match address_bar {
            Some(u) => Some(u),
            None => before.url,
        }
        &&& lookup(after.metadata, "browser"@) == Some(tag)
        &&& forall|k: Seq<char>| k != "browser"@ ==> lookup(after.metadata, k) == lookup(before.metadata, k)
        &&& after.id == before.id
        &&& after.timestamp == before.timestamp
        &&& after.window_title == before.window_title
        &&& after.process_name == before.process_name
        &&& after.process_id == before.process_id
        &&& after.hwnd == before.hwnd
        &&& after.document_path == before.document_path
        &&& after.visible_text == before.visible_text
        &&& after.selected_text == before.selected_text
        &&& after.language == before.language
        &&& after.capture_method == before.capture_method
    }
}

/// The descriptive information of a Chromium enricher.
pub open spec fn chromium_info(e: ChromiumEnricher, i: PluginInfo) -> bool {
    &&& i.id@ == e.plugin_id@
    &&& i.name@ == e.plugin_name@
    &&& i.version@ == "0.1.0"@
    &&& i.author@ == "Contexa Team"@
    &&& i.description@ == "Extracts URL from the "@ + e.process_name@ + " address bar"@
}

impl ContextEnricher for ChromiumEnricher {
    open spec fn enriches(
        &self,
        before: SnapshotView,
        address_bar: Option<Seq<char>>,
        succeeded: bool,
        after: SnapshotView,
    ) -> bool {
        succeeded && chromium_enriched(self.browser_tag@, before, address_bar, after)
    }

    open spec fn describes(&self, info: PluginInfo) -> bool {
        chromium_info(*self, info)
    }

    open spec fn spec_matches(&self, process_name: Seq<char>) -> bool {
        eq_ignore_ascii_case(process_name, self.process_name@)
    }

    open spec fn spec_priority(&self) -> u32 {
        CHROMIUM_PRIORITY
    }

    fn matches(&self, process_name: &str) -> (r: bool) {
        chars_eq_ignore_ascii_case(&chars_of(process_name), &chars_of(self.process_name))
    }

    /// Without a window handle nothing is queried and the snapshot is left
    /// as it is. Otherwise the address-bar text, when one was read, becomes
    /// the snapshot's URL, and the `browser` metadata key is set to the
    /// browser's tag.
    fn enrich(&self, snapshot: &mut ContextSnapshot, probe: &WindowProbe) -> (r: Result<(), ContexaError>)
        ensures
            r is Ok,
            old(snapshot).hwnd.is_none() ==> final(snapshot)@ == old(snapshot)@,
            old(snapshot).hwnd.is_some() ==> {
                &&& final(snapshot).url == match probe.address_bar {
                    Some(u) => Some(u),
                    None => old(snapshot).url,
                }
                &&& final(snapshot).metadata.spec_get("browser"@) == Some(self.browser_tag@)
                &&& forall|k: Seq<char>| k != "browser"@ ==> final(snapshot).metadata.spec_get(k)
                    == old(snapshot).metadata.spec_get(k)
                &&& final(snapshot).id == old(snapshot).id
                &&& final(snapshot).window_title == old(snapshot).window_title
                &&& final(snapshot).process_name == old(snapshot).process_name
                &&& final(snapshot).document_path == old(snapshot).document_path
                &&& final(snapshot).visible_text == old(snapshot).visible_text
                &&& final(snapshot).selected_text == old(snapshot).selected_text
            },
    {
        if snapshot.hwnd.is_none() {
            return Ok(());
        }
        match &probe.address_bar {
            Some(url) => {
                snapshot.url = Some(url.clone());
            },
            None => {},
        }
        let ghost before_meta = snapshot.metadata;
        snapshot.metadata.insert(String::from_str("browser"), String::from_str(self.browser_tag));
        proof {
            assert forall|k: Seq<char>| k != "browser"@ implies lookup(snapshot.metadata@, k) == lookup(
                old(snapshot).metadata@,
                k,
            ) by {
                assert(snapshot.metadata.spec_get(k) == before_meta.spec_get(k));
            }
            assert(lookup(snapshot.metadata@, "browser"@) == Some(self.browser_tag@)) by {
                assert(snapshot.metadata.spec_get("browser"@) == Some(self.browser_tag@));
            }
        }
        Ok(())
    }

    fn priority(&self) -> (p: u32) {
        CHROMIUM_PRIORITY
    }

    fn info(&self) -> (i: PluginInfo)
        ensures
            chromium_info(*self, i),
    {
        PluginInfo {
            id: String::from_str(self.plugin_id),
            name: String::from_str(self.plugin_name),
            version: String::from_str("0.1.0"),
            author: String::from_str("Contexa Team"),
            description: String::from_str("Extracts URL from the ").concat(self.process_name).concat(
                " address bar",
            ),
        }
    }
}

} // verus!
