//! ConfigModel: the typed representation of the embedded configuration
//! document, with its schema invariants.
//!
//! The document is fixed at build time; a validation failure is a
//! packaging defect, fatal before any window is created.  Window
//! dimensions are logical pixels; the host API takes them as floats and
//! the shell converts at its edge.

use vstd::prelude::*;

use crate::error::PakeError;
use crate::os::Os;
use crate::strutil::str_eq;

verus! {

/// Configuration of one content window.
#[derive(Debug)]
pub struct WindowConfig {
    /// Navigation target; its meaning depends on `url_type`.
    pub url: String,
    pub transparent: bool,
    pub fullscreen: bool,
    /// Width in logical pixels; must be positive.
    pub width: u32,
    /// Height in logical pixels; must be positive.
    pub height: u32,
    pub resizable: bool,
    /// Either `"web"` (an absolute URL) or `"local"` (a bundled resource
    /// path); anything else is a configuration error.
    pub url_type: String,
}

/// Per-OS user-agent strings; the one in force is chosen by the compiled
/// target OS.
#[derive(Debug)]
pub struct UserAgent {
    pub macos: String,
    pub linux: String,
    pub windows: String,
}

/// The root configuration document.
#[derive(Debug)]
pub struct PakeConfig {
    /// Must be non-empty; only the first entry is consumed.
    pub windows: Vec<WindowConfig>,
    pub user_agent: UserAgent,
}

/// What `url::Url::parse` accepts: whether a string parses as an
/// absolute URL.  A function of the characters alone.
pub uninterp spec fn url_parses(s: Seq<char>) -> bool;

/// Relies on `url::Url::parse`: parsing an absolute URL from a string
/// succeeds or fails depending on the input characters alone.
#[verifier::external_body]
pub(crate) fn parses_as_absolute_url(s: &str) -> (r: bool)
    ensures
        r == url_parses(s@),
{
    url::Url::parse(s).is_ok()
}

/// The two accepted `url_type` values.
pub open spec fn spec_url_type_valid(t: Seq<char>) -> bool {
    t == "web"@ || t == "local"@
}

/// Schema shape of one window entry: a valid `url_type` and positive
/// dimensions.
pub open spec fn spec_window_structure_wf(w: WindowConfig) -> bool {
    &&& spec_url_type_valid(w.url_type@)
    &&& w.width > 0
    &&& w.height > 0
}

/// Schema shape of the whole document: a non-empty window list whose
/// entries are each well-shaped.
pub open spec fn spec_config_structure_wf(c: PakeConfig) -> bool {
    &&& c.windows@.len() > 0
    &&& forall|i: int|
        0 <= i < c.windows@.len() ==> spec_window_structure_wf(#[trigger] c.windows@[i])
}

/// Every window entry that asks for a web target carries a URL that
/// parses as an absolute URL.
pub open spec fn spec_config_urls_ok(c: PakeConfig) -> bool {
    forall|i: int|
        0 <= i < c.windows@.len() ==> ((#[trigger] c.windows@[i]).url_type@ == "web"@
            ==> url_parses(c.windows@[i].url@))
}

/// The document invariant: well-shaped, with parseable web URLs.
pub open spec fn spec_config_wf(c: PakeConfig) -> bool {
    spec_config_structure_wf(c) && spec_config_urls_ok(c)
}

/// The user-agent string in force on `os`.
pub open spec fn spec_user_agent(ua: UserAgent, os: Os) -> Seq<char> {
    match os {
        Os::MacOs => ua.macos@,
        Os::Linux => ua.linux@,
        Os::Windows => ua.windows@,
    }
}

impl UserAgent {
    /// Select the user-agent string matching the compiled target OS.
    pub fn for_os(&self, os: Os) -> (r: &String)
        ensures
            r@ == spec_user_agent(*self, os),
    {
        match os {
            Os::MacOs => &self.macos,
            Os::Linux => &self.linux,
            Os::Windows => &self.windows,
        }
    }
}

impl PakeConfig {
    /// Check the document invariant.  Succeeds exactly on well-formed
    /// documents; a schema-shape violation is reported as
    /// `ConfigParseError`, and a web entry whose URL does not parse as
    /// an absolute URL — in an otherwise well-shaped document — as
    /// `InvalidUrl`.
    pub fn validate(&self) -> (r: Result<(), PakeError>)
        ensures
            r is Ok <==> spec_config_wf(*self),
            !spec_config_structure_wf(*self) ==> r == Err::<(), PakeError>(
                PakeError::ConfigParseError,
            ),
            spec_config_structure_wf(*self) && !spec_config_urls_ok(*self) ==> r == Err::<
                (),
                PakeError,
            >(PakeError::InvalidUrl),
    {
        if self.windows.len() == 0 {
            return Err(PakeError::ConfigParseError);
        }
        let n = self.windows.len();
        let mut i: usize = 0;
        while i < n
            invariant
                n == self.windows@.len(),
                i <= n,
                forall|j: int| 0 <= j < i ==> spec_window_structure_wf(#[trigger] self.windows@[j]),
            decreases n - i,
        {
            let w = &self.windows[i];
            let type_ok = str_eq(w.url_type.as_str(), "web") || str_eq(
                w.url_type.as_str(),
                "local",
            );
            if !type_ok || w.width == 0 || w.height == 0 {
                proof {
                    assert(!spec_window_structure_wf(self.windows@[i as int]));
                }
                return Err(PakeError::ConfigParseError);
            }
            i += 1;
        }
        let mut i: usize = 0;
        while i < n
            invariant
                n == self.windows@.len(),
                i <= n,
                spec_config_structure_wf(*self),
                forall|j: int|
                    0 <= j < i ==> ((#[trigger] self.windows@[j]).url_type@ == "web"@
                        ==> url_parses(self.windows@[j].url@)),
            decreases n - i,
        {
            let w = &self.windows[i];
            if str_eq(w.url_type.as_str(), "web") && !parses_as_absolute_url(w.url.as_str()) {
                return Err(PakeError::InvalidUrl);
            }
            i += 1;
        }
        Ok(())
    }
}

/// Law: a window entry whose `url_type` is `"local"` accepts any string
/// as its resource path.  A well-shaped document whose entries all ask
/// for local targets is well-formed, whatever their `url` fields hold.
pub proof fn lemma_local_url_always_accepted(c: PakeConfig)
    requires
        spec_config_structure_wf(c),
        forall|i: int| 0 <= i < c.windows@.len() ==> (#[trigger] c.windows@[i]).url_type@ == "local"@,
    ensures
        spec_config_wf(c),
{
    assert forall|i: int|
        0 <= i < c.windows@.len() && (#[trigger] c.windows@[i]).url_type@ == "web"@ implies url_parses(
        c.windows@[i].url@,
    ) by {
        reveal_strlit("web");
        reveal_strlit("local");
        assert("web"@.len() == 3);
        assert("local"@.len() == 5);
        assert(c.windows@[i].url_type@ == "local"@);
    }
}

} // verus!
