//! WindowFactory: build the primary content window's construction plan
//! from the configuration, branching on the host OS.
//!
//! The plan pins every argument the shell hands to the host framework's
//! window builder: label, title, navigation target, user agent, chrome
//! flags, data directory and size.  The bootstrap script injected before
//! page scripts is opaque content supplied at build time; the plan only
//! records that it is injected.

use vstd::prelude::*;

use crate::config::{
    PakeConfig,
    parses_as_absolute_url,
    spec_url_type_valid,
    spec_user_agent,
    url_parses,
    WindowConfig,
};
use crate::error::PakeError;
use crate::os::Os;
use crate::strutil::str_eq;

verus! {

/// Where the content surface navigates first.
#[derive(Debug)]
pub enum NavigationTarget {
    /// An external absolute URL.
    External { url: String },
    /// A path into the application's bundled resources; no existence
    /// check at this layer.
    App { path: String },
}

/// Everything the shell passes to the host framework when constructing
/// one window.
#[derive(Debug)]
pub struct WindowPlan {
    /// Stable window label, used to find the window again.
    pub label: String,
    pub title: String,
    pub target: NavigationTarget,
    /// The user-agent string to set, if any.
    pub user_agent: Option<String>,
    pub resizable: bool,
    pub fullscreen: bool,
    /// Applied only on macOS, the platform that supports it here.
    pub transparent: bool,
    /// Data-directory path components; set on Windows and Linux only.
    pub data_dir: Option<Vec<String>>,
    /// Width in logical pixels.
    pub width: u32,
    /// Height in logical pixels.
    pub height: u32,
    /// Whether the fixed bootstrap script runs before page scripts.
    pub inject_bootstrap_script: bool,
}

/// The first window entry, the only one this core consumes.
pub open spec fn spec_first_window(c: PakeConfig) -> WindowConfig {
    c.windows@[0]
}

/// The primary window's plan is exactly what the configuration and `os`
/// prescribe.
pub open spec fn spec_primary_plan(
    p: WindowPlan,
    c: PakeConfig,
    data_dir: Seq<Seq<char>>,
    os: Os,
) -> bool {
    let w = spec_first_window(c);
    &&& p.label@ == "pake"@
    &&& p.title@ == Seq::<char>::empty()
    &&& (w.url_type@ == "web"@ ==> (p.target matches NavigationTarget::External { url } && url@
        == w.url@))
    &&& (w.url_type@ == "local"@ ==> (p.target matches NavigationTarget::App { path } && path@
        == w.url@))
    &&& (p.user_agent matches Some(u) && u@ == spec_user_agent(c.user_agent, os))
    &&& p.resizable == w.resizable
    &&& p.fullscreen == w.fullscreen
    &&& p.transparent == (os is MacOs && w.transparent)
    &&& (if os is MacOs {
        p.data_dir is None
    } else {
        p.data_dir matches Some(d) && d.deep_view() == data_dir
    })
    &&& p.width == w.width
    &&& p.height == w.height
    &&& p.inject_bootstrap_script
}

/// WindowFactory: plan the primary window.  Consumes exactly the first
/// window entry.  A `"web"` target must parse as an absolute URL
/// (`InvalidUrl` otherwise); a `"local"` target accepts any string; any
/// other `url_type` is a configuration error.  `data_dir` is the
/// resolved data directory, used on Windows and Linux only.
pub fn get_window(config: PakeConfig, data_dir: Vec<String>, os: Os) -> (r: Result<
    WindowPlan,
    PakeError,
>)
    requires
        config.windows@.len() > 0,
    ensures
        r is Ok <==> (spec_url_type_valid(spec_first_window(config).url_type@) && (
        spec_first_window(config).url_type@ == "web"@ ==> url_parses(
            spec_first_window(config).url@,
        ))),
        !spec_url_type_valid(spec_first_window(config).url_type@) ==> r == Err::<
            WindowPlan,
            PakeError,
        >(PakeError::ConfigParseError),
        spec_first_window(config).url_type@ == "web"@ && !url_parses(
            spec_first_window(config).url@,
        ) ==> r == Err::<WindowPlan, PakeError>(PakeError::InvalidUrl),
        r matches Ok(p) ==> spec_primary_plan(p, config, data_dir.deep_view(), os),
{
    let w = &config.windows[0];
    let target: NavigationTarget;
    if str_eq(w.url_type.as_str(), "web") {
        if !parses_as_absolute_url(w.url.as_str()) {
            return Err(PakeError::InvalidUrl);
        }
        target = NavigationTarget::External { url: w.url.clone() };
    } else if str_eq(w.url_type.as_str(), "local") {
        target = NavigationTarget::App { path: w.url.clone() };
    } else {
        proof {
            reveal_strlit("web");
            reveal_strlit("local");
        }
        return Err(PakeError::ConfigParseError);
    }
    let user_agent = config.user_agent.for_os(os).clone();
    let macos = os.is_macos();
    let plan = WindowPlan {
        label: "pake".to_owned(),
        title: String::new(),
        target,
        user_agent: Some(user_agent),
        resizable: w.resizable,
        fullscreen: w.fullscreen,
        transparent: if macos {
            w.transparent
        } else {
            false
        },
        data_dir: if macos {
            None
        } else {
            Some(data_dir)
        },
        width: w.width,
        height: w.height,
        inject_bootstrap_script: true,
    };
    proof {
        reveal_strlit("web");
        reveal_strlit("local");
        assert("web"@.len() == 3);
        assert("local"@.len() == 5);
        assert("web"@ != "local"@);
    }
    Ok(plan)
}

} // verus!
