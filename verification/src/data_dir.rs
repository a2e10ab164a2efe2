//! DataDirResolver: the OS-specific per-user application data
//! directory.
//!
//! Paths are carried as their components, home directory first, so the
//! contract pins the exact location: `<home>/AppData/Roaming/<product>`
//! on Windows and `<home>/.config/<product>` on Linux.  On macOS the
//! step is skipped — the window is not given an explicit data directory
//! there.  The shell joins the components into a native path and creates
//! the directory if it is absent.

use vstd::prelude::*;

use crate::error::PakeError;
use crate::os::Os;

verus! {

/// Relies on `home::home_dir`: the home directory as the environment
/// reports it, if one can be determined; converted to a plain string.
/// The result depends on the environment, so nothing is promised of it.
#[verifier::external_body]
fn fetch_home_dir() -> (r: Option<String>) {
    home::home_dir().map(|p| p.to_string_lossy().into_owned())
}

/// The data-directory components for a given home directory and product
/// name on `os`.
pub open spec fn spec_data_dir_components(home: Seq<char>, product: Seq<char>, os: Os) -> Seq<
    Seq<char>,
> {
    if os is Windows {
        seq![home, "AppData"@, "Roaming"@, product]
    } else {
        seq![home, ".config"@, product]
    }
}

/// DataDirResolver core: derive the data directory from a home
/// directory, as path components.  Fails with `HomeDirNotFound` exactly
/// when no home directory is given.
pub fn resolve_data_dir(home: Option<String>, product_name: &str, os: Os) -> (r: Result<
    Vec<String>,
    PakeError,
>)
    requires
        !(os is MacOs),
    ensures
        home is None <==> r == Err::<Vec<String>, PakeError>(PakeError::HomeDirNotFound),
        home matches Some(h) ==> (r matches Ok(d) && d.deep_view() == spec_data_dir_components(
            h@,
            product_name@,
            os,
        )),
{
    match home {
        None => Err(PakeError::HomeDirNotFound),
        Some(h) => {
            let ghost home_view = h@;
            let mut d: Vec<String> = Vec::new();
            d.push(h);
            if matches!(os, Os::Windows) {
                d.push("AppData".to_owned());
                d.push("Roaming".to_owned());
            } else {
                d.push(".config".to_owned());
            }
            d.push(product_name.to_owned());
            proof {
                assert(d.deep_view() =~~= spec_data_dir_components(
                    home_view,
                    product_name@,
                    os,
                ));
            }
            Ok(d)
        },
    }
}

/// DataDirResolver: derive the data directory for the current user, from
/// the home directory as the environment reports it.  Whatever the
/// environment answers, the result is either the directory derived from
/// some home directory, or `HomeDirNotFound`.
pub fn get_data_dir(product_name: &str, os: Os) -> (r: Result<Vec<String>, PakeError>)
    requires
        !(os is MacOs),
    ensures
        r matches Ok(d) ==> exists|h: Seq<char>|
            d.deep_view() == spec_data_dir_components(h, product_name@, os),
        r matches Err(e) ==> e is HomeDirNotFound,
{
    let home = fetch_home_dir();
    let ghost home_at_entry = home;
    let r = resolve_data_dir(home, product_name, os);
    proof {
        if r is Ok {
            let d = r->Ok_0;
            let h = home_at_entry->0;
            assert(d.deep_view() == spec_data_dir_components(h@, product_name@, os));
        }
    }
    r
}

} // verus!
