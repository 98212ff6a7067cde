//! Project addressing.
//!
//! Resolves a project identifier to the location of that project's
//! persistent store, and an application context to the application data root
//! and the backend entry point. Store addressing is a pure function of the
//! identifier: it consults nothing but its argument.

use vstd::prelude::*;
use vstd::string::StringExecFns;
use crate::decimal::{int_dec, i32_dec};
use crate::errors::{BridgeError, APP_DATA_DIR_ERROR, BACKEND_SCRIPT_ERROR};

verus! {

/// The location of a project's persistent store: a connection string fixed by
/// the project identifier alone.
pub open spec fn store_location_spec(project_id: int) -> Seq<char> {
    "sqlite:///projects/"@ + int_dec(project_id) + ".sqlite"@
}

/// Resolves a project identifier to its store location.
pub fn store_location(project_id: i32) -> (r: String)
    ensures
        r@ == store_location_spec(project_id as int),
{
    let mut s = String::from_str("sqlite:///projects/");
    let digits = i32_dec(project_id);
    s.append(digits.as_str());
    s.append(".sqlite");
    proof {
        assert(s@ =~= store_location_spec(project_id as int));
    }
    s
}

/// Law: store addressing is pure. Two resolutions of the same project
/// identifier name the same store location.
pub proof fn lemma_store_location_pure(project_id: int, r1: Seq<char>, r2: Seq<char>)
    requires
        r1 == store_location_spec(project_id),
        r2 == store_location_spec(project_id),
    ensures
        r1 == r2,
{
}

/// What the host environment's path-resolution facility answered for this
/// installation: the application's private data root and the location of the
/// backend entry point, each absent when the host could not resolve it.
pub struct AppContext {
    pub app_data_dir: Option<String>,
    pub backend_script: Option<String>,
}

impl AppContext {
    /// Resolves the application data root and backend entry point, or reports
    /// which of the two the host environment failed to provide.
    pub fn resolve(&self) -> (r: Result<(&String, &String), BridgeError>)
        ensures
            r is Ok <==> (self.app_data_dir is Some && self.backend_script is Some),
            r matches Ok(p) ==> self.app_data_dir matches Some(d) && p.0 == d,
            r matches Ok(p) ==> self.backend_script matches Some(s) && p.1 == s,
            self.app_data_dir is None ==> (r matches Err(BridgeError::Addressing(m))
                && m@ == APP_DATA_DIR_ERROR@),
            (self.app_data_dir is Some && self.backend_script is None) ==> (r matches Err(
                BridgeError::Addressing(m),
            ) && m@ == BACKEND_SCRIPT_ERROR@),
    {
        match (&self.app_data_dir, &self.backend_script) {
            (Some(d), Some(s)) => Ok((d, s)),
            (None, _) => Err(BridgeError::Addressing(String::from_str(APP_DATA_DIR_ERROR))),
            (Some(_), None) => Err(BridgeError::Addressing(String::from_str(BACKEND_SCRIPT_ERROR))),
        }
    }
}

} // verus!
