//! The command dispatcher: one constructor per supported action.
//!
//! Each constructor composes project addressing and argument encoding into
//! one fully encoded [`Invocation`], or fails with a classified error before
//! anything runs. The embedding application spawns the invocation and hands
//! the captured [`crate::decoding::Outcome`] to the decoder matching the
//! command's result shape: [`crate::decoding::decode_count`] for the two
//! import commands, [`crate::decoding::decode_payload`] for cockpit data,
//! project listing and project creation.
//!
//! A command with an unresolved application data root or backend entry point
//! fails with an addressing error and produces no invocation, so no process
//! is ever spawned for it.

use vstd::prelude::*;
use vstd::string::StringExecFns;
use crate::addressing::{AppContext, store_location};
use crate::decimal::i32_dec;
use crate::encoding::{
    Invocation,
    contains_nul,
    has_nul,
    import_master_spec_args,
    import_supplier_feedback_args,
    get_cockpit_data_args,
    list_recent_projects_args,
    create_project_args,
    PYTHON,
    INLINE_FLAG,
    IMPORT_MASTER_SPEC_SCRIPT,
    IMPORT_SUPPLIER_FEEDBACK_SCRIPT,
    GET_COCKPIT_DATA_SCRIPT,
    LIST_RECENT_PROJECTS_OP,
    CREATE_PROJECT_OP,
};
use crate::errors::{BridgeError, APP_DATA_DIR_ERROR, BACKEND_SCRIPT_ERROR, NUL_ARGUMENT_ERROR};

verus! {

/// Builds the invocation that imports a master specification document into a
/// project's store. Succeeds exactly when the file path can travel as one
/// process argument.
pub fn import_master_spec_invocation(project_id: i32, file_path: &str) -> (r: Result<
    Invocation,
    BridgeError,
>)
    ensures
        r is Ok <==> !has_nul(file_path@),
        r matches Ok(inv) ==> inv.program@ == PYTHON@ && inv.args_view()
            == import_master_spec_args(project_id as int, file_path@),
        r matches Err(e) ==> (e matches BridgeError::Encoding(m) && m@ == NUL_ARGUMENT_ERROR@),
{
    if contains_nul(file_path) {
        return Err(BridgeError::Encoding(String::from_str(NUL_ARGUMENT_ERROR)));
    }
    let mut args: Vec<String> = Vec::new();
    args.push(String::from_str(INLINE_FLAG));
    args.push(String::from_str(IMPORT_MASTER_SPEC_SCRIPT));
    args.push(store_location(project_id));
    args.push(i32_dec(project_id));
    args.push(String::from_str(file_path));
    let inv = Invocation { program: String::from_str(PYTHON), args };
    proof {
        assert(inv.args_view() =~= import_master_spec_args(project_id as int, file_path@));
    }
    Ok(inv)
}

/// Builds the invocation that imports one supplier's feedback for an
/// iteration of a project. Succeeds exactly when every text parameter can
/// travel as one process argument.
pub fn import_supplier_feedback_invocation(
    project_id: i32,
    iteration_id_str: &str,
    supplier_name: &str,
    file_path: &str,
) -> (r: Result<Invocation, BridgeError>)
    ensures
        r is Ok <==> (!has_nul(iteration_id_str@) && !has_nul(supplier_name@) && !has_nul(
            file_path@,
        )),
        r matches Ok(inv) ==> inv.program@ == PYTHON@ && inv.args_view()
            == import_supplier_feedback_args(
            project_id as int,
            iteration_id_str@,
            supplier_name@,
            file_path@,
        ),
        r matches Err(e) ==> (e matches BridgeError::Encoding(m) && m@ == NUL_ARGUMENT_ERROR@),
{
    if contains_nul(iteration_id_str) || contains_nul(supplier_name) || contains_nul(file_path) {
        return Err(BridgeError::Encoding(String::from_str(NUL_ARGUMENT_ERROR)));
    }
    let mut args: Vec<String> = Vec::new();
    args.push(String::from_str(INLINE_FLAG));
    args.push(String::from_str(IMPORT_SUPPLIER_FEEDBACK_SCRIPT));
    args.push(store_location(project_id));
    args.push(i32_dec(project_id));
    args.push(String::from_str(iteration_id_str));
    args.push(String::from_str(supplier_name));
    args.push(String::from_str(file_path));
    let inv = Invocation { program: String::from_str(PYTHON), args };
    proof {
        assert(inv.args_view() =~= import_supplier_feedback_args(
            project_id as int,
            iteration_id_str@,
            supplier_name@,
            file_path@,
        ));
    }
    Ok(inv)
}

/// Builds the invocation that fetches aggregated cockpit data for one
/// (project, iteration) pair. Both parameters are integers, so encoding
/// cannot fail.
pub fn get_cockpit_data_invocation(project_id: i32, iteration_id: i32) -> (inv: Invocation)
    ensures
        inv.program@ == PYTHON@,
        inv.args_view() == get_cockpit_data_args(project_id as int, iteration_id as int),
{
    let mut args: Vec<String> = Vec::new();
    args.push(String::from_str(INLINE_FLAG));
    args.push(String::from_str(GET_COCKPIT_DATA_SCRIPT));
    args.push(store_location(project_id));
    args.push(i32_dec(project_id));
    args.push(i32_dec(iteration_id));
    let inv = Invocation { program: String::from_str(PYTHON), args };
    proof {
        assert(inv.args_view() =~= get_cockpit_data_args(project_id as int, iteration_id as int));
    }
    inv
}

/// Builds the invocation that lists the projects known to this installation.
/// Fails with an addressing error when the host environment resolves no
/// application data root or no backend entry point, and with an encoding
/// error when a resolved path cannot travel as one process argument.
pub fn list_recent_projects_invocation(ctx: &AppContext) -> (r: Result<Invocation, BridgeError>)
    ensures
        r is Ok <==> (ctx.app_data_dir matches Some(d) && ctx.backend_script matches Some(s)
            && !has_nul(d@) && !has_nul(s@)),
        r matches Ok(inv) ==> (ctx.app_data_dir matches Some(d) && ctx.backend_script matches Some(
            s,
        ) && inv.program@ == PYTHON@ && inv.args_view() == list_recent_projects_args(s@, d@)),
        ctx.app_data_dir is None ==> (r matches Err(BridgeError::Addressing(m)) && m@
            == APP_DATA_DIR_ERROR@),
        (ctx.app_data_dir is Some && ctx.backend_script is None) ==> (r matches Err(
            BridgeError::Addressing(m),
        ) && m@ == BACKEND_SCRIPT_ERROR@),
        (ctx.app_data_dir is Some && ctx.backend_script is Some && r is Err) ==> (r matches Err(
            BridgeError::Encoding(m),
        ) && m@ == NUL_ARGUMENT_ERROR@),
{
    let (dir, script) = match ctx.resolve() {
        Ok(p) => p,
        Err(e) => {
            return Err(e);
        },
    };
    if contains_nul(dir.as_str()) || contains_nul(script.as_str()) {
        return Err(BridgeError::Encoding(String::from_str(NUL_ARGUMENT_ERROR)));
    }
    let mut args: Vec<String> = Vec::new();
    args.push(script.clone());
    args.push(String::from_str(LIST_RECENT_PROJECTS_OP));
    args.push(dir.clone());
    let inv = Invocation { program: String::from_str(PYTHON), args };
    proof {
        assert(inv.args_view() =~= list_recent_projects_args(script@, dir@));
    }
    Ok(inv)
}

/// Builds the invocation that creates a new project under a user-chosen name
/// and filesystem path. Addressing is settled first: when the application
/// data root or the backend entry point cannot be resolved, the command fails
/// with an addressing error and no invocation exists to spawn.
pub fn create_project_invocation(ctx: &AppContext, name: &str, path: &str) -> (r: Result<
    Invocation,
    BridgeError,
>)
    ensures
        r is Ok <==> (ctx.app_data_dir matches Some(d) && ctx.backend_script matches Some(s)
            && !has_nul(d@) && !has_nul(s@) && !has_nul(name@) && !has_nul(path@)),
        r matches Ok(inv) ==> (ctx.app_data_dir matches Some(d) && ctx.backend_script matches Some(
            s,
        ) && inv.program@ == PYTHON@ && inv.args_view() == create_project_args(
            s@,
            d@,
            name@,
            path@,
        )),
        ctx.app_data_dir is None ==> (r matches Err(BridgeError::Addressing(m)) && m@
            == APP_DATA_DIR_ERROR@),
        (ctx.app_data_dir is Some && ctx.backend_script is None) ==> (r matches Err(
            BridgeError::Addressing(m),
        ) && m@ == BACKEND_SCRIPT_ERROR@),
        (ctx.app_data_dir is Some && ctx.backend_script is Some && r is Err) ==> (r matches Err(
            BridgeError::Encoding(m),
        ) && m@ == NUL_ARGUMENT_ERROR@),
{
    let (dir, script) = match ctx.resolve() {
        Ok(p) => p,
        Err(e) => {
            return Err(e);
        },
    };
    if contains_nul(dir.as_str()) || contains_nul(script.as_str()) || contains_nul(name)
        || contains_nul(path) {
        return Err(BridgeError::Encoding(String::from_str(NUL_ARGUMENT_ERROR)));
    }
    let mut args: Vec<String> = Vec::new();
    args.push(script.clone());
    args.push(String::from_str(CREATE_PROJECT_OP));
    args.push(dir.clone());
    args.push(String::from_str(name));
    args.push(String::from_str(path));
    let inv = Invocation { program: String::from_str(PYTHON), args };
    proof {
        assert(inv.args_view() =~= create_project_args(script@, dir@, name@, path@));
    }
    Ok(inv)
}

} // verus!
