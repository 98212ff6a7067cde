//! Argument encoding.
//!
//! Converts typed command parameters into the backend process's invocation
//! surface. Every parameter travels as one discrete process argument, never
//! interpolated into a composed command string, so a parameter's content can
//! neither change which operation runs nor add an operation. The inline
//! script bodies below are fixed constants that read their inputs from the
//! argument list; the spec-level argument lists pin every slot of every
//! invocation exactly.

use vstd::prelude::*;
use crate::addressing::store_location_spec;
use crate::decimal::int_dec;

verus! {

/// The interpreter that runs the backend.
pub const PYTHON: &'static str = "python3";

/// The interpreter flag that takes an inline script body as the next
/// argument.
pub const INLINE_FLAG: &'static str = "-c";

/// Inline script for a master specification import. It reads the store
/// location, the project identifier and the file path from the argument
/// list; nothing of a parameter's content is part of the script.
pub const IMPORT_MASTER_SPEC_SCRIPT: &'static str = "import sys; from backend.import_manager import ImportManager; from sqlalchemy import create_engine; engine = create_engine(sys.argv[1]); im = ImportManager(engine); print(im.import_master_spec(int(sys.argv[2]), sys.argv[3]))";

/// Inline script for a supplier feedback import. It reads the store
/// location, the project identifier, the iteration identifier, the supplier
/// name and the file path from the argument list.
pub const IMPORT_SUPPLIER_FEEDBACK_SCRIPT: &'static str = "import sys; from backend.import_manager import ImportManager; from sqlalchemy import create_engine; engine = create_engine(sys.argv[1]); im = ImportManager(engine); print(im.import_supplier_feedback(int(sys.argv[2]), sys.argv[3], sys.argv[4], sys.argv[5]))";

/// Inline script for a cockpit data fetch. It reads the store location, the
/// project identifier and the iteration identifier from the argument list.
pub const GET_COCKPIT_DATA_SCRIPT: &'static str = "import sys, json; from backend.cockpit_data_service import CockpitDataService; from sqlalchemy import create_engine; engine = create_engine(sys.argv[1]); cds = CockpitDataService(engine); print(json.dumps(cds.get_cockpit_data(int(sys.argv[2]), int(sys.argv[3]))))";

/// Backend subcommand name for listing recent projects.
pub const LIST_RECENT_PROJECTS_OP: &'static str = "list_recent_projects";

/// Backend subcommand name for creating a project.
pub const CREATE_PROJECT_OP: &'static str = "create_project";

/// One fully encoded backend invocation: the program to run and its discrete
/// argument list. Building a value of this type has no side effect; the
/// embedding application spawns it.
#[derive(Debug, Clone, PartialEq, Eq)]
pub struct Invocation {
    pub program: String,
    pub args: Vec<String>,
}

impl Invocation {
    /// The argument list as a sequence of character sequences.
    pub open spec fn args_view(&self) -> Seq<Seq<char>> {
        self.args.deep_view()
    }
}

/// Whether a text value holds an embedded NUL character, the one character a
/// process argument cannot carry.
pub open spec fn has_nul(s: Seq<char>) -> bool {
    exists|i: int| 0 <= i < s.len() && s[i] == '\u{0}'
}

/// Scans a parameter for an embedded NUL character.
pub fn contains_nul(s: &str) -> (r: bool)
    ensures
        r == has_nul(s@),
{
    let mut found = false;
    for c in it: s.chars()
        invariant
            it.seq() == s@,
            found == (exists|i: int| 0 <= i < it.index() && it.seq()[i] == '\u{0}'),
    {
        if c == '\u{0}' {
            found = true;
        }
    }
    found
}

/// The encoded argument list of a master specification import.
pub open spec fn import_master_spec_args(project_id: int, file_path: Seq<char>) -> Seq<Seq<char>> {
    seq![
        INLINE_FLAG@,
        IMPORT_MASTER_SPEC_SCRIPT@,
        store_location_spec(project_id),
        int_dec(project_id),
        file_path,
    ]
}

/// The encoded argument list of a supplier feedback import.
pub open spec fn import_supplier_feedback_args(
    project_id: int,
    iteration_id: Seq<char>,
    supplier_name: Seq<char>,
    file_path: Seq<char>,
) -> Seq<Seq<char>> {
    seq![
        INLINE_FLAG@,
        IMPORT_SUPPLIER_FEEDBACK_SCRIPT@,
        store_location_spec(project_id),
        int_dec(project_id),
        iteration_id,
        supplier_name,
        file_path,
    ]
}

/// The encoded argument list of a cockpit data fetch.
pub open spec fn get_cockpit_data_args(project_id: int, iteration_id: int) -> Seq<Seq<char>> {
    seq![
        INLINE_FLAG@,
        GET_COCKPIT_DATA_SCRIPT@,
        store_location_spec(project_id),
        int_dec(project_id),
        int_dec(iteration_id),
    ]
}

/// The encoded argument list of a recent-projects listing.
pub open spec fn list_recent_projects_args(
    backend_script: Seq<char>,
    app_data_dir: Seq<char>,
) -> Seq<Seq<char>> {
    seq![backend_script, LIST_RECENT_PROJECTS_OP@, app_data_dir]
}

/// The encoded argument list of a project creation.
pub open spec fn create_project_args(
    backend_script: Seq<char>,
    app_data_dir: Seq<char>,
    name: Seq<char>,
    path: Seq<char>,
) -> Seq<Seq<char>> {
    seq![backend_script, CREATE_PROJECT_OP@, app_data_dir, name, path]
}

/// Law: encoding a master specification import is injection-safe. The slots
/// that select the operation — the inline flag, the script body, the store
/// location and the project identifier — never depend on the file path, and
/// the file path occupies exactly one discrete slot, verbatim.
pub proof fn lemma_import_master_spec_injection_safe(project_id: int, file_path: Seq<char>)
    ensures
        import_master_spec_args(project_id, file_path).len() == 5,
        import_master_spec_args(project_id, file_path)[0] == INLINE_FLAG@,
        import_master_spec_args(project_id, file_path)[1] == IMPORT_MASTER_SPEC_SCRIPT@,
        import_master_spec_args(project_id, file_path)[4] == file_path,
        forall|other: Seq<char>|
            (#[trigger] import_master_spec_args(project_id, other)).subrange(0, 4)
                =~= import_master_spec_args(project_id, file_path).subrange(0, 4),
{
}

/// Law: encoding a supplier feedback import is injection-safe. The
/// operation-selecting slots never depend on the iteration identifier, the
/// supplier name or the file path, and each of those parameters occupies
/// exactly one discrete slot, verbatim.
pub proof fn lemma_import_supplier_feedback_injection_safe(
    project_id: int,
    iteration_id: Seq<char>,
    supplier_name: Seq<char>,
    file_path: Seq<char>,
)
    ensures
        import_supplier_feedback_args(project_id, iteration_id, supplier_name, file_path).len()
            == 7,
        import_supplier_feedback_args(project_id, iteration_id, supplier_name, file_path)[0]
            == INLINE_FLAG@,
        import_supplier_feedback_args(project_id, iteration_id, supplier_name, file_path)[1]
            == IMPORT_SUPPLIER_FEEDBACK_SCRIPT@,
        import_supplier_feedback_args(project_id, iteration_id, supplier_name, file_path)[4]
            == iteration_id,
        import_supplier_feedback_args(project_id, iteration_id, supplier_name, file_path)[5]
            == supplier_name,
        import_supplier_feedback_args(project_id, iteration_id, supplier_name, file_path)[6]
            == file_path,
        forall|i2: Seq<char>, s2: Seq<char>, f2: Seq<char>|
            (#[trigger] import_supplier_feedback_args(project_id, i2, s2, f2)).subrange(0, 4)
                =~= import_supplier_feedback_args(
                project_id,
                iteration_id,
                supplier_name,
                file_path,
            ).subrange(0, 4),
{
}

/// Law: encoding a project creation is injection-safe. The subcommand slot is
/// a fixed constant whatever the project name and path hold, and the name and
/// path each occupy exactly one discrete slot, verbatim.
pub proof fn lemma_create_project_injection_safe(
    backend_script: Seq<char>,
    app_data_dir: Seq<char>,
    name: Seq<char>,
    path: Seq<char>,
)
    ensures
        create_project_args(backend_script, app_data_dir, name, path).len() == 5,
        create_project_args(backend_script, app_data_dir, name, path)[1] == CREATE_PROJECT_OP@,
        create_project_args(backend_script, app_data_dir, name, path)[3] == name,
        create_project_args(backend_script, app_data_dir, name, path)[4] == path,
        forall|n2: Seq<char>, p2: Seq<char>|
            (#[trigger] create_project_args(backend_script, app_data_dir, n2, p2)).subrange(0, 3)
                =~= create_project_args(backend_script, app_data_dir, name, path).subrange(0, 3),
{
}

} // verus!
