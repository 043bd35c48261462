//! A dependency graph of playbooks, kept on the host as one marker file
//! for each playbook that was applied.
//!
//! Everything here is built from the descriptions of checks and actions;
//! it adds nothing to the engine.

use crate::actions::{create_dir_perm, perm, write_file_perm, CreateDir, WriteFile};
use crate::checks::{is_dir, is_file, IsDir, IsFile};
use crate::paths::{join_path, joined};
use vstd::prelude::*;
use vstd::string::StringExecFns;

verus! {

/// A question under a name of its own.
pub struct NamedQuestion<Q> {
    pub name: String,
    pub question: Q,
}

/// The directory that holds the markers.
pub open spec fn applied_dir() -> Seq<char> {
    "/srv/pass/applied"@
}

/// The marker of the playbook `name`: the file of that name in the marker
/// directory. A name that begins at the root stands for itself.
pub fn dep_flag_path(name: &str) -> (path: String)
    ensures
        path@ == joined(applied_dir(), name@),
        name@.len() == 0 || name@[0] != '/' ==> path@ == "/srv/pass/applied/"@ + name@,
{
    proof {
        reveal_strlit("/srv/pass/applied");
        reveal_strlit("/srv/pass/applied/");
        assert("/srv/pass/applied"@ + seq!['/'] =~= "/srv/pass/applied/"@);
    }
    join_path("/srv/pass/applied", name)
}

/// One step of the set-up: a directory to create, and the question that
/// tells whether it is there.
pub struct CreateDirStep {
    pub action: CreateDir,
    pub confirm: IsDir,
}

/// The set-up of the dependency graph, to be applied once before the
/// graph is used: as root, and where `/srv` is a directory, create the two
/// directories, each unless it is there.
pub struct DgraphSetup {
    pub name: String,
    pub description: String,
    /// The user must be root.
    pub needs_root: bool,
    /// This must be a directory.
    pub needs_dir: IsDir,
    pub steps: Vec<CreateDirStep>,
}

/// A directory for root, open to its group for writing.
fn root_dir_step(path: &str) -> (step: CreateDirStep)
    ensures
        step.action.path@ == path@,
        step.confirm.path@ == path@,
        step.action.perm.access_mode == Some(0o775u32),
        step.action.perm.user_owner matches Some(name) && name@ == "root"@,
        step.action.perm.group_owner matches Some(name) && name@ == "root"@,
{
    CreateDirStep { action: create_dir_perm(path, perm(0o775, "root")), confirm: is_dir(path) }
}

/// The set-up of the dependency graph.
pub fn init_dgraph() -> (setup: DgraphSetup)
    ensures
        setup.name@ == "Init dgraph"@,
        setup.description@ == "Init dependency graph"@,
        setup.needs_root,
        setup.needs_dir.path@ == "/srv"@,
        setup.steps@.len() == 2,
        setup.steps@[0].action.path@ == "/srv/pass"@,
        setup.steps@[0].confirm.path@ == "/srv/pass"@,
        setup.steps@[1].action.path@ == applied_dir(),
        setup.steps@[1].confirm.path@ == applied_dir(),
        forall|i: int|
            0 <= i < 2 ==> (#[trigger] setup.steps@[i]).action.perm.access_mode == Some(0o775u32),
{
    let mut steps: Vec<CreateDirStep> = Vec::new();
    steps.push(root_dir_step("/srv/pass"));
    steps.push(root_dir_step("/srv/pass/applied"));
    DgraphSetup {
        name: "Init dgraph".to_owned(),
        description: "Init dependency graph".to_owned(),
        needs_root: true,
        needs_dir: is_dir("/srv"),
        steps,
    }
}

/// The question whether the dependency graph was set up.
pub fn is_dgraph() -> (q: NamedQuestion<IsDir>)
    ensures
        q.name@ == "Is dgraph"@,
        q.question.path@ == applied_dir(),
{
    NamedQuestion { name: "Is dgraph".to_owned(), question: is_dir("/srv/pass/applied") }
}

/// The question whether the playbook `playbook_name` was applied: whether
/// its marker is there.
pub fn is_applied(playbook_name: &str) -> (q: NamedQuestion<IsFile>)
    ensures
        q.name@ == "Playbook `"@ + playbook_name@ + "` applied"@,
        q.question.path@ == joined(applied_dir(), playbook_name@),
{
    let name = "Playbook `".to_owned().concat(playbook_name).concat("` applied");
    let path = dep_flag_path(playbook_name);
    NamedQuestion { name, question: is_file(path.as_str()) }
}

/// The instruction that marks a playbook as applied: as root, and where
/// the dependency graph was set up, write its empty, read-only marker,
/// unless it is there.
pub struct MarkApplied {
    pub action: WriteFile,
    /// The user must be root.
    pub needs_root: bool,
    pub needs_dgraph: NamedQuestion<IsDir>,
    pub confirm: IsFile,
}

/// The instruction that marks the playbook `applied_playbook` as applied.
pub fn mark_applied(applied_playbook: &str) -> (m: MarkApplied)
    ensures
        m.action.path@ == joined(applied_dir(), applied_playbook@),
        m.action.data@.len() == 0,
        m.action.perm.access_mode == Some(0o444u32),
        m.action.perm.user_owner matches Some(name) && name@ == "root"@,
        m.action.perm.group_owner matches Some(name) && name@ == "root"@,
        m.needs_root,
        m.needs_dgraph.name@ == "Dependency graph is supported"@,
        m.needs_dgraph.question.path@ == applied_dir(),
        m.confirm.path@ == joined(applied_dir(), applied_playbook@),
{
    let flag_path = dep_flag_path(applied_playbook);
    let nothing: Vec<u8> = Vec::new();
    MarkApplied {
        action: write_file_perm(flag_path.as_str(), nothing.as_slice(), perm(0o444, "root")),
        needs_root: true,
        needs_dgraph: NamedQuestion {
            name: "Dependency graph is supported".to_owned(),
            question: is_dir("/srv/pass/applied"),
        },
        confirm: is_file(flag_path.as_str()),
    }
}

} // verus!
