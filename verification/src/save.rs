//! Reading workflow scripts and saving workflows.
use crate::authority::ApprovalsReviewer;
use crate::digest::{digest_text, text_digest};
use crate::error::{invalid_request, refused_by, RpcError};
use crate::ids::{
    is_id_component, is_save_char, is_save_name, save_name, workflow_id_component,
};
use crate::path::{is_under, joined_path, one_component, path_text, two_components, AbsolutePath};
use crate::protocol::{WorkflowSaveParams, WorkflowSaveResponse, WorkflowScriptReadResponse};
use crate::text::{plus, same};
use crate::workspace::{any, path_chain};
use vstd::prelude::*;
use vstd::string::*;

verus! {

/// The script that a path names, relative to the parent's directory.
pub fn resolve_script_path(cwd: &AbsolutePath, script_path: &str) -> (res: AbsolutePath)
    ensures
        res@ == joined_path(cwd@, script_path@),
{
    cwd.join(script_path)
}

/// Whether this answers the reading of a script.
pub open spec fn is_read(
    resolved_path: Seq<Seq<char>>,
    source: Seq<char>,
    res: WorkflowScriptReadResponse,
) -> bool {
    &&& res.resolved_path@ == path_text(resolved_path)
    &&& res.source@ == source
    &&& res.source_digest@ == text_digest(source)
}

/// The answer to a script that was read.
pub fn script_read(resolved_path: &AbsolutePath, source: String) -> (res:
    WorkflowScriptReadResponse)
    ensures
        is_read(resolved_path@, source@, res),
{
    WorkflowScriptReadResponse {
        resolved_path: resolved_path.text(),
        source_digest: digest_text(source.as_str()),
        source,
    }
}

/// Why a save request is refused by itself.
pub open spec fn save_refusal(params: WorkflowSaveParams) -> Option<Seq<char>> {
    if !is_save_name(params.name@) || !is_id_component(params.run_id@) {
        Some("invalid workflow save identity"@)
    } else if text_digest(params.source@) != params.source_digest@ {
        Some("workflow save source digest mismatch"@)
    } else {
        None
    }
}

/// Whether a save request names a workflow and a run, and its source is the one it was made for.
pub fn check_save_request(params: &WorkflowSaveParams) -> (res: Result<(), RpcError>)
    ensures
        refused_by(res, save_refusal(*params)),
{
    if !save_name(params.name.as_str()) || !workflow_id_component(params.run_id.as_str()) {
        return Err(invalid_request("invalid workflow save identity"));
    }
    if !same(digest_text(params.source.as_str()).as_str(), params.source_digest.as_str()) {
        return Err(invalid_request("workflow save source digest mismatch"));
    }
    Ok(())
}

/// The canonical personal root, as far as it is known.
#[derive(Debug)]
pub enum PersonalRoot {
    Found(AbsolutePath),
    Missing,
    /// It could not be looked at.
    Failed(String),
}

/// Whether these are the directories in which a project's workflows are looked for.
pub open spec fn are_candidates(
    boundary: Seq<Seq<char>>,
    cwd: Seq<Seq<char>>,
    candidates: Seq<AbsolutePath>,
) -> bool {
    &&& !is_under(cwd, boundary) ==> candidates.len() == 0
    &&& is_under(cwd, boundary) ==> candidates.len() == cwd.len() - boundary.len() + 1 && forall|
        i: int,
    |
        0 <= i < candidates.len() ==> (#[trigger] candidates[i])@ == joined_path(
            cwd.take(cwd.len() - i),
            ".codex/workflows"@,
        )
}

/// The directories of a project in which a workflow directory is looked for: the parent's directory
/// and those above it, down to and with the project's root. None if the parent is outside.
pub fn save_candidates(boundary: &AbsolutePath, cwd: &AbsolutePath) -> (res: Vec<AbsolutePath>)
    ensures
        are_candidates(boundary@, cwd@, res@),
{
    let mut out: Vec<AbsolutePath> = Vec::new();
    if !cwd.starts_with(boundary) {
        return out;
    }
    let chain = path_chain(boundary, cwd);
    let mut i: usize = 0;
    while i < chain.len()
        invariant
            i <= chain@.len(),
            out@.len() == i,
            forall|j: int|
                0 <= j < chain@.len() ==> (#[trigger] chain@[j])@ == cwd@.take(cwd@.len() - j),
            forall|j: int|
                0 <= j < i ==> (#[trigger] out@[j])@ == joined_path(
                    cwd@.take(cwd@.len() - j),
                    ".codex/workflows"@,
                ),
        decreases chain@.len() - i,
    {
        assert(chain@[i as int]@ == cwd@.take(cwd@.len() - i));
        out.push(chain[i].join(".codex/workflows"));
        i = i + 1;
    }
    out
}

/// Whether a project's workflows are saved in this directory.
pub open spec fn is_project_directory(
    boundary: Seq<Seq<char>>,
    candidates: Seq<AbsolutePath>,
    exists: Seq<bool>,
    directory: Seq<Seq<char>>,
) -> bool {
    &&& exists.contains(true) ==> exists|i: int|
        #![trigger exists[i]]
        0 <= i < candidates.len() && exists[i] && directory == candidates[i]@ && forall|j: int|
            0 <= j < i ==> !#[trigger] exists[j]
    &&& !exists.contains(true) ==> directory == joined_path(boundary, ".codex/workflows"@)
}

/// The project directory that a workflow is saved in: the nearest candidate that exists, or else the
/// one at the project's root. `exists` tells which candidates are directories.
pub fn workflow_project_save_directory(
    boundary: &AbsolutePath,
    candidates: &Vec<AbsolutePath>,
    exists: &Vec<bool>,
) -> (res: AbsolutePath)
    requires
        candidates@.len() == exists@.len(),
    ensures
        is_project_directory(boundary@, candidates@, exists@, res@),
{
    let mut i: usize = 0;
    while i < candidates.len()
        invariant
            candidates@.len() == exists@.len(),
            i <= candidates@.len(),
            forall|j: int| 0 <= j < i ==> !#[trigger] exists@[j],
        decreases candidates@.len() - i,
    {
        if exists[i] {
            return candidates[i].copy();
        }
        i = i + 1;
    }
    boundary.join(".codex/workflows")
}

/// Why no directory is found for a save.
pub open spec fn save_directory_refusal(
    scope: Seq<char>,
    personal: PersonalRoot,
    project: Result<AbsolutePath, String>,
) -> Option<Seq<char>> {
    if scope == "user"@ {
        match personal {
            PersonalRoot::Failed(message) => Some(
                "personal workflow root is not accessible: "@ + message@,
            ),
            _ => None,
        }
    } else if scope == "project"@ {
        match project {
            Ok(_) => None,
            Err(message) => Some(message@),
        }
    } else {
        Some("invalid workflow save scope"@)
    }
}

/// The directory of a save: the personal one, below its canonical root where that exists, or the
/// project's.
pub open spec fn save_directory(
    scope: Seq<char>,
    codex_home: Seq<Seq<char>>,
    personal: PersonalRoot,
    project: Result<AbsolutePath, String>,
) -> Seq<Seq<char>> {
    if scope == "user"@ {
        match personal {
            PersonalRoot::Found(root) => joined_path(root@, "workflows"@),
            _ => joined_path(codex_home, "workflows"@),
        }
    } else {
        project->Ok_0@
    }
}

/// Where a workflow is saved.
#[derive(Debug)]
pub struct SaveDestination {
    pub directory: AbsolutePath,
    pub target: AbsolutePath,
    /// The project's configuration directory, which must not be a symlink either.
    pub config_directory: Option<AbsolutePath>,
}

/// The file of a saved workflow.
pub open spec fn save_target(directory: Seq<Seq<char>>, name: Seq<char>) -> Seq<Seq<char>> {
    joined_path(directory, name + ".js"@)
}

/// Whether a workflow that is saved in a directory goes there.
pub open spec fn is_destination(
    scope: Seq<char>,
    name: Seq<char>,
    directory: Seq<Seq<char>>,
    destination: SaveDestination,
) -> bool {
    &&& destination.directory@ == directory
    &&& destination.target@ == save_target(directory, name)
    &&& match destination.config_directory {
        Some(config) => scope == "project"@ && directory.len() > 0 && config@
            == directory.drop_last(),
        None => scope != "project"@ || directory.len() == 0,
    }
}

/// Finds the destination of a save.
pub fn save_destination(
    params: &WorkflowSaveParams,
    codex_home: &AbsolutePath,
    personal: &PersonalRoot,
    project: &Result<AbsolutePath, String>,
) -> (res: Result<SaveDestination, RpcError>)
    ensures
        refused_by(res, save_directory_refusal(params.scope@, *personal, *project)),
        res matches Ok(destination) ==> is_destination(
            params.scope@,
            params.name@,
            save_directory(params.scope@, codex_home@, *personal, *project),
            destination,
        ),
{
    let directory = if same(params.scope.as_str(), "user") {
        match personal {
            PersonalRoot::Found(root) => root.join("workflows"),
            PersonalRoot::Missing => codex_home.join("workflows"),
            PersonalRoot::Failed(message) => {
                return Err(
                    invalid_request(
                        plus(
                            "personal workflow root is not accessible: ",
                            message.as_str(),
                        ).as_str(),
                    ),
                );
            },
        }
    } else if same(params.scope.as_str(), "project") {
        match project {
            Ok(directory) => directory.copy(),
            Err(message) => {
                return Err(invalid_request(message.as_str()));
            },
        }
    } else {
        return Err(invalid_request("invalid workflow save scope"));
    };
    let target = directory.join(plus(params.name.as_str(), ".js").as_str());
    let config_directory = if same(params.scope.as_str(), "project") {
        directory.parent()
    } else {
        None
    };
    Ok(SaveDestination { directory, target, config_directory })
}

/// An accepted name is one component, so the file of a saved workflow stands directly in its
/// directory.
pub proof fn save_stays_in_its_directory(directory: Seq<Seq<char>>, name: Seq<char>)
    requires
        is_save_name(name),
    ensures
        save_target(directory, name) == directory.push(name + ".js"@),
{
    reveal_strlit(".js");
    reveal_strlit(".");
    let file = name + ".js"@;
    assert forall|i: int| 0 <= i < file.len() implies file[i] != '/' by {
        if i < name.len() {
            assert(is_save_char(name[i]));
        }
    }
    one_component(file);
    assert(save_target(directory, name) =~= directory.push(file));
}

/// What a save needs of permissions.
#[derive(Clone, Copy, Debug, PartialEq, Eq, Structural)]
pub enum SavePermission {
    /// The parent may write the file already.
    Held,
    /// The directory is granted for this save.
    Granted,
}

/// Why a save may not write its file.
pub open spec fn save_permission_refusal(
    symlinks: Seq<bool>,
    can_write: bool,
    reviewer: ApprovalsReviewer,
    approved: bool,
) -> Option<Seq<char>> {
    if symlinks.contains(true) {
        Some("unsafe symlink workflow save destination"@)
    } else if !can_write && reviewer is AutoReview && !approved {
        Some("workflow save was not approved"@)
    } else {
        None
    }
}

/// The permission that a save uses.
pub open spec fn permission_used(can_write: bool) -> SavePermission {
    if can_write {
        SavePermission::Held
    } else {
        SavePermission::Granted
    }
}

/// Decides whether a save may write its file. `symlinks` tells which parts of the destination are
/// symlinks, and `approved` what was decided automatically, where that was asked for.
pub fn save_permission(
    symlinks: &Vec<bool>,
    can_write: bool,
    reviewer: ApprovalsReviewer,
    approved: bool,
) -> (res: Result<SavePermission, RpcError>)
    ensures
        refused_by(res, save_permission_refusal(symlinks@, can_write, reviewer, approved)),
        res matches Ok(permission) ==> permission == permission_used(can_write),
{
    if any(symlinks) {
        return Err(invalid_request("unsafe symlink workflow save destination"));
    }
    if can_write {
        return Ok(SavePermission::Held);
    }
    match reviewer {
        ApprovalsReviewer::AutoReview => {
            if !approved {
                return Err(invalid_request("workflow save was not approved"));
            }
        },
        ApprovalsReviewer::User => {},
    }
    Ok(SavePermission::Granted)
}

/// A step of a save, once its destination and its permission are known.
#[derive(Clone, Copy, Debug, PartialEq, Eq, Structural)]
pub enum SaveStep {
    /// Looks whether the directory above the save directory is missing.
    ProbeParent,
    /// Makes the save directory; one that is there already will do.
    CreateDirectory,
    /// Writes the file, which must not be there yet.
    Write,
}

/// What follows a step of a save.
#[derive(Clone, Copy, Debug, PartialEq, Eq, Structural)]
pub enum AfterSave {
    Step(SaveStep),
    Fail,
    Done,
}

/// How a step of a save ended.
#[derive(Clone, Copy, Debug, PartialEq, Eq, Structural)]
pub enum SaveAnswer {
    Succeeded,
    AlreadyExists,
    Failed,
}

pub open spec fn save_next(step: SaveStep, answer: SaveAnswer) -> AfterSave {
    match step {
        SaveStep::ProbeParent => if answer is Succeeded {
            AfterSave::Step(SaveStep::CreateDirectory)
        } else {
            AfterSave::Fail
        },
        SaveStep::CreateDirectory => if answer is Failed {
            AfterSave::Fail
        } else {
            AfterSave::Step(SaveStep::Write)
        },
        SaveStep::Write => if answer is Succeeded {
            AfterSave::Done
        } else {
            AfterSave::Fail
        },
    }
}

/// Tells what follows a step of a save.
pub fn after_save_step(step: SaveStep, answer: SaveAnswer) -> (res: AfterSave)
    ensures
        res == save_next(step, answer),
{
    match step {
        SaveStep::ProbeParent => match answer {
            SaveAnswer::Succeeded => AfterSave::Step(SaveStep::CreateDirectory),
            _ => AfterSave::Fail,
        },
        SaveStep::CreateDirectory => match answer {
            SaveAnswer::Failed => AfterSave::Fail,
            _ => AfterSave::Step(SaveStep::Write),
        },
        SaveStep::Write => match answer {
            SaveAnswer::Succeeded => AfterSave::Done,
            _ => AfterSave::Fail,
        },
    }
}

/// The directory that a step may write in addition to what the save itself may: only the one above
/// the save directory, only where it is missing, and only to make directories.
pub open spec fn extra_directory(
    step: SaveStep,
    directory: Seq<Seq<char>>,
    parent_missing: bool,
) -> Option<Seq<Seq<char>>> {
    if step is CreateDirectory && parent_missing && directory.len() > 0 {
        Some(directory.drop_last())
    } else {
        None
    }
}

/// The additional directory of a step.
pub fn creation_grant(step: SaveStep, destination: &SaveDestination, parent_missing: bool) -> (res:
    Option<AbsolutePath>)
    ensures
        match res {
            Some(path) => extra_directory(step, destination.directory@, parent_missing) == Some(
                path@,
            ),
            None => extra_directory(step, destination.directory@, parent_missing) is None,
        },
{
    match step {
        SaveStep::CreateDirectory => {
            if parent_missing {
                destination.directory.parent()
            } else {
                None
            }
        },
        _ => None,
    }
}

/// What an entry of a file system policy allows.
#[derive(Clone, Copy, Debug, PartialEq, Eq, Structural)]
pub enum FileAccess {
    Read,
    Write,
    Deny,
}

/// An entry of a file system policy.
#[derive(Debug)]
pub struct PolicyEntry {
    pub path: AbsolutePath,
    pub access: FileAccess,
}

/// The entries of a policy that are about a path or a directory above it.
pub open spec fn entries_about(policy: Seq<PolicyEntry>, path: Seq<Seq<char>>) -> Seq<PolicyEntry> {
    policy.filter(|entry: PolicyEntry| is_under(path, entry.path@))
}

/// Whether a policy is that of a save with the directory above.
pub open spec fn is_creation_policy(
    policy: Seq<PolicyEntry>,
    parent: Seq<Seq<char>>,
    extended: Seq<PolicyEntry>,
) -> bool {
    &&& extended.len() == policy.len() + 1
    &&& extended.drop_last() == policy
    &&& extended.last().path@ == parent
    &&& extended.last().access == FileAccess::Write
}

/// The policy under which the save directory is made where the directory above it is missing: that
/// of the save, and the directory above.
pub fn workflow_save_directory_creation_policy(
    policy: Vec<PolicyEntry>,
    parent_directory: &AbsolutePath,
) -> (res: Vec<PolicyEntry>)
    ensures
        is_creation_policy(policy@, parent_directory@, res@),
{
    let mut policy = policy;
    let ghost before = policy@;
    policy.push(PolicyEntry { path: parent_directory.copy(), access: FileAccess::Write });
    assert(policy@.drop_last() =~= before);
    policy
}

/// Making the save directory opens the directory above it and nothing else: about paths outside of it
/// the policy says what that of the save says, and about paths below it one entry more, which allows
/// writing. No entry is lost, so what the policy of the save denies is still denied by an entry.
pub proof fn creation_policy_is_scoped(
    policy: Seq<PolicyEntry>,
    extended: Seq<PolicyEntry>,
    parent: Seq<Seq<char>>,
    path: Seq<Seq<char>>,
)
    requires
        is_creation_policy(policy, parent, extended),
    ensures
        entries_about(extended, path) == if is_under(path, parent) {
            entries_about(policy, path).push(extended.last())
        } else {
            entries_about(policy, path)
        },
        forall|i: int| 0 <= i < policy.len() ==> #[trigger] extended[i] == policy[i],
        extended.last().access == FileAccess::Write,
        extended.last().path@ == parent,
{
    reveal(Seq::filter);
    assert forall|i: int| 0 <= i < policy.len() implies #[trigger] extended[i] == policy[i] by {
        assert(extended.drop_last()[i] == extended[i]);
    }
}

/// The source of a workflow is never written with more than the save itself may write, and never
/// over a file that is there.
pub proof fn source_is_written_without_extra_grants(
    directory: Seq<Seq<char>>,
    parent_missing: bool,
    answer: SaveAnswer,
)
    ensures
        extra_directory(SaveStep::Write, directory, parent_missing) is None,
        save_next(SaveStep::Write, answer) == AfterSave::Done <==> answer is Succeeded,
{
}

/// Whether this answers a finished save.
pub open spec fn is_save_result(
    target: Seq<Seq<char>>,
    written: Result<(), String>,
    res: Result<WorkflowSaveResponse, RpcError>,
) -> bool {
    &&& refused_by(
        res,
        match written {
            Ok(_) => None,
            Err(message) => Some("workflow save failed: "@ + message@),
        },
    )
    &&& res matches Ok(response) ==> response.path@ == path_text(target)
}

/// The answer to a finished save.
pub fn save_result(destination: &SaveDestination, written: Result<(), String>) -> (res: Result<
    WorkflowSaveResponse,
    RpcError,
>)
    ensures
        is_save_result(destination.target@, written, res),
{
    match written {
        Ok(_) => Ok(WorkflowSaveResponse { path: destination.target.text() }),
        Err(message) => Err(
            invalid_request(plus("workflow save failed: ", message.as_str()).as_str()),
        ),
    }
}

/// A save is taken only for a name and a run that can be named, and only with the source that its
/// digest is of: a script that was read can be saved as it was read, and no other source with its
/// digest, unless the digests of both are the same.
pub proof fn read_script_can_be_saved(
    path: Seq<Seq<char>>,
    source: Seq<char>,
    read: WorkflowScriptReadResponse,
    params: WorkflowSaveParams,
)
    requires
        is_read(path, source, read),
        params.source_digest@ == read.source_digest@,
    ensures
        read.source@ == source,
        read.resolved_path@ == path_text(path),
        params.source@ == read.source@ ==> (save_refusal(params) is None <==> is_save_name(
            params.name@,
        ) && is_id_component(params.run_id@)),
        save_refusal(params) is None ==> text_digest(params.source@) == text_digest(source),
        save_refusal(params) is None ==> is_save_name(params.name@) && is_id_component(
            params.run_id@,
        ),
{
}

/// The workflow directory of a project is looked for in the parent's directory first and in those
/// above it, down to the project's root, and nowhere else.
pub proof fn candidates_lie_in_the_project(
    boundary: Seq<Seq<char>>,
    cwd: Seq<Seq<char>>,
    candidates: Seq<AbsolutePath>,
    between: Seq<Seq<char>>,
    i: int,
)
    requires
        are_candidates(boundary, cwd, candidates),
        0 <= i < candidates.len(),
        is_under(cwd, between),
        is_under(between, boundary),
    ensures
        is_under(cwd, boundary),
        candidates[0]@ == cwd.push(".codex"@).push("workflows"@),
        candidates.last()@ == boundary.push(".codex"@).push("workflows"@),
        is_under(candidates[i]@, boundary),
        exists|j: int|
            0 <= j < candidates.len() && (#[trigger] candidates[j])@ == between.push(
                ".codex"@,
            ).push("workflows"@),
        i > 0 ==> candidates[i]@.len() < candidates[i - 1]@.len(),
{
    assert(cwd.take(cwd.len() as int) =~= cwd);
    project_directory_is(cwd.take(cwd.len() - i));
    project_directory_is(cwd);
    project_directory_is(boundary);
    project_directory_is(between);
    let j = cwd.len() - between.len();
    assert(candidates[j]@ == between.push(".codex"@).push("workflows"@));
    assert(candidates[i]@.take(boundary.len() as int) =~= boundary);
    if i > 0 {
        project_directory_is(cwd.take(cwd.len() - (i - 1)));
        assert(candidates[i - 1]@ == cwd.take(cwd.len() - (i - 1)).push(".codex"@).push(
            "workflows"@,
        ));
    }
}

/// The workflow directory below a directory.
proof fn project_directory_is(directory: Seq<Seq<char>>)
    ensures
        joined_path(directory, ".codex/workflows"@) == directory.push(".codex"@).push(
            "workflows"@,
        ),
{
    reveal_strlit(".codex/workflows");
    reveal_strlit(".codex");
    reveal_strlit("workflows");
    reveal_strlit("/");
    reveal_strlit(".");
    assert(".codex/workflows"@ =~= ".codex"@ + "/"@ + "workflows"@);
    two_components(directory, ".codex"@, "workflows"@);
}

/// A project's workflow is saved in the nearest workflow directory that is there, and where none is,
/// in that of the project's root.
pub proof fn nearest_directory_is_taken(
    boundary: Seq<Seq<char>>,
    candidates: Seq<AbsolutePath>,
    exists: Seq<bool>,
    directory: Seq<Seq<char>>,
    i: int,
)
    requires
        candidates.len() == exists.len(),
        is_project_directory(boundary, candidates, exists, directory),
    ensures
        (forall|j: int| 0 <= j < exists.len() ==> !#[trigger] exists[j]) ==> directory
            == boundary.push(".codex"@).push("workflows"@),
        0 <= i < exists.len() && exists[i] && (forall|j: int| 0 <= j < i ==> !#[trigger] exists[j])
            ==> directory == candidates[i]@,
{
    project_directory_is(boundary);
    if 0 <= i < exists.len() && exists[i] {
        assert(exists.contains(true));
    }
}

/// A personal workflow is saved below the personal root, by its canonical name where there is one, and
/// a project's in the project's directory; any other scope is refused. The file has the name of the
/// workflow and stands directly in that directory. Of a project also the directory above is looked
/// at, and of no other.
pub proof fn save_goes_where_it_belongs(
    scope: Seq<char>,
    name: Seq<char>,
    codex_home: Seq<Seq<char>>,
    personal: PersonalRoot,
    project: Result<AbsolutePath, String>,
    destination: SaveDestination,
)
    requires
        is_save_name(name),
        is_destination(
            scope,
            name,
            save_directory(scope, codex_home, personal, project),
            destination,
        ),
    ensures
        save_directory_refusal(scope, personal, project) is None <==> (scope == "user"@
            && !(personal is Failed)) || (scope == "project"@ && project is Ok),
        scope == "user"@ && personal is Missing ==> destination.directory@ == codex_home.push(
            "workflows"@,
        ),
        scope == "user"@ ==> (personal matches PersonalRoot::Found(root) ==> destination.directory@
            == root@.push("workflows"@)),
        scope == "project"@ && project is Ok ==> destination.directory@ == project->Ok_0@,
        destination.target@ == destination.directory@.push(name + ".js"@),
        destination.config_directory is Some <==> scope == "project"@ && destination.directory@.len()
            > 0,
        destination.config_directory matches Some(config) ==> config@
            == destination.directory@.take(destination.directory@.len() - 1),
{
    reveal_strlit("user");
    reveal_strlit("project");
    reveal_strlit("workflows");
    reveal_strlit(".");
    assert("user"@.len() != "project"@.len());
    one_component("workflows"@);
    assert(joined_path(codex_home, "workflows"@) =~= codex_home.push("workflows"@));
    if let PersonalRoot::Found(root) = personal {
        assert(joined_path(root@, "workflows"@) =~= root@.push("workflows"@));
    }
    save_stays_in_its_directory(destination.directory@, name);
    if destination.directory@.len() > 0 {
        assert(destination.directory@.drop_last() =~= destination.directory@.take(
            destination.directory@.len() - 1,
        ));
    }
}

/// Nothing is saved through a symlink, and nothing without permission: what the parent may not write
/// needs the automatic approval where that reviews. What it may write needs none.
pub proof fn save_needs_permission(
    symlinks: Seq<bool>,
    can_write: bool,
    reviewer: ApprovalsReviewer,
    approved: bool,
)
    ensures
        save_permission_refusal(symlinks, can_write, reviewer, approved) is None <==> (forall|i: int|
            0 <= i < symlinks.len() ==> !#[trigger] symlinks[i]) && (can_write || reviewer is User
            || approved),
        permission_used(can_write) is Held <==> can_write,
{
}

/// How a save ends from a step on, when each step is answered so.
pub open spec fn save_end(answers: spec_fn(SaveStep) -> SaveAnswer) -> (Seq<SaveStep>, AfterSave) {
    let probe = SaveStep::ProbeParent;
    match save_next(probe, answers(probe)) {
        AfterSave::Step(make) => match save_next(make, answers(make)) {
            AfterSave::Step(write) => (
                seq![probe, make, write],
                save_next(write, answers(write)),
            ),
            end => (seq![probe, make], end),
        },
        end => (seq![probe], end),
    }
}

/// A save looks at the directory above, makes the directory and writes the file, in this order. It
/// succeeds where the file was written anew; a directory that is there already is no obstacle, and a
/// file that is there already is one.
pub proof fn save_writes_once(answers: spec_fn(SaveStep) -> SaveAnswer)
    ensures
        ({
            let (steps, end) = save_end(answers);
            let made = answers(SaveStep::ProbeParent) is Succeeded;
            let writes = made && !(answers(SaveStep::CreateDirectory) is Failed);
            &&& steps[0] is ProbeParent
            &&& steps.len() == if writes { 3nat } else if made { 2nat } else { 1nat }
            &&& made ==> steps[1] is CreateDirectory
            &&& writes ==> steps[2] is Write
            &&& end is Done <==> writes && answers(SaveStep::Write) is Succeeded
            &&& end is Fail <==> !(end is Done)
        }),
{
}

/// More than the save itself may write is written only to make its directory, only the directory
/// above it, and only where that is missing.
pub proof fn extra_directory_is_the_one_above(
    step: SaveStep,
    directory: Seq<Seq<char>>,
    parent_missing: bool,
)
    ensures
        extra_directory(step, directory, parent_missing) is Some <==> step is CreateDirectory
            && parent_missing && directory.len() > 0,
        extra_directory(step, directory, parent_missing) matches Some(extra) ==> extra
            == directory.take(directory.len() - 1),
{
    if directory.len() > 0 {
        assert(directory.drop_last() =~= directory.take(directory.len() - 1));
    }
}

/// A save is answered with the file that was written, or with why it was not.
pub proof fn save_is_answered(
    target: Seq<Seq<char>>,
    written: Result<(), String>,
    res: Result<WorkflowSaveResponse, RpcError>,
)
    requires
        is_save_result(target, written, res),
    ensures
        res is Ok <==> written is Ok,
        res matches Ok(response) ==> response.path@ == path_text(target),
        written matches Err(message) ==> res->Err_0.message@ == "workflow save failed: "@ + message@,
{
}

} // verus!
