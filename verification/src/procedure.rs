use crate::types::{FileType, Outcome, Policy, PromptError, RemovalKind, RemoveError, Step};
use vstd::prelude::*;

verus! {

/// The classification that filesystem metadata dictates: an existing regular
/// file, an existing directory, a missing path, or anything else.
pub open spec fn classify(exists: bool, is_file: bool, is_dir: bool) -> FileType {
    if exists && is_file {
        FileType::File
    } else if exists && is_dir {
        FileType::Directory
    } else if !exists {
        FileType::NotFound
    } else {
        FileType::Other
    }
}

/// Whether the policy demands a confirmation prompt for a target with the
/// given read-only status: always in interactive mode, and for a read-only
/// target unless forced.
pub open spec fn confirmation_required(policy: Policy, is_readonly: bool) -> bool {
    policy.interactive || (!policy.force && is_readonly)
}

/// The removal primitive a file or directory classification calls for.
pub open spec fn kind_of(class: FileType) -> RemovalKind
    recommends
        class is File || class is Directory,
{
    match class {
        FileType::Directory => RemovalKind::Directory,
        _ => RemovalKind::File,
    }
}

/// The move the procedure makes for an existing file or directory target:
/// await confirmation where the policy demands one, remove outright
/// otherwise.
pub open spec fn remove_step(kind: RemovalKind, policy: Policy, is_readonly: bool) -> Step {
    if confirmation_required(policy, is_readonly) {
        Step::AwaitConfirmation(kind)
    } else {
        Step::Remove(kind)
    }
}

/// The first move of the procedure for a classified target. A missing target
/// fails fast with `NotFound` and is never prompted about; an unsupported
/// target fails with `UnsupportedType`.
pub open spec fn delete_step(class: FileType, policy: Policy, is_readonly: bool) -> Step {
    match class {
        FileType::File => remove_step(RemovalKind::File, policy, is_readonly),
        FileType::Directory => remove_step(RemovalKind::Directory, policy, is_readonly),
        FileType::NotFound => Step::Failed(RemoveError::NotFound),
        FileType::Other => Step::Failed(RemoveError::UnsupportedType),
    }
}

/// Whether a confirmation answer approves the removal: only an explicit yes
/// does. Any failure to obtain an answer counts as no.
pub open spec fn accepted(answer: Result<bool, PromptError>) -> bool {
    answer matches Ok(true)
}

/// The move the procedure makes once the confirmation service has been
/// invoked: remove on an explicit yes, otherwise skip the target.
pub open spec fn confirmation_step(kind: RemovalKind, answer: Result<bool, PromptError>) -> Step {
    if accepted(answer) {
        Step::Remove(kind)
    } else {
        Step::Skipped
    }
}

/// The report for a removal call that ended with `result`: success on `Ok`,
/// and the call's failure message wrapped as `RemovalFailed` on `Err`.
pub open spec fn outcome_of(kind: RemovalKind, result: Result<(), String>) -> Outcome {
    match result {
        Ok(_) => Outcome::Removed(kind),
        Err(cause) => Outcome::Failed(RemoveError::RemovalFailed(cause)),
    }
}

/// Classify a target from its metadata, as the caller queried it: whether
/// the path exists, is a regular file, and is a directory.
pub fn check_file_type(exists: bool, is_file: bool, is_dir: bool) -> (class: FileType)
    ensures
        class == classify(exists, is_file, is_dir),
{
    if exists && is_file {
        FileType::File
    } else if exists && is_dir {
        FileType::Directory
    } else if !exists {
        FileType::NotFound
    } else {
        FileType::Other
    }
}

/// Turn the confirmation service's answer into approval: yes approves, no
/// declines, and an error declines as well, so that removal never proceeds
/// on an ambiguous answer.
pub fn check_for_user_input(confirmation_output: Result<bool, PromptError>) -> (approved: bool)
    ensures
        approved == accepted(confirmation_output),
{
    match confirmation_output {
        Ok(true) => true,
        Ok(false) => false,
        Err(_) => false,
    }
}

/// Decide how to remove an existing file or directory target: a target that
/// is read-only or under an interactive policy first awaits one confirmation
/// prompt; any other goes straight to removal.
pub fn remove_object(kind: RemovalKind, options: &Policy, is_readonly: bool) -> (step: Step)
    ensures
        step == remove_step(kind, *options, is_readonly),
{
    let should_confirm = options.interactive || (!options.force && is_readonly);
    if should_confirm {
        Step::AwaitConfirmation(kind)
    } else {
        Step::Remove(kind)
    }
}

impl FileType {
    /// The first move of the removal procedure for this classification:
    /// dispatch files and directories to their removal decision, fail fast
    /// with `NotFound` on a missing target (no prompt is offered), and with
    /// `UnsupportedType` on anything else.
    pub fn delete(&self, options: &Policy, is_readonly: bool) -> (step: Step)
        ensures
            step == delete_step(*self, *options, is_readonly),
    {
        match self {
            FileType::File => remove_object(RemovalKind::File, options, is_readonly),
            FileType::Directory => remove_object(RemovalKind::Directory, options, is_readonly),
            FileType::NotFound => Step::Failed(RemoveError::NotFound),
            FileType::Other => Step::Failed(RemoveError::UnsupportedType),
        }
    }
}

/// Resolve an awaited confirmation: remove the target exactly on an explicit
/// yes; a no or a failed prompt skips it. The procedure never asks twice:
/// the resolved step is never another `AwaitConfirmation`.
pub fn resolve_confirmation(kind: RemovalKind, answer: Result<bool, PromptError>) -> (step: Step)
    ensures
        step == confirmation_step(kind, answer),
        !(step is AwaitConfirmation),
{
    if check_for_user_input(answer) {
        Step::Remove(kind)
    } else {
        Step::Skipped
    }
}

/// Report a performed removal: the caller hands in the removal call's
/// result, with the failure message of an unsuccessful call.
pub fn finish_removal(kind: RemovalKind, result: Result<(), String>) -> (outcome: Outcome)
    ensures
        outcome == outcome_of(kind, result),
{
    match result {
        Ok(_) => Outcome::Removed(kind),
        Err(cause) => Outcome::Failed(RemoveError::RemovalFailed(cause)),
    }
}

/// Whether a whole batch succeeded: declined removals count as success, any
/// typed failure does not.
pub open spec fn batch_ok(outcomes: Seq<Outcome>) -> bool {
    forall|i: int| 0 <= i < outcomes.len() ==> !(outcomes[i] is Failed)
}

/// Decide the process exit status for a batch of per-target outcomes. The
/// batch is best-effort: a failure does not abort the remaining targets, it
/// only makes the whole run report failure at the end.
pub fn batch_success(outcomes: &Vec<Outcome>) -> (ok: bool)
    ensures
        ok == batch_ok(outcomes@),
{
    let mut ok = true;
    let mut i: usize = 0;
    while i < outcomes.len()
        invariant
            0 <= i <= outcomes@.len(),
            ok == (forall|j: int| 0 <= j < i ==> !(outcomes@[j] is Failed)),
        decreases outcomes@.len() - i,
    {
        match &outcomes[i] {
            Outcome::Failed(_) => {
                ok = false;
            },
            _ => {},
        }
        i = i + 1;
    }
    ok
}

} // verus!
