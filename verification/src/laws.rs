use crate::procedure::{classify, confirmation_step, delete_step, kind_of};
use crate::types::{FileType, Policy, PromptError, RemovalKind, RemoveError, Step};
use vstd::prelude::*;

verus! {

/// A path that does not exist classifies as missing, and the procedure then
/// fails fast with `NotFound`: it never issues a removal call and never
/// invokes the confirmation service, whatever the policy says.
pub proof fn lemma_missing_never_removed(
    is_file: bool,
    is_dir: bool,
    policy: Policy,
    is_readonly: bool,
)
    ensures
        classify(false, is_file, is_dir) == FileType::NotFound,
        delete_step(classify(false, is_file, is_dir), policy, is_readonly) == Step::Failed(
            RemoveError::NotFound,
        ),
        !(delete_step(classify(false, is_file, is_dir), policy, is_readonly) is Remove),
        !(delete_step(classify(false, is_file, is_dir), policy, is_readonly) is AwaitConfirmation),
{
}

/// A file or directory target that is not read-only is, under `force` and
/// without `interactive`, removed outright: the confirmation service is
/// never invoked.
pub proof fn lemma_force_removes_without_prompt(
    class: FileType,
    policy: Policy,
    is_readonly: bool,
)
    requires
        class is File || class is Directory,
        policy.force,
        !policy.interactive,
        !is_readonly,
    ensures
        delete_step(class, policy, is_readonly) == Step::Remove(kind_of(class)),
        !(delete_step(class, policy, is_readonly) is AwaitConfirmation),
{
}

/// In interactive mode the confirmation service is invoked exactly once for
/// a file or directory target, whatever `force` and the read-only status
/// say: the first step awaits the prompt, and the resolved step never asks
/// again. Removal then happens exactly when the answer is an explicit yes.
pub proof fn lemma_interactive_prompts_exactly_once(
    class: FileType,
    policy: Policy,
    is_readonly: bool,
    answer: Result<bool, PromptError>,
)
    requires
        class is File || class is Directory,
        policy.interactive,
    ensures
        delete_step(class, policy, is_readonly) == Step::AwaitConfirmation(kind_of(class)),
        !(confirmation_step(kind_of(class), answer) is AwaitConfirmation),
        confirmation_step(kind_of(class), answer) == Step::Remove(kind_of(class)) <==> (
        answer matches Ok(true)),
{
}

/// A read-only regular file under neither `force` nor `interactive` still
/// goes through the confirmation service before any removal.
pub proof fn lemma_readonly_file_prompts_first(policy: Policy)
    requires
        !policy.force,
        !policy.interactive,
    ensures
        delete_step(FileType::File, policy, true) == Step::AwaitConfirmation(RemovalKind::File),
{
}

/// When the confirmation service returns an error instead of an answer, the
/// target is skipped: removal never proceeds on an ambiguous answer.
pub proof fn lemma_prompt_failure_is_fail_safe(kind: RemovalKind, error: PromptError)
    ensures
        confirmation_step(kind, Err::<bool, PromptError>(error)) == Step::Skipped,
        !(confirmation_step(kind, Err::<bool, PromptError>(error)) is Remove),
{
}

/// Running the procedure again on a target that an earlier run removed is
/// harmless: the path no longer exists, so the second run classifies it as
/// missing and reports `NotFound`, whatever policy it uses.
pub proof fn lemma_second_run_reports_not_found(
    is_file: bool,
    is_dir: bool,
    policy: Policy,
    is_readonly: bool,
)
    ensures
        delete_step(classify(false, is_file, is_dir), policy, is_readonly) == Step::Failed(
            RemoveError::NotFound,
        ),
{
}

} // verus!
