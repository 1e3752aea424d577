use vstd::prelude::*;

verus! {

/// The flags that govern when a removal asks for confirmation.
///
/// `interactive` takes precedence over `force`: when it is set, a prompt is
/// required before every removal, whatever `force` says.
#[derive(Clone, Copy, Debug, PartialEq, Eq)]
pub struct Policy {
    /// Suppress confirmation prompts, except where `interactive` overrides.
    pub force: bool,
    /// Require confirmation before every removal, regardless of `force`.
    pub interactive: bool,
}

/// What a target path was found to be at the moment of inspection.
#[derive(Clone, Copy, Debug, PartialEq, Eq)]
pub enum FileType {
    /// An existing regular file.
    File,
    /// An existing directory.
    Directory,
    /// The path does not exist.
    NotFound,
    /// The path exists but is neither a regular file nor a directory
    /// (a device node, a socket, a dangling symlink).
    Other,
}

/// Which removal primitive a target calls for.
#[derive(Clone, Copy, Debug, PartialEq, Eq)]
pub enum RemovalKind {
    /// Remove a single regular file.
    File,
    /// Remove a directory and all of its contents.
    Directory,
}

/// Why the confirmation service could not produce an answer.
#[derive(Clone, Copy, Debug, PartialEq, Eq)]
pub enum PromptError {
    /// No interactive terminal was available to ask on.
    NotInteractive,
    /// The operator dismissed the prompt without answering.
    Canceled,
    /// Reading the answer failed.
    Io,
}

/// A typed failure of the removal procedure.
#[derive(Clone, Debug, PartialEq, Eq)]
pub enum RemoveError {
    /// The target does not exist; nothing was removed.
    NotFound,
    /// The target is neither a regular file nor a directory; nothing was
    /// removed.
    UnsupportedType,
    /// The removal call itself failed after approval, with its message.
    RemovalFailed(String),
}

/// The next move of the removal decision procedure.
///
/// The caller drives the procedure: on `AwaitConfirmation` it invokes the
/// confirmation service once and resolves the answer, on `Remove` it issues
/// the removal call, and `Skipped` and `Failed` end the run for the target.
#[derive(Clone, Debug, PartialEq, Eq)]
pub enum Step {
    /// Invoke the confirmation service once for this target.
    AwaitConfirmation(RemovalKind),
    /// Approval stands: perform the removal.
    Remove(RemovalKind),
    /// The operator declined; a successful no-op, not a failure.
    Skipped,
    /// The target cannot be removed; nothing was attempted.
    Failed(RemoveError),
}

/// The per-target report once the procedure has run to completion.
#[derive(Clone, Debug, PartialEq, Eq)]
pub enum Outcome {
    /// The target was removed.
    Removed(RemovalKind),
    /// The operator declined; the target was left intact.
    Skipped,
    /// A typed failure; the target was not removed by this run.
    Failed(RemoveError),
}

} // verus!
