//! Conflict resolution for working copy operations.

use vstd::prelude::*;

use crate::error::Error;
use crate::types::{NodeKind, Revnum};

verus! {

/// What sort of conflict occurred.
#[derive(Debug, Clone, Copy, PartialEq, Eq, Structural)]
pub enum ConflictKind {
    /// Text or content conflict.
    Text,
    /// Property conflict.
    Property,
    /// Tree conflict (structural changes like add/delete/move).
    Tree,
}

impl ConflictKind {
    /// The raw value of this kind.
    pub open spec fn spec_raw(self) -> u32 {
        match self {
            ConflictKind::Text => 0,
            ConflictKind::Property => 1,
            ConflictKind::Tree => 2,
        }
    }

    /// The kind that a raw conflict kind stands for; only the three raw
    /// values that exist are accepted.
    pub fn from_raw(kind: u32) -> (r: ConflictKind)
        requires
            kind < 3,
        ensures
            r.spec_raw() == kind,
            kind == 0 ==> r == ConflictKind::Text,
            kind == 1 ==> r == ConflictKind::Property,
            kind == 2 ==> r == ConflictKind::Tree,
    {
        if kind == 0 {
            ConflictKind::Text
        } else if kind == 1 {
            ConflictKind::Property
        } else {
            ConflictKind::Tree
        }
    }
}

/// The incoming action that caused a conflict.
#[derive(Debug, Clone, Copy, PartialEq, Eq, Structural)]
pub enum ConflictAction {
    /// Edit.
    Edit,
    /// Add.
    Add,
    /// Delete.
    Delete,
    /// Replace.
    Replace,
}

impl ConflictAction {
    /// The raw value of this action.
    pub open spec fn spec_raw(self) -> u32 {
        match self {
            ConflictAction::Edit => 0,
            ConflictAction::Add => 1,
            ConflictAction::Delete => 2,
            ConflictAction::Replace => 3,
        }
    }

    /// The action that a raw conflict action stands for; only the four raw
    /// values that exist are accepted.
    pub fn from_raw(action: u32) -> (r: ConflictAction)
        requires
            action < 4,
        ensures
            r.spec_raw() == action,
            action == 0 ==> r == ConflictAction::Edit,
            action == 1 ==> r == ConflictAction::Add,
            action == 2 ==> r == ConflictAction::Delete,
            action == 3 ==> r == ConflictAction::Replace,
    {
        if action == 0 {
            ConflictAction::Edit
        } else if action == 1 {
            ConflictAction::Add
        } else if action == 2 {
            ConflictAction::Delete
        } else {
            ConflictAction::Replace
        }
    }
}

/// The local reason for a conflict.
#[derive(Debug, Clone, Copy, PartialEq, Eq, Structural)]
pub enum ConflictReason {
    /// Local edit.
    Edited,
    /// Local obstruction.
    Obstructed,
    /// Locally deleted.
    Deleted,
    /// Locally missing.
    Missing,
    /// Locally unversioned.
    Unversioned,
    /// Locally added.
    Added,
    /// Locally replaced.
    Replaced,
    /// Locally moved away.
    MovedAway,
    /// Locally moved here.
    MovedHere,
}

impl ConflictReason {
    /// The raw value of this reason.
    pub open spec fn spec_raw(self) -> u32 {
        match self {
            ConflictReason::Edited => 0,
            ConflictReason::Obstructed => 1,
            ConflictReason::Deleted => 2,
            ConflictReason::Missing => 3,
            ConflictReason::Unversioned => 4,
            ConflictReason::Added => 5,
            ConflictReason::Replaced => 6,
            ConflictReason::MovedAway => 7,
            ConflictReason::MovedHere => 8,
        }
    }

    /// The reason that a raw conflict reason stands for; only the nine raw
    /// values that exist are accepted.
    pub fn from_raw(reason: u32) -> (r: ConflictReason)
        requires
            reason < 9,
        ensures
            r.spec_raw() == reason,
            reason == 0 ==> r == ConflictReason::Edited,
            reason == 1 ==> r == ConflictReason::Obstructed,
            reason == 2 ==> r == ConflictReason::Deleted,
            reason == 3 ==> r == ConflictReason::Missing,
            reason == 4 ==> r == ConflictReason::Unversioned,
            reason == 5 ==> r == ConflictReason::Added,
            reason == 6 ==> r == ConflictReason::Replaced,
            reason == 7 ==> r == ConflictReason::MovedAway,
            reason == 8 ==> r == ConflictReason::MovedHere,
    {
        if reason == 0 {
            ConflictReason::Edited
        } else if reason == 1 {
            ConflictReason::Obstructed
        } else if reason == 2 {
            ConflictReason::Deleted
        } else if reason == 3 {
            ConflictReason::Missing
        } else if reason == 4 {
            ConflictReason::Unversioned
        } else if reason == 5 {
            ConflictReason::Added
        } else if reason == 6 {
            ConflictReason::Replaced
        } else if reason == 7 {
            ConflictReason::MovedAway
        } else {
            ConflictReason::MovedHere
        }
    }
}

/// Information about one side of a conflict.
#[derive(Debug, Clone)]
pub struct ConflictVersion {
    /// Repository root URL.
    pub repos_url: String,
    /// Peg revision.
    pub peg_revision: Revnum,
    /// Path in repository.
    pub path_in_repos: String,
    /// Node kind.
    pub node_kind: NodeKind,
}

/// Description of a conflict.
#[derive(Debug, Clone)]
pub struct ConflictDescription {
    /// Absolute path of the conflicted node.
    pub local_abspath: String,
    /// Node kind.
    pub node_kind: NodeKind,
    /// What sort of conflict this is.
    pub kind: ConflictKind,
    /// Property name, for property conflicts.
    pub property_name: Option<String>,
    /// Whether the file is binary.
    pub is_binary: bool,
    /// MIME type of the file.
    pub mime_type: Option<String>,
    /// The incoming action.
    pub action: ConflictAction,
    /// The local reason.
    pub reason: ConflictReason,
    /// Base file (common ancestor).
    pub base_file: Option<String>,
    /// Their file (incoming version).
    pub their_file: Option<String>,
    /// My file (local version).
    pub my_file: Option<String>,
    /// Merged file, if already merged.
    pub merged_file: Option<String>,
    /// Left source version.
    pub src_left_version: Option<ConflictVersion>,
    /// Right source version.
    pub src_right_version: Option<ConflictVersion>,
}

/// Resolution choice for a conflict.
#[derive(Debug, Clone, Copy, PartialEq, Eq, Structural)]
pub enum ConflictChoice {
    /// Postpone resolution.
    Postpone,
    /// Use base version.
    Base,
    /// Accept theirs completely.
    TheirsFull,
    /// Accept mine completely.
    MineFull,
    /// Use their version for conflict regions only.
    TheirsConflict,
    /// Use my version for conflict regions only.
    MineConflict,
    /// Use a merged version.
    Merged,
    /// Undefined / not yet decided.
    Undefined,
}

/// The options that a conflict can be resolved with, as the client names
/// them.
#[derive(Debug, Clone, Copy, PartialEq, Eq, Structural)]
pub enum ConflictOptionId {
    /// No option chosen.
    Undefined,
    /// Leave the conflict for later.
    Postpone,
    /// Take the base text.
    BaseText,
    /// Take the incoming text.
    IncomingText,
    /// Keep the working text.
    WorkingText,
    /// Take the incoming text where it conflicts.
    IncomingTextWhereConflicted,
    /// Keep the working text where it conflicts.
    WorkingTextWhereConflicted,
    /// Take the merged text.
    MergedText,
    /// Accept the working copy as it stands.
    AcceptCurrentWcState,
    /// Accept an incoming deletion.
    IncomingDeleteAccept,
    /// Ignore an incoming deletion.
    IncomingDeleteIgnore,
}

impl ConflictChoice {
    /// The raw value of this choice.
    pub open spec fn spec_raw(self) -> i32 {
        match self {
            ConflictChoice::Undefined => -1i32,
            ConflictChoice::Postpone => 0,
            ConflictChoice::Base => 1,
            ConflictChoice::TheirsFull => 2,
            ConflictChoice::MineFull => 3,
            ConflictChoice::TheirsConflict => 4,
            ConflictChoice::MineConflict => 5,
            ConflictChoice::Merged => 6,
        }
    }

    /// Converts the conflict choice to its raw SVN representation.
    pub fn to_raw(&self) -> (r: i32)
        ensures
            r == self.spec_raw(),
            *self == ConflictChoice::Undefined ==> r == -1,
            *self == ConflictChoice::Postpone ==> r == 0,
            *self == ConflictChoice::Base ==> r == 1,
            *self == ConflictChoice::TheirsFull ==> r == 2,
            *self == ConflictChoice::MineFull ==> r == 3,
            *self == ConflictChoice::TheirsConflict ==> r == 4,
            *self == ConflictChoice::MineConflict ==> r == 5,
            *self == ConflictChoice::Merged ==> r == 6,
    {
        match self {
            ConflictChoice::Undefined => -1,
            ConflictChoice::Postpone => 0,
            ConflictChoice::Base => 1,
            ConflictChoice::TheirsFull => 2,
            ConflictChoice::MineFull => 3,
            ConflictChoice::TheirsConflict => 4,
            ConflictChoice::MineConflict => 5,
            ConflictChoice::Merged => 6,
        }
    }

    /// The option that resolves a text conflict the way this choice says.
    pub open spec fn spec_text_option(self) -> ConflictOptionId {
        match self {
            ConflictChoice::Undefined => ConflictOptionId::Undefined,
            ConflictChoice::Postpone => ConflictOptionId::Postpone,
            ConflictChoice::Base => ConflictOptionId::BaseText,
            ConflictChoice::TheirsFull => ConflictOptionId::IncomingText,
            ConflictChoice::MineFull => ConflictOptionId::WorkingText,
            ConflictChoice::TheirsConflict => ConflictOptionId::IncomingTextWhereConflicted,
            ConflictChoice::MineConflict => ConflictOptionId::WorkingTextWhereConflicted,
            ConflictChoice::Merged => ConflictOptionId::MergedText,
        }
    }

    /// Convert to client conflict option ID for text conflicts.
    pub fn to_text_option_id(&self) -> (r: ConflictOptionId)
        ensures
            r == self.spec_text_option(),
            *self == ConflictChoice::MineFull ==> r == ConflictOptionId::WorkingText,
            *self == ConflictChoice::MineConflict ==> r == ConflictOptionId::WorkingTextWhereConflicted,
            *self == ConflictChoice::TheirsFull ==> r == ConflictOptionId::IncomingText,
            *self == ConflictChoice::TheirsConflict ==> r == ConflictOptionId::IncomingTextWhereConflicted,
            *self == ConflictChoice::Base ==> r == ConflictOptionId::BaseText,
            *self == ConflictChoice::Merged ==> r == ConflictOptionId::MergedText,
            *self == ConflictChoice::Postpone ==> r == ConflictOptionId::Postpone,
            *self == ConflictChoice::Undefined ==> r == ConflictOptionId::Undefined,
    {
        match self {
            ConflictChoice::Undefined => ConflictOptionId::Undefined,
            ConflictChoice::Postpone => ConflictOptionId::Postpone,
            ConflictChoice::Base => ConflictOptionId::BaseText,
            ConflictChoice::TheirsFull => ConflictOptionId::IncomingText,
            ConflictChoice::MineFull => ConflictOptionId::WorkingText,
            ConflictChoice::TheirsConflict => ConflictOptionId::IncomingTextWhereConflicted,
            ConflictChoice::MineConflict => ConflictOptionId::WorkingTextWhereConflicted,
            ConflictChoice::Merged => ConflictOptionId::MergedText,
        }
    }

    /// The option that resolves a tree conflict the way this choice says;
    /// choices that have no tree counterpart postpone.
    pub open spec fn spec_tree_option(self) -> ConflictOptionId {
        match self {
            ConflictChoice::Postpone => ConflictOptionId::Postpone,
            ConflictChoice::Base => ConflictOptionId::AcceptCurrentWcState,
            ConflictChoice::TheirsFull => ConflictOptionId::IncomingDeleteAccept,
            ConflictChoice::MineFull => ConflictOptionId::IncomingDeleteIgnore,
            _ => ConflictOptionId::Postpone,
        }
    }

    /// Convert to client conflict option ID for tree conflicts.
    pub fn to_tree_option_id(&self) -> (r: ConflictOptionId)
        ensures
            r == self.spec_tree_option(),
            *self == ConflictChoice::Base ==> r == ConflictOptionId::AcceptCurrentWcState,
            *self == ConflictChoice::TheirsFull ==> r == ConflictOptionId::IncomingDeleteAccept,
            *self == ConflictChoice::MineFull ==> r == ConflictOptionId::IncomingDeleteIgnore,
            !(*self == ConflictChoice::Base || *self == ConflictChoice::TheirsFull || *self
                == ConflictChoice::MineFull) ==> r == ConflictOptionId::Postpone,
    {
        match self {
            ConflictChoice::Postpone => ConflictOptionId::Postpone,
            ConflictChoice::Base => ConflictOptionId::AcceptCurrentWcState,
            ConflictChoice::TheirsFull => ConflictOptionId::IncomingDeleteAccept,
            ConflictChoice::MineFull => ConflictOptionId::IncomingDeleteIgnore,
            ConflictChoice::Undefined | ConflictChoice::TheirsConflict | ConflictChoice::MineConflict
            | ConflictChoice::Merged => ConflictOptionId::Postpone,
        }
    }
}

/// Different choices are told apart by Subversion: no two choices have the
/// same raw value.
pub proof fn lemma_conflict_choice_raw_distinct(a: ConflictChoice, b: ConflictChoice)
    ensures
        a.spec_raw() == b.spec_raw() <==> a == b,
{
}

/// The eight choices resolve a text conflict in eight different ways: no
/// two choices give the same text option, so that, for one, keeping the
/// whole working file is never the same as keeping it only where it
/// conflicts.
pub proof fn lemma_text_options_distinct(a: ConflictChoice, b: ConflictChoice)
    ensures
        a.spec_text_option() == b.spec_text_option() <==> a == b,
{
}

/// What each choice does to a text conflict: a choice postpones exactly
/// when it is the choice to postpone; taking a side in full takes that
/// side's whole text, and taking it where conflicted takes that side's
/// text only in the conflicted regions.
pub proof fn lemma_text_option_meaning(c: ConflictChoice)
    ensures
        c.spec_text_option() == ConflictOptionId::Postpone <==> c == ConflictChoice::Postpone,
        c.spec_text_option() == ConflictOptionId::Undefined <==> c == ConflictChoice::Undefined,
        c.spec_text_option() == ConflictOptionId::WorkingText <==> c == ConflictChoice::MineFull,
        c.spec_text_option() == ConflictOptionId::WorkingTextWhereConflicted <==> c
            == ConflictChoice::MineConflict,
        c.spec_text_option() == ConflictOptionId::IncomingText <==> c == ConflictChoice::TheirsFull,
        c.spec_text_option() == ConflictOptionId::IncomingTextWhereConflicted <==> c
            == ConflictChoice::TheirsConflict,
        c.spec_text_option() == ConflictOptionId::BaseText <==> c == ConflictChoice::Base,
        c.spec_text_option() == ConflictOptionId::MergedText <==> c == ConflictChoice::Merged,
{
}

/// What each choice does to a tree conflict: only taking the base, theirs
/// in full or mine in full resolves it (by accepting the working copy as
/// it stands, accepting the incoming deletion, or ignoring it); every
/// other choice, postponing among them, leaves it for later.
pub proof fn lemma_tree_option_meaning(c: ConflictChoice)
    ensures
        c.spec_tree_option() == ConflictOptionId::Postpone <==> !(c == ConflictChoice::Base || c
            == ConflictChoice::TheirsFull || c == ConflictChoice::MineFull),
        c.spec_tree_option() == ConflictOptionId::AcceptCurrentWcState <==> c == ConflictChoice::Base,
        c.spec_tree_option() == ConflictOptionId::IncomingDeleteAccept <==> c
            == ConflictChoice::TheirsFull,
        c.spec_tree_option() == ConflictOptionId::IncomingDeleteIgnore <==> c
            == ConflictChoice::MineFull,
{
}

/// A choice that postpones a text conflict postpones a tree conflict too.
pub proof fn lemma_postpone_postpones_both(c: ConflictChoice)
    requires
        c.spec_text_option() == ConflictOptionId::Postpone,
    ensures
        c.spec_tree_option() == ConflictOptionId::Postpone,
{
}

/// A raw value decodes to the action it names in Subversion: edit, add,
/// delete, replace in that order; decoding and encoding undo each other.
pub proof fn lemma_conflict_action_raw(a: ConflictAction, b: ConflictAction)
    ensures
        a.spec_raw() == b.spec_raw() <==> a == b,
        a.spec_raw() < 4,
        a == ConflictAction::Edit <==> a.spec_raw() == 0,
        a == ConflictAction::Add <==> a.spec_raw() == 1,
        a == ConflictAction::Delete <==> a.spec_raw() == 2,
        a == ConflictAction::Replace <==> a.spec_raw() == 3,
{
}

/// A raw value decodes to the reason it names in Subversion, in the order
/// edited, obstructed, deleted, missing, unversioned, added, replaced,
/// moved away, moved here; no two reasons share a raw value.
pub proof fn lemma_conflict_reason_raw(a: ConflictReason, b: ConflictReason)
    ensures
        a.spec_raw() == b.spec_raw() <==> a == b,
        a.spec_raw() < 9,
        a == ConflictReason::Edited <==> a.spec_raw() == 0,
        a == ConflictReason::Obstructed <==> a.spec_raw() == 1,
        a == ConflictReason::Deleted <==> a.spec_raw() == 2,
        a == ConflictReason::Missing <==> a.spec_raw() == 3,
        a == ConflictReason::Unversioned <==> a.spec_raw() == 4,
        a == ConflictReason::Added <==> a.spec_raw() == 5,
        a == ConflictReason::Replaced <==> a.spec_raw() == 6,
        a == ConflictReason::MovedAway <==> a.spec_raw() == 7,
        a == ConflictReason::MovedHere <==> a.spec_raw() == 8,
{
}

/// Result of conflict resolution.
#[derive(Debug, Clone)]
pub struct ConflictResult {
    /// The choice made to resolve the conflict.
    pub choice: ConflictChoice,
    /// Path to merged file (if choice is Merged).
    pub merged_file: Option<String>,
    /// Whether to save the resolution to the working copy.
    pub save_merged: bool,
}

impl Default for ConflictResult {
    fn default() -> (r: Self)
        ensures
            r.choice == ConflictChoice::Postpone,
            r.merged_file is None,
            !r.save_merged,
    {
        Self { choice: ConflictChoice::Postpone, merged_file: None, save_merged: false }
    }
}

/// Trait for implementing conflict resolution.
///
/// Called when a conflict is encountered during a merge or update operation.
/// The implementation should examine the conflict description and return a
/// resolution choice.
pub trait ConflictResolver: Send + Sync {
    /// Resolve a conflict, returning the chosen resolution.
    fn resolve(&mut self, conflict: &ConflictDescription) -> Result<ConflictResult, Error>;
}

} // verus!
