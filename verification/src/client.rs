//! Client operations: the options that each operation takes, and the
//! values that operations report.

use std::collections::HashMap;

use vstd::prelude::*;
use vstd::string::*;

use crate::error::{Error, SVN_ERR_CANCELLED};
use crate::types::{Depth, NativeEOL, Revision, Revnum};

verus! {

/// Information about a line in a blamed file
pub struct BlameInfo {
    /// Line number in the file.
    pub line_no: i64,
    /// Revision that last modified this line.
    pub revision: Revnum,
    /// Revision properties.
    pub revprops: HashMap<String, Vec<u8>>,
    /// Merged revision if this line came from a merge.
    pub merged_revision: Option<Revnum>,
    /// Properties of the merged revision.
    pub merged_revprops: HashMap<String, Vec<u8>>,
    /// Path of the merged file.
    pub merged_path: Option<String>,
    /// The actual line content.
    pub line: String,
    /// Whether this line has local changes.
    pub local_change: bool,
}

impl BlameInfo {
    /// Makes the blame information for one line from the raw values that
    /// Subversion reports: an invalid (negative) revision is taken as
    /// revision 0, an invalid merged revision as no merged revision, and the
    /// local-change flag is true when non-zero.
    pub fn from_parts(
        line_no: i64,
        revision: i64,
        revprops: HashMap<String, Vec<u8>>,
        merged_revision: i64,
        merged_revprops: HashMap<String, Vec<u8>>,
        merged_path: Option<String>,
        line: String,
        local_change: i32,
    ) -> (r: Self)
        ensures
            r.line_no == line_no,
            r.revision == (if revision >= 0 { Revnum(revision) } else { Revnum(0) }),
            r.revprops == revprops,
            r.merged_revision == (if merged_revision >= 0 { Some(Revnum(merged_revision)) } else { None }),
            r.merged_revprops == merged_revprops,
            r.merged_path == merged_path,
            r.line == line,
            r.local_change == (local_change != 0),
    {
        let revision = match Revnum::from_raw(revision) {
            Some(r) => r,
            None => Revnum::from(0u64),
        };
        BlameInfo {
            line_no,
            revision,
            revprops,
            merged_revision: Revnum::from_raw(merged_revision),
            merged_revprops,
            merged_path,
            line,
            local_change: local_change != 0,
        }
    }
}

/// The message of the error that reports a cancelled operation.
pub open spec fn spec_cancel_message() -> Seq<char> {
    "Operation cancelled by user"@
}

/// What a cancellation check answers Subversion: no error when the
/// handler does not ask to cancel, else an `SVN_ERR_CANCELLED` error that
/// says that the operation was cancelled.
pub fn cancel_check_result(cancel_requested: bool) -> (r: Option<Error>)
    ensures
        r is None <==> !cancel_requested,
        r matches Some(e) ==> e@ == Error::spec_new(SVN_ERR_CANCELLED, None, spec_cancel_message()),
{
    if cancel_requested {
        proof {
            reveal_strlit("Operation cancelled by user");
        }
        Some(Error::with_raw_status(SVN_ERR_CANCELLED, None, "Operation cancelled by user"))
    } else {
        None
    }
}

/// The operative and peg revisions at which a copy takes one of its
/// sources: the revision given for the source, `Head` where none is
/// given, both at peg revision `Head`.
pub fn copy_source_revisions(revision: Option<Revision>) -> (r: (Revision, Revision))
    ensures
        r.0 == match revision {
            Some(rev) => rev,
            None => Revision::Head,
        },
        r.1 == Revision::Head,
{
    let operative = match revision {
        Some(rev) => rev,
        None => Revision::Head,
    };
    (operative, Revision::Head)
}

/// Options for the cat operation to retrieve file contents.
#[derive(Debug, Clone, Copy, Default)]
pub struct CatOptions {
    /// Revision to retrieve.
    pub revision: Revision,
    /// Peg revision for the path.
    pub peg_revision: Revision,
    /// Whether to expand keywords in the file content.
    pub expand_keywords: bool,
}

/// Options for the cleanup operation to remove locks and complete unfinished operations.
#[derive(Debug, Clone, Copy, Default)]
pub struct CleanupOptions {
    /// Whether to break locks.
    pub break_locks: bool,
    /// Whether to fix recorded timestamps.
    pub fix_recorded_timestamps: bool,
    /// Whether to clear DAV cache.
    pub clear_dav_cache: bool,
    /// Whether to vacuum pristine copies.
    pub vacuum_pristines: bool,
    /// Whether to include externals.
    pub include_externals: bool,
}

/// Options for listing properties on versioned items.
#[derive(Debug, Clone, Copy, Default)]
pub struct ProplistOptions<'a> {
    /// Peg revision for the path.
    pub peg_revision: Revision,
    /// Revision to list properties from.
    pub revision: Revision,
    /// Depth of the operation.
    pub depth: Depth,
    /// Changelists to filter by.
    pub changelists: Option<&'a [&'a str]>,
    /// Whether to get inherited properties.
    pub get_target_inherited_props: bool,
}

/// Options for exporting a tree from the repository.
#[derive(Debug, Clone, Copy, Default)]
pub struct ExportOptions {
    /// Peg revision for the path.
    pub peg_revision: Revision,
    /// Revision to export.
    pub revision: Revision,
    /// Whether to overwrite existing files.
    pub overwrite: bool,
    /// Whether to ignore externals.
    pub ignore_externals: bool,
    /// Whether to ignore keywords.
    pub ignore_keywords: bool,
    /// Depth of the export.
    pub depth: Depth,
    /// Native end-of-line style.
    pub native_eol: NativeEOL,
}

/// Options for vacuuming the working copy to remove unversioned and ignored items.
#[derive(Debug, Clone, Copy, Default)]
pub struct VacuumOptions {
    /// Whether to remove unversioned items.
    pub remove_unversioned_items: bool,
    /// Whether to remove ignored items.
    pub remove_ignored_items: bool,
    /// Whether to fix recorded timestamps.
    pub fix_recorded_timestamps: bool,
    /// Whether to vacuum pristine copies.
    pub vacuum_pristines: bool,
    /// Whether to include externals.
    pub include_externals: bool,
}

/// Options for checking out a working copy from a repository.
#[derive(Debug, Clone, Copy, Default)]
pub struct CheckoutOptions {
    /// Peg revision for the URL.
    pub peg_revision: Revision,
    /// Revision to check out.
    pub revision: Revision,
    /// Depth of the checkout.
    pub depth: Depth,
    /// Whether to ignore externals.
    pub ignore_externals: bool,
    /// Whether to allow unversioned obstructions.
    pub allow_unver_obstructions: bool,
}

/// Options for updating a working copy to a different revision.
#[derive(Debug, Clone, Copy, Default)]
pub struct UpdateOptions {
    /// Depth of the update.
    pub depth: Depth,
    /// Whether the depth setting is sticky.
    pub depth_is_sticky: bool,
    /// Whether to ignore externals.
    pub ignore_externals: bool,
    /// Whether to allow unversioned obstructions.
    pub allow_unver_obstructions: bool,
    /// Whether to treat adds as modifications.
    pub adds_as_modifications: bool,
    /// Whether to create parent directories.
    pub make_parents: bool,
}

/// Represents inherited properties from a parent path.
///
/// Contains a path and the properties inherited from that path.
#[derive(Debug, Clone)]
pub struct InheritedPropItem {
    /// The absolute working copy path, relative filesystem path, or URL
    /// from which the properties are inherited.
    pub path_or_url: String,
    /// Hash map of inherited property names to values.
    pub properties: HashMap<String, Vec<u8>>,
}

/// An inherited-property item as Subversion reports it: its path or URL
/// and its property hash, each of which may be absent.
pub type RawInheritedItem = (Option<String>, Option<HashMap<String, Vec<u8>>>);

/// The path and properties that an inherited-property item stands for: a
/// missing path reads as the empty string, a missing property hash as no
/// properties.
pub open spec fn inherited_item_value(item: RawInheritedItem) -> (Seq<char>, Map<String, Vec<u8>>) {
    (
        match item.0 {
            Some(p) => p@,
            None => Seq::empty(),
        },
        match item.1 {
            Some(h) => h@,
            None => Map::empty(),
        },
    )
}

/// The values of the items that are present, in their order.
pub open spec fn kept_inherited_items(items: Seq<Option<RawInheritedItem>>) -> Seq<(Seq<char>, Map<String, Vec<u8>>)>
    decreases items.len(),
{
    if items.len() == 0 {
        Seq::empty()
    } else {
        let rest = kept_inherited_items(items.drop_last());
        match items.last() {
            Some(item) => rest.push(inherited_item_value(item)),
            None => rest,
        }
    }
}

/// The inherited properties that a property read reports: one item for
/// each item that Subversion gave, in its order, skipping missing items;
/// a missing path becomes the empty string and a missing property hash
/// no properties.
pub fn inherited_props_from_items(items: Vec<Option<RawInheritedItem>>) -> (r: Vec<InheritedPropItem>)
    ensures
        r@.len() == kept_inherited_items(items@).len(),
        forall|i: int|
            0 <= i < r@.len() ==> (#[trigger] r@[i]).path_or_url@ == kept_inherited_items(items@)[i].0
                && r@[i].properties@ == kept_inherited_items(items@)[i].1,
        (forall|j: int| 0 <= j < items@.len() ==> (#[trigger] items@[j]) is Some) ==> {
            &&& r@.len() == items@.len()
            &&& forall|i: int|
                0 <= i < r@.len() ==> {
                    &&& (#[trigger] r@[i]).path_or_url@ == match (items@[i]->0).0 {
                        Some(p) => p@,
                        None => Seq::<char>::empty(),
                    }
                    &&& r@[i].properties@ == match (items@[i]->0).1 {
                        Some(h) => h@,
                        None => Map::<String, Vec<u8>>::empty(),
                    }
                }
        },
{
    proof {
        if forall|j: int| 0 <= j < items@.len() ==> (#[trigger] items@[j]) is Some {
            lemma_inherited_all_present(items@);
        }
    }
    let ghost orig = items@;
    let mut items = items;
    assert(orig.len() == items.len());
    let mut result: Vec<InheritedPropItem> = Vec::new();
    let mut i: usize = 0;
    while items.len() > 0
        invariant
            i <= orig.len(),
            orig.len() <= usize::MAX,
            items@ == orig.skip(i as int),
            result@.len() == kept_inherited_items(orig.take(i as int)).len(),
            forall|k: int|
                0 <= k < result@.len() ==> (#[trigger] result@[k]).path_or_url@ == kept_inherited_items(
                    orig.take(i as int),
                )[k].0 && result@[k].properties@ == kept_inherited_items(orig.take(i as int))[k].1,
        decreases items.len(),
    {
        let ghost before = result@;
        let item = items.remove(0);
        proof {
            assert(orig.skip(i as int).len() > 0);
            assert(i < orig.len());
            assert(item == orig[i as int]);
            assert(orig.take(i as int + 1).drop_last() =~= orig.take(i as int));
            assert(orig.take(i as int + 1).last() == orig[i as int]);
            assert(orig.skip(i as int + 1) =~= orig.skip(i as int).remove(0));
        }
        match item {
            Some((path, props)) => {
                let path_or_url = match path {
                    Some(p) => p,
                    None => String::new(),
                };
                let properties = match props {
                    Some(h) => h,
                    None => HashMap::new(),
                };
                result.push(InheritedPropItem { path_or_url, properties });
            },
            None => {},
        }
        i = i + 1;
        proof {
            assert forall|k: int| 0 <= k < result@.len() implies (#[trigger] result@[k]).path_or_url@
                == kept_inherited_items(orig.take(i as int))[k].0 && result@[k].properties@
                == kept_inherited_items(orig.take(i as int))[k].1 by {
                if k < before.len() {
                    assert(result@[k] == before[k]);
                }
            }
        }
    }
    proof {
        assert(orig.take(i as int) =~= orig);
    }
    result
}

/// When Subversion reports every item, the inherited properties are those
/// items, one for one and in Subversion's order: the value at each
/// position is the value of the item at that position.
pub proof fn lemma_inherited_all_present(items: Seq<Option<RawInheritedItem>>)
    requires
        forall|j: int| 0 <= j < items.len() ==> (#[trigger] items[j]) is Some,
    ensures
        kept_inherited_items(items).len() == items.len(),
        forall|i: int|
            0 <= i < items.len() ==> (#[trigger] kept_inherited_items(items)[i]) == inherited_item_value(
                items[i]->0,
            ),
    decreases items.len(),
{
    if items.len() > 0 {
        let rest = items.drop_last();
        assert forall|j: int| 0 <= j < rest.len() implies (#[trigger] rest[j]) is Some by {
            assert(rest[j] == items[j]);
        }
        lemma_inherited_all_present(rest);
        assert(items.last() == items[items.len() - 1]);
        assert forall|i: int| 0 <= i < items.len() implies (#[trigger] kept_inherited_items(items)[i])
            == inherited_item_value(items[i]->0) by {
            if i < items.len() - 1 {
                assert(rest[i] == items[i]);
                assert(kept_inherited_items(rest)[i] == inherited_item_value(rest[i]->0));
            }
        }
    }
}

/// Reporting one more item after others adds its value after theirs: the
/// order that Subversion reports items in is kept.
pub proof fn lemma_inherited_append_present(items: Seq<Option<RawInheritedItem>>, item: RawInheritedItem)
    ensures
        kept_inherited_items(items.push(Some(item))) == kept_inherited_items(items).push(
            inherited_item_value(item),
        ),
{
    assert(items.push(Some(item)).drop_last() =~= items);
}

/// A missing item adds nothing.
pub proof fn lemma_inherited_append_missing(items: Seq<Option<RawInheritedItem>>)
    ensures
        kept_inherited_items(items.push(None)) == kept_inherited_items(items),
{
    assert(items.push(None).drop_last() =~= items);
}

/// Reporting one item before others puts its value before theirs.
pub proof fn lemma_inherited_prepend_present(item: RawInheritedItem, items: Seq<Option<RawInheritedItem>>)
    ensures
        kept_inherited_items(seq![Some(item)] + items) == seq![inherited_item_value(item)]
            + kept_inherited_items(items),
    decreases items.len(),
{
    let x = seq![Some(item)] + items;
    if items.len() == 0 {
        assert(x.drop_last() =~= Seq::<Option<RawInheritedItem>>::empty());
        assert(kept_inherited_items(Seq::<Option<RawInheritedItem>>::empty()) =~= Seq::empty());
        assert(kept_inherited_items(x) =~= seq![inherited_item_value(item)] + kept_inherited_items(items));
    } else {
        lemma_inherited_prepend_present(item, items.drop_last());
        assert(x.drop_last() =~= seq![Some(item)] + items.drop_last());
        assert(x.last() == items.last());
        match items.last() {
            Some(it) => {
                assert(kept_inherited_items(x) =~= seq![inherited_item_value(item)]
                    + kept_inherited_items(items));
            },
            None => {},
        }
    }
}

/// The value of a present item: its path (the empty string where it has
/// none) and its properties (none where it has no property hash).
pub proof fn lemma_inherited_item_value(path: Option<String>, props: Option<HashMap<String, Vec<u8>>>)
    ensures
        path matches Some(p) ==> inherited_item_value((path, props)).0 == p@,
        path is None ==> inherited_item_value((path, props)).0.len() == 0,
        props matches Some(h) ==> inherited_item_value((path, props)).1 == h@,
        props is None ==> inherited_item_value((path, props)).1 == Map::<String, Vec<u8>>::empty(),
{
}

/// The revision number that a property read leaves behind: the revision
/// that Subversion resolved when the read succeeded, else the one that
/// was there before.
pub fn revnum_after_propget(succeeded: bool, before: Revnum, resolved: i64) -> (r: Revnum)
    ensures
        r == if succeeded {
            Revnum(resolved)
        } else {
            before
        },
{
    if succeeded {
        Revnum(resolved)
    } else {
        before
    }
}

/// The kind of change in a diff summary
#[derive(Debug, Clone, Copy, PartialEq, Eq, Structural)]
pub enum DiffSummarizeKind {
    /// Normal diff
    Normal,
    /// Item was added
    Added,
    /// Item was modified
    Modified,
    /// Item was deleted
    Deleted,
}

/// The raw value of the "normal" diff summary kind.
pub const SVN_DIFF_SUMMARIZE_KIND_NORMAL: u32 = 0;

/// The raw value of the "added" diff summary kind.
pub const SVN_DIFF_SUMMARIZE_KIND_ADDED: u32 = 1;

/// The raw value of the "modified" diff summary kind.
pub const SVN_DIFF_SUMMARIZE_KIND_MODIFIED: u32 = 2;

/// The raw value of the "deleted" diff summary kind.
pub const SVN_DIFF_SUMMARIZE_KIND_DELETED: u32 = 3;

/// The kind that a raw diff summary kind stands for; an unknown raw value
/// is taken as `Normal`.
pub open spec fn spec_diff_summarize_kind(kind: u32) -> DiffSummarizeKind {
    if kind == SVN_DIFF_SUMMARIZE_KIND_ADDED {
        DiffSummarizeKind::Added
    } else if kind == SVN_DIFF_SUMMARIZE_KIND_MODIFIED {
        DiffSummarizeKind::Modified
    } else if kind == SVN_DIFF_SUMMARIZE_KIND_DELETED {
        DiffSummarizeKind::Deleted
    } else {
        DiffSummarizeKind::Normal
    }
}

impl From<u32> for DiffSummarizeKind {
    fn from(kind: u32) -> (r: Self) {
        if kind == SVN_DIFF_SUMMARIZE_KIND_NORMAL {
            DiffSummarizeKind::Normal
        } else if kind == SVN_DIFF_SUMMARIZE_KIND_ADDED {
            DiffSummarizeKind::Added
        } else if kind == SVN_DIFF_SUMMARIZE_KIND_MODIFIED {
            DiffSummarizeKind::Modified
        } else if kind == SVN_DIFF_SUMMARIZE_KIND_DELETED {
            DiffSummarizeKind::Deleted
        } else {
            DiffSummarizeKind::Normal
        }
    }
}

impl vstd::std_specs::convert::FromSpecImpl<u32> for DiffSummarizeKind {
    open spec fn obeys_from_spec() -> bool {
        true
    }

    open spec fn from_spec(kind: u32) -> DiffSummarizeKind {
        spec_diff_summarize_kind(kind)
    }
}

/// The kind of a diff summary follows Subversion's numbering: 0 is a
/// normal (unchanged) item, 1 an added one, 2 a modified one, 3 a deleted
/// one; any other value is read as normal. Different kinds come from
/// different raw values.
pub proof fn lemma_diff_summarize_kind(kind: u32)
    ensures
        kind == 0 ==> spec_diff_summarize_kind(kind) == DiffSummarizeKind::Normal,
        kind == 1 ==> spec_diff_summarize_kind(kind) == DiffSummarizeKind::Added,
        kind == 2 ==> spec_diff_summarize_kind(kind) == DiffSummarizeKind::Modified,
        kind == 3 ==> spec_diff_summarize_kind(kind) == DiffSummarizeKind::Deleted,
        kind > 3 ==> spec_diff_summarize_kind(kind) == DiffSummarizeKind::Normal,
        spec_diff_summarize_kind(kind) == DiffSummarizeKind::Added <==> kind == 1,
        spec_diff_summarize_kind(kind) == DiffSummarizeKind::Modified <==> kind == 2,
        spec_diff_summarize_kind(kind) == DiffSummarizeKind::Deleted <==> kind == 3,
{
}

/// Summary of a diff between two paths
#[derive(Debug, Clone)]
pub struct DiffSummary {
    /// Path relative to the target
    pub path: String,
    /// The kind of change
    pub kind: DiffSummarizeKind,
    /// Whether properties changed
    pub prop_changed: bool,
    /// Node kind (file or directory), as its raw value
    pub node_kind: u32,
}

impl DiffSummary {
    /// Makes a summary from the raw values that Subversion reports.
    pub fn from_parts(path: String, summarize_kind: u32, prop_changed: i32, node_kind: u32) -> (r: Self)
        ensures
            r.path == path,
            r.kind == spec_diff_summarize_kind(summarize_kind),
            r.prop_changed == (prop_changed != 0),
            r.node_kind == node_kind,
    {
        DiffSummary {
            path,
            kind: DiffSummarizeKind::from(summarize_kind),
            prop_changed: prop_changed != 0,
            node_kind,
        }
    }
}

/// Options for switching a working copy to a different URL.
#[derive(Debug, Clone, Copy)]
pub struct SwitchOptions {
    /// Peg revision for the URL.
    pub peg_revision: Revision,
    /// Revision to switch to.
    pub revision: Revision,
    /// Depth of the switch.
    pub depth: Depth,
    /// Whether the depth setting is sticky.
    pub depth_is_sticky: bool,
    /// Whether to ignore externals.
    pub ignore_externals: bool,
    /// Whether to allow unversioned obstructions.
    pub allow_unver_obstructions: bool,
    /// Whether to ignore ancestry when comparing trees.
    pub ignore_ancestry: bool,
}

impl SwitchOptions {
    /// Whether every field holds its default value.
    pub open spec fn has_defaults(&self) -> bool {
        &&& self.peg_revision == Revision::Unspecified
        &&& self.revision == Revision::Head
        &&& self.depth == Depth::Infinity
        &&& !self.depth_is_sticky
        &&& !self.ignore_externals
        &&& !self.allow_unver_obstructions
        &&& !self.ignore_ancestry
    }

    /// Creates a new SwitchOptions with default values.
    pub fn new() -> (r: Self)
        ensures
            r.has_defaults(),
            r.peg_revision == Revision::Unspecified,
            r.revision == Revision::Head,
            r.depth == Depth::Infinity,
            !r.depth_is_sticky,
            !r.ignore_externals,
            !r.allow_unver_obstructions,
            !r.ignore_ancestry,
    {
        Self::default()
    }

    /// Sets the peg revision.
    pub fn with_peg_revision(self, peg_revision: Revision) -> (r: Self)
        ensures
            r == (SwitchOptions { peg_revision: peg_revision, ..self }),
    {
        let mut s = self;
        s.peg_revision = peg_revision;
        s
    }

    /// Sets the revision.
    pub fn with_revision(self, revision: Revision) -> (r: Self)
        ensures
            r == (SwitchOptions { revision: revision, ..self }),
    {
        let mut s = self;
        s.revision = revision;
        s
    }

    /// Sets the depth.
    pub fn with_depth(self, depth: Depth) -> (r: Self)
        ensures
            r == (SwitchOptions { depth: depth, ..self }),
    {
        let mut s = self;
        s.depth = depth;
        s
    }

    /// Sets whether the depth is sticky.
    pub fn with_depth_is_sticky(self, depth_is_sticky: bool) -> (r: Self)
        ensures
            r == (SwitchOptions { depth_is_sticky: depth_is_sticky, ..self }),
    {
        let mut s = self;
        s.depth_is_sticky = depth_is_sticky;
        s
    }

    /// Sets whether to ignore externals.
    pub fn with_ignore_externals(self, ignore_externals: bool) -> (r: Self)
        ensures
            r == (SwitchOptions { ignore_externals: ignore_externals, ..self }),
    {
        let mut s = self;
        s.ignore_externals = ignore_externals;
        s
    }

    /// Sets whether to allow unversioned obstructions.
    pub fn with_allow_unver_obstructions(self, allow_unver_obstructions: bool) -> (r: Self)
        ensures
            r == (SwitchOptions { allow_unver_obstructions: allow_unver_obstructions, ..self }),
    {
        let mut s = self;
        s.allow_unver_obstructions = allow_unver_obstructions;
        s
    }

    /// Sets whether to ignore ancestry when comparing trees.
    pub fn with_ignore_ancestry(self, ignore_ancestry: bool) -> (r: Self)
        ensures
            r == (SwitchOptions { ignore_ancestry: ignore_ancestry, ..self }),
    {
        let mut s = self;
        s.ignore_ancestry = ignore_ancestry;
        s
    }

}

impl Default for SwitchOptions {
    fn default() -> (r: Self)
        ensures
            r.has_defaults(),
            r.peg_revision == Revision::Unspecified,
            r.revision == Revision::Head,
            r.depth == Depth::Infinity,
            !r.depth_is_sticky,
            !r.ignore_externals,
            !r.allow_unver_obstructions,
            !r.ignore_ancestry,
    {
        SwitchOptions {
            peg_revision: Revision::Unspecified,
            revision: Revision::Head,
            depth: Depth::Infinity,
            depth_is_sticky: false,
            ignore_externals: false,
            allow_unver_obstructions: false,
            ignore_ancestry: false,
        }
    }
}

/// Options for adding files and directories to version control.
#[derive(Debug, Clone, Copy)]
pub struct AddOptions {
    /// Depth of the add operation.
    pub depth: Depth,
    /// Whether to force the add.
    pub force: bool,
    /// Whether to add files that match ignore patterns.
    pub no_ignore: bool,
    /// Whether to disable automatic properties.
    pub no_autoprops: bool,
    /// Whether to add parent directories.
    pub add_parents: bool,
}

impl AddOptions {
    /// Whether every field holds its default value.
    pub open spec fn has_defaults(&self) -> bool {
        &&& self.depth == Depth::Infinity
        &&& !self.force
        &&& !self.no_ignore
        &&& !self.no_autoprops
        &&& !self.add_parents
    }

    /// Creates a new AddOptions with default values.
    pub fn new() -> (r: Self)
        ensures
            r.has_defaults(),
            r.depth == Depth::Infinity,
            !r.force,
            !r.no_ignore,
            !r.no_autoprops,
            !r.add_parents,
    {
        Self::default()
    }

    /// Sets the depth of the add operation.
    pub fn with_depth(self, depth: Depth) -> (r: Self)
        ensures
            r == (AddOptions { depth: depth, ..self }),
    {
        let mut s = self;
        s.depth = depth;
        s
    }

    /// Sets whether to force the add.
    pub fn with_force(self, force: bool) -> (r: Self)
        ensures
            r == (AddOptions { force: force, ..self }),
    {
        let mut s = self;
        s.force = force;
        s
    }

    /// Sets whether to add files that match ignore patterns.
    pub fn with_no_ignore(self, no_ignore: bool) -> (r: Self)
        ensures
            r == (AddOptions { no_ignore: no_ignore, ..self }),
    {
        let mut s = self;
        s.no_ignore = no_ignore;
        s
    }

    /// Sets whether to disable automatic properties.
    pub fn with_no_autoprops(self, no_autoprops: bool) -> (r: Self)
        ensures
            r == (AddOptions { no_autoprops: no_autoprops, ..self }),
    {
        let mut s = self;
        s.no_autoprops = no_autoprops;
        s
    }

    /// Sets whether to add parent directories.
    pub fn with_add_parents(self, add_parents: bool) -> (r: Self)
        ensures
            r == (AddOptions { add_parents: add_parents, ..self }),
    {
        let mut s = self;
        s.add_parents = add_parents;
        s
    }

}

impl Default for AddOptions {
    fn default() -> (r: Self)
        ensures
            r.has_defaults(),
            r.depth == Depth::Infinity,
            !r.force,
            !r.no_ignore,
            !r.no_autoprops,
            !r.add_parents,
    {
        AddOptions {
            depth: Depth::Infinity,
            force: false,
            no_ignore: false,
            no_autoprops: false,
            add_parents: false,
        }
    }
}

/// Options for merge_sources operations.
#[derive(Debug, Clone)]
pub struct MergeSourcesOptions {
    /// Whether to ignore mergeinfo.
    pub ignore_mergeinfo: bool,
    /// Whether to ignore ancestry when comparing trees.
    pub diff_ignore_ancestry: bool,
    /// Whether to force deletion of modified files.
    pub force_delete: bool,
    /// Whether to record merge info but not apply changes.
    pub record_only: bool,
    /// Whether to perform a dry run.
    pub dry_run: bool,
    /// Whether to allow mixed revisions.
    pub allow_mixed_rev: bool,
    /// Array of merge options (like --ignore-eol-style).
    pub merge_options: Option<Vec<String>>,
}

impl MergeSourcesOptions {
    /// Whether every field holds its default value.
    pub open spec fn has_defaults(&self) -> bool {
        &&& !self.ignore_mergeinfo
        &&& !self.diff_ignore_ancestry
        &&& !self.force_delete
        &&& !self.record_only
        &&& !self.dry_run
        &&& self.allow_mixed_rev
        &&& self.merge_options is None
    }

    /// Creates a new MergeSourcesOptions with default values.
    pub fn new() -> (r: Self)
        ensures
            r.has_defaults(),
            !r.ignore_mergeinfo,
            !r.diff_ignore_ancestry,
            !r.force_delete,
            !r.record_only,
            !r.dry_run,
            r.allow_mixed_rev,
            r.merge_options is None,
    {
        Self::default()
    }

    /// Sets whether to ignore mergeinfo.
    pub fn with_ignore_mergeinfo(self, ignore: bool) -> (r: Self)
        ensures
            r == (MergeSourcesOptions { ignore_mergeinfo: ignore, ..self }),
    {
        let mut s = self;
        s.ignore_mergeinfo = ignore;
        s
    }

    /// Sets whether to ignore ancestry when diffing.
    pub fn with_diff_ignore_ancestry(self, ignore: bool) -> (r: Self)
        ensures
            r == (MergeSourcesOptions { diff_ignore_ancestry: ignore, ..self }),
    {
        let mut s = self;
        s.diff_ignore_ancestry = ignore;
        s
    }

    /// Sets whether to force delete modified files.
    pub fn with_force_delete(self, force: bool) -> (r: Self)
        ensures
            r == (MergeSourcesOptions { force_delete: force, ..self }),
    {
        let mut s = self;
        s.force_delete = force;
        s
    }

    /// Sets whether to record merge info only.
    pub fn with_record_only(self, record_only: bool) -> (r: Self)
        ensures
            r == (MergeSourcesOptions { record_only: record_only, ..self }),
    {
        let mut s = self;
        s.record_only = record_only;
        s
    }

    /// Sets whether to perform a dry run.
    pub fn with_dry_run(self, dry_run: bool) -> (r: Self)
        ensures
            r == (MergeSourcesOptions { dry_run: dry_run, ..self }),
    {
        let mut s = self;
        s.dry_run = dry_run;
        s
    }

    /// Sets whether to allow mixed revisions.
    pub fn with_allow_mixed_rev(self, allow: bool) -> (r: Self)
        ensures
            r == (MergeSourcesOptions { allow_mixed_rev: allow, ..self }),
    {
        let mut s = self;
        s.allow_mixed_rev = allow;
        s
    }

    /// Sets the merge options (like "--ignore-eol-style").
    pub fn with_merge_options(self, options: Vec<String>) -> (r: Self)
        ensures
            r == (MergeSourcesOptions { merge_options: Some(options), ..self }),
    {
        let mut s = self;
        s.merge_options = Some(options);
        s
    }

}

impl Default for MergeSourcesOptions {
    fn default() -> (r: Self)
        ensures
            r.has_defaults(),
            !r.ignore_mergeinfo,
            !r.diff_ignore_ancestry,
            !r.force_delete,
            !r.record_only,
            !r.dry_run,
            r.allow_mixed_rev,
            r.merge_options is None,
    {
        MergeSourcesOptions {
            ignore_mergeinfo: false,
            diff_ignore_ancestry: false,
            force_delete: false,
            record_only: false,
            dry_run: false,
            allow_mixed_rev: true,
            merge_options: None,
        }
    }
}

/// Options for revert operations.
#[derive(Debug, Clone)]
pub struct RevertOptions {
    /// Recursion depth.
    pub depth: Depth,
    /// Changelists to revert (None means all changelists).
    pub changelists: Option<Vec<String>>,
    /// Whether to clear changelists after reverting.
    pub clear_changelists: bool,
    /// If true, only revert metadata (properties), not file contents.
    pub metadata_only: bool,
    /// If true, keep local copies of added files when reverting.
    pub added_keep_local: bool,
}

impl RevertOptions {
    /// Whether every field holds its default value.
    pub open spec fn has_defaults(&self) -> bool {
        &&& self.depth == Depth::Infinity
        &&& self.changelists is None
        &&& !self.clear_changelists
        &&& !self.metadata_only
        &&& !self.added_keep_local
    }

    /// Creates a new RevertOptions with default values.
    pub fn new() -> (r: Self)
        ensures
            r.has_defaults(),
            r.depth == Depth::Infinity,
            r.changelists is None,
            !r.clear_changelists,
            !r.metadata_only,
            !r.added_keep_local,
    {
        Self::default()
    }

    /// Sets the depth for the revert.
    pub fn with_depth(self, depth: Depth) -> (r: Self)
        ensures
            r == (RevertOptions { depth: depth, ..self }),
    {
        let mut s = self;
        s.depth = depth;
        s
    }

    /// Sets the changelists to revert.
    pub fn with_changelists(self, changelists: Vec<String>) -> (r: Self)
        ensures
            r == (RevertOptions { changelists: Some(changelists), ..self }),
    {
        let mut s = self;
        s.changelists = Some(changelists);
        s
    }

    /// Sets whether to clear changelists.
    pub fn with_clear_changelists(self, clear: bool) -> (r: Self)
        ensures
            r == (RevertOptions { clear_changelists: clear, ..self }),
    {
        let mut s = self;
        s.clear_changelists = clear;
        s
    }

    /// Sets whether to only revert metadata.
    pub fn with_metadata_only(self, metadata_only: bool) -> (r: Self)
        ensures
            r == (RevertOptions { metadata_only: metadata_only, ..self }),
    {
        let mut s = self;
        s.metadata_only = metadata_only;
        s
    }

    /// Sets whether to keep local copies of added files.
    pub fn with_added_keep_local(self, keep_local: bool) -> (r: Self)
        ensures
            r == (RevertOptions { added_keep_local: keep_local, ..self }),
    {
        let mut s = self;
        s.added_keep_local = keep_local;
        s
    }

}

impl Default for RevertOptions {
    fn default() -> (r: Self)
        ensures
            r.has_defaults(),
            r.depth == Depth::Infinity,
            r.changelists is None,
            !r.clear_changelists,
            !r.metadata_only,
            !r.added_keep_local,
    {
        RevertOptions {
            depth: Depth::Infinity,
            changelists: None,
            clear_changelists: false,
            metadata_only: false,
            added_keep_local: false,
        }
    }
}

/// Options for property get operations.
#[derive(Debug, Clone)]
pub struct PropGetOptions {
    /// Peg revision.
    pub peg_revision: Revision,
    /// Operative revision.
    pub revision: Revision,
    /// Recursion depth.
    pub depth: Depth,
    /// Changelists to limit operation to (None means all).
    pub changelists: Option<Vec<String>>,
}

impl PropGetOptions {
    /// Whether every field holds its default value.
    pub open spec fn has_defaults(&self) -> bool {
        &&& self.peg_revision == Revision::Unspecified
        &&& self.revision == Revision::Working
        &&& self.depth == Depth::Empty
        &&& self.changelists is None
    }

    /// Creates a new PropGetOptions with default values.
    pub fn new() -> (r: Self)
        ensures
            r.has_defaults(),
            r.peg_revision == Revision::Unspecified,
            r.revision == Revision::Working,
            r.depth == Depth::Empty,
            r.changelists is None,
    {
        Self::default()
    }

    /// Sets the peg revision.
    pub fn with_peg_revision(self, peg_revision: Revision) -> (r: Self)
        ensures
            r == (PropGetOptions { peg_revision: peg_revision, ..self }),
    {
        let mut s = self;
        s.peg_revision = peg_revision;
        s
    }

    /// Sets the operative revision.
    pub fn with_revision(self, revision: Revision) -> (r: Self)
        ensures
            r == (PropGetOptions { revision: revision, ..self }),
    {
        let mut s = self;
        s.revision = revision;
        s
    }

    /// Sets the depth.
    pub fn with_depth(self, depth: Depth) -> (r: Self)
        ensures
            r == (PropGetOptions { depth: depth, ..self }),
    {
        let mut s = self;
        s.depth = depth;
        s
    }

    /// Sets the changelists.
    pub fn with_changelists(self, changelists: Vec<String>) -> (r: Self)
        ensures
            r == (PropGetOptions { changelists: Some(changelists), ..self }),
    {
        let mut s = self;
        s.changelists = Some(changelists);
        s
    }

}

impl Default for PropGetOptions {
    fn default() -> (r: Self)
        ensures
            r.has_defaults(),
            r.peg_revision == Revision::Unspecified,
            r.revision == Revision::Working,
            r.depth == Depth::Empty,
            r.changelists is None,
    {
        PropGetOptions {
            peg_revision: Revision::Unspecified,
            revision: Revision::Working,
            depth: Depth::Empty,
            changelists: None,
        }
    }
}

/// Options for property set operations.
#[derive(Debug, Clone)]
pub struct PropSetOptions {
    /// Recursion depth.
    pub depth: Depth,
    /// Whether to skip checks.
    pub skip_checks: bool,
    /// Base revision for URL (used for atomic revprop changes).
    pub base_revision_for_url: Revnum,
    /// Changelists to limit operation to (None means all).
    pub changelists: Option<Vec<String>>,
}

impl PropSetOptions {
    /// Whether every field holds its default value.
    pub open spec fn has_defaults(&self) -> bool {
        &&& self.depth == Depth::Empty
        &&& !self.skip_checks
        &&& self.base_revision_for_url == Revnum(-1i64)
        &&& self.changelists is None
    }

    /// Creates a new PropSetOptions with default values.
    pub fn new() -> (r: Self)
        ensures
            r.has_defaults(),
            r.depth == Depth::Empty,
            !r.skip_checks,
            r.base_revision_for_url == Revnum(-1i64),
            r.changelists is None,
    {
        Self::default()
    }

    /// Sets the depth.
    pub fn with_depth(self, depth: Depth) -> (r: Self)
        ensures
            r == (PropSetOptions { depth: depth, ..self }),
    {
        let mut s = self;
        s.depth = depth;
        s
    }

    /// Sets whether to skip checks.
    pub fn with_skip_checks(self, skip_checks: bool) -> (r: Self)
        ensures
            r == (PropSetOptions { skip_checks: skip_checks, ..self }),
    {
        let mut s = self;
        s.skip_checks = skip_checks;
        s
    }

    /// Sets the base revision for URL.
    pub fn with_base_revision_for_url(self, base_revision: Revnum) -> (r: Self)
        ensures
            r == (PropSetOptions { base_revision_for_url: base_revision, ..self }),
    {
        let mut s = self;
        s.base_revision_for_url = base_revision;
        s
    }

    /// Sets the changelists.
    pub fn with_changelists(self, changelists: Vec<String>) -> (r: Self)
        ensures
            r == (PropSetOptions { changelists: Some(changelists), ..self }),
    {
        let mut s = self;
        s.changelists = Some(changelists);
        s
    }

}

impl Default for PropSetOptions {
    fn default() -> (r: Self)
        ensures
            r.has_defaults(),
            r.depth == Depth::Empty,
            !r.skip_checks,
            r.base_revision_for_url == Revnum(-1i64),
            r.changelists is None,
    {
        PropSetOptions {
            depth: Depth::Empty,
            skip_checks: false,
            base_revision_for_url: Revnum(-1),
            changelists: None,
        }
    }
}

/// Options for diff operations.
#[derive(Debug, Clone)]
pub struct DiffOptions {
    /// Diff-specific options to pass to diff engine.
    pub diff_options: Vec<String>,
    /// Recursion depth.
    pub depth: Depth,
    /// Whether to ignore ancestry when calculating diffs.
    pub ignore_ancestry: bool,
    /// If true, don't show diffs for added files.
    pub no_diff_added: bool,
    /// If true, don't show diffs for deleted files.
    pub no_diff_deleted: bool,
    /// If true, show copies as additions.
    pub show_copies_as_adds: bool,
    /// If true, ignore content type.
    pub ignore_content_type: bool,
    /// If true, ignore properties.
    pub ignore_properties: bool,
    /// If true, show only properties.
    pub properties_only: bool,
    /// If true, use Git diff format.
    pub use_git_diff_format: bool,
    /// Encoding for headers.
    pub header_encoding: String,
    /// Changelists to limit operation to (None means all).
    pub changelists: Option<Vec<String>>,
}

impl DiffOptions {
    /// Whether every field holds its default value.
    pub open spec fn has_defaults(&self) -> bool {
        &&& self.diff_options@.len() == 0
        &&& self.depth == Depth::Infinity
        &&& !self.ignore_ancestry
        &&& !self.no_diff_added
        &&& !self.no_diff_deleted
        &&& !self.show_copies_as_adds
        &&& !self.ignore_content_type
        &&& !self.ignore_properties
        &&& !self.properties_only
        &&& !self.use_git_diff_format
        &&& self.header_encoding@ == "UTF-8"@
        &&& self.changelists is None
    }

    /// Creates a new DiffOptions with default values.
    pub fn new() -> (r: Self)
        ensures
            r.has_defaults(),
            r.diff_options@.len() == 0,
            r.depth == Depth::Infinity,
            !r.ignore_ancestry,
            !r.no_diff_added,
            !r.no_diff_deleted,
            !r.show_copies_as_adds,
            !r.ignore_content_type,
            !r.ignore_properties,
            !r.properties_only,
            !r.use_git_diff_format,
            r.header_encoding@ == "UTF-8"@,
            r.changelists is None,
    {
        Self::default()
    }

    /// Sets the diff options.
    pub fn with_diff_options(self, diff_options: Vec<String>) -> (r: Self)
        ensures
            r == (DiffOptions { diff_options: diff_options, ..self }),
    {
        let mut s = self;
        s.diff_options = diff_options;
        s
    }

    /// Sets the depth.
    pub fn with_depth(self, depth: Depth) -> (r: Self)
        ensures
            r == (DiffOptions { depth: depth, ..self }),
    {
        let mut s = self;
        s.depth = depth;
        s
    }

    /// Sets whether to ignore ancestry.
    pub fn with_ignore_ancestry(self, ignore_ancestry: bool) -> (r: Self)
        ensures
            r == (DiffOptions { ignore_ancestry: ignore_ancestry, ..self }),
    {
        let mut s = self;
        s.ignore_ancestry = ignore_ancestry;
        s
    }

    /// Sets whether to skip diffs for added files.
    pub fn with_no_diff_added(self, no_diff_added: bool) -> (r: Self)
        ensures
            r == (DiffOptions { no_diff_added: no_diff_added, ..self }),
    {
        let mut s = self;
        s.no_diff_added = no_diff_added;
        s
    }

    /// Sets whether to skip diffs for deleted files.
    pub fn with_no_diff_deleted(self, no_diff_deleted: bool) -> (r: Self)
        ensures
            r == (DiffOptions { no_diff_deleted: no_diff_deleted, ..self }),
    {
        let mut s = self;
        s.no_diff_deleted = no_diff_deleted;
        s
    }

    /// Sets whether to show copies as additions.
    pub fn with_show_copies_as_adds(self, show_copies_as_adds: bool) -> (r: Self)
        ensures
            r == (DiffOptions { show_copies_as_adds: show_copies_as_adds, ..self }),
    {
        let mut s = self;
        s.show_copies_as_adds = show_copies_as_adds;
        s
    }

    /// Sets whether to ignore content type.
    pub fn with_ignore_content_type(self, ignore_content_type: bool) -> (r: Self)
        ensures
            r == (DiffOptions { ignore_content_type: ignore_content_type, ..self }),
    {
        let mut s = self;
        s.ignore_content_type = ignore_content_type;
        s
    }

    /// Sets whether to ignore properties.
    pub fn with_ignore_properties(self, ignore_properties: bool) -> (r: Self)
        ensures
            r == (DiffOptions { ignore_properties: ignore_properties, ..self }),
    {
        let mut s = self;
        s.ignore_properties = ignore_properties;
        s
    }

    /// Sets whether to show only properties.
    pub fn with_properties_only(self, properties_only: bool) -> (r: Self)
        ensures
            r == (DiffOptions { properties_only: properties_only, ..self }),
    {
        let mut s = self;
        s.properties_only = properties_only;
        s
    }

    /// Sets whether to use Git diff format.
    pub fn with_use_git_diff_format(self, use_git_diff_format: bool) -> (r: Self)
        ensures
            r == (DiffOptions { use_git_diff_format: use_git_diff_format, ..self }),
    {
        let mut s = self;
        s.use_git_diff_format = use_git_diff_format;
        s
    }

    /// Sets the header encoding.
    pub fn with_header_encoding(self, header_encoding: String) -> (r: Self)
        ensures
            r == (DiffOptions { header_encoding: header_encoding, ..self }),
    {
        let mut s = self;
        s.header_encoding = header_encoding;
        s
    }

    /// Sets the changelists.
    pub fn with_changelists(self, changelists: Vec<String>) -> (r: Self)
        ensures
            r == (DiffOptions { changelists: Some(changelists), ..self }),
    {
        let mut s = self;
        s.changelists = Some(changelists);
        s
    }

}

impl Default for DiffOptions {
    fn default() -> (r: Self)
        ensures
            r.has_defaults(),
            r.diff_options@.len() == 0,
            r.depth == Depth::Infinity,
            !r.ignore_ancestry,
            !r.no_diff_added,
            !r.no_diff_deleted,
            !r.show_copies_as_adds,
            !r.ignore_content_type,
            !r.ignore_properties,
            !r.properties_only,
            !r.use_git_diff_format,
            r.header_encoding@ == "UTF-8"@,
            r.changelists is None,
    {
        proof {
            reveal_strlit("UTF-8");
        }
        DiffOptions {
            diff_options: Vec::new(),
            depth: Depth::Infinity,
            ignore_ancestry: false,
            no_diff_added: false,
            no_diff_deleted: false,
            show_copies_as_adds: false,
            ignore_content_type: false,
            ignore_properties: false,
            properties_only: false,
            use_git_diff_format: false,
            header_encoding: String::from_str("UTF-8"),
            changelists: None,
        }
    }
}

/// Options for diff summarize operations.
#[derive(Debug, Clone)]
pub struct DiffSummarizeOptions {
    /// Recursion depth (or use recurse boolean for older API)
    pub depth: Depth,
    /// Whether to ignore ancestry
    pub ignore_ancestry: bool,
    /// Changelists to limit operation to (None means all).
    pub changelists: Option<Vec<String>>,
}

impl DiffSummarizeOptions {
    /// Whether every field holds its default value.
    pub open spec fn has_defaults(&self) -> bool {
        &&& self.depth == Depth::Infinity
        &&& !self.ignore_ancestry
        &&& self.changelists is None
    }

    /// Creates a new DiffSummarizeOptions with default values.
    pub fn new() -> (r: Self)
        ensures
            r.has_defaults(),
            r.depth == Depth::Infinity,
            !r.ignore_ancestry,
            r.changelists is None,
    {
        Self::default()
    }

    /// Sets the depth.
    pub fn with_depth(self, depth: Depth) -> (r: Self)
        ensures
            r == (DiffSummarizeOptions { depth: depth, ..self }),
    {
        let mut s = self;
        s.depth = depth;
        s
    }

    /// Sets whether to ignore ancestry.
    pub fn with_ignore_ancestry(self, ignore_ancestry: bool) -> (r: Self)
        ensures
            r == (DiffSummarizeOptions { ignore_ancestry: ignore_ancestry, ..self }),
    {
        let mut s = self;
        s.ignore_ancestry = ignore_ancestry;
        s
    }

    /// Sets the changelists.
    pub fn with_changelists(self, changelists: Vec<String>) -> (r: Self)
        ensures
            r == (DiffSummarizeOptions { changelists: Some(changelists), ..self }),
    {
        let mut s = self;
        s.changelists = Some(changelists);
        s
    }

}

impl Default for DiffSummarizeOptions {
    fn default() -> (r: Self)
        ensures
            r.has_defaults(),
            r.depth == Depth::Infinity,
            !r.ignore_ancestry,
            r.changelists is None,
    {
        DiffSummarizeOptions {
            depth: Depth::Infinity,
            ignore_ancestry: false,
            changelists: None,
        }
    }
}

/// Options for log operations.
#[derive(Debug, Clone)]
pub struct LogOptions {
    /// Peg revision for the target.
    pub peg_revision: Revision,
    /// Maximum number of log entries to retrieve (None = unlimited).
    pub limit: Option<i32>,
    /// Whether to discover changed paths.
    pub discover_changed_paths: bool,
    /// Whether to follow strict node history.
    pub strict_node_history: bool,
    /// Whether to include merged revisions.
    pub include_merged_revisions: bool,
    /// Revision properties to retrieve (empty = all).
    pub revprops: Vec<String>,
}

impl LogOptions {
    /// Whether every field holds its default value.
    pub open spec fn has_defaults(&self) -> bool {
        &&& self.peg_revision == Revision::Unspecified
        &&& self.limit is None
        &&& !self.discover_changed_paths
        &&& !self.strict_node_history
        &&& !self.include_merged_revisions
        &&& self.revprops@.len() == 0
    }

    /// Creates a new LogOptions with default values.
    pub fn new() -> (r: Self)
        ensures
            r.has_defaults(),
            r.peg_revision == Revision::Unspecified,
            r.limit is None,
            !r.discover_changed_paths,
            !r.strict_node_history,
            !r.include_merged_revisions,
            r.revprops@.len() == 0,
    {
        Self::default()
    }

    /// Sets the peg revision.
    pub fn with_peg_revision(self, peg_revision: Revision) -> (r: Self)
        ensures
            r == (LogOptions { peg_revision: peg_revision, ..self }),
    {
        let mut s = self;
        s.peg_revision = peg_revision;
        s
    }

    /// Sets the limit for number of log entries.
    pub fn with_limit(self, limit: i32) -> (r: Self)
        ensures
            r == (LogOptions { limit: Some(limit), ..self }),
    {
        let mut s = self;
        s.limit = Some(limit);
        s
    }

    /// Sets whether to discover changed paths.
    pub fn with_discover_changed_paths(self, discover: bool) -> (r: Self)
        ensures
            r == (LogOptions { discover_changed_paths: discover, ..self }),
    {
        let mut s = self;
        s.discover_changed_paths = discover;
        s
    }

    /// Sets whether to follow strict node history.
    pub fn with_strict_node_history(self, strict: bool) -> (r: Self)
        ensures
            r == (LogOptions { strict_node_history: strict, ..self }),
    {
        let mut s = self;
        s.strict_node_history = strict;
        s
    }

    /// Sets whether to include merged revisions.
    pub fn with_include_merged_revisions(self, include_merged: bool) -> (r: Self)
        ensures
            r == (LogOptions { include_merged_revisions: include_merged, ..self }),
    {
        let mut s = self;
        s.include_merged_revisions = include_merged;
        s
    }

    /// Sets the revision properties to retrieve.
    pub fn with_revprops(self, revprops: Vec<String>) -> (r: Self)
        ensures
            r == (LogOptions { revprops: revprops, ..self }),
    {
        let mut s = self;
        s.revprops = revprops;
        s
    }

}

impl Default for LogOptions {
    fn default() -> (r: Self)
        ensures
            r.has_defaults(),
            r.peg_revision == Revision::Unspecified,
            r.limit is None,
            !r.discover_changed_paths,
            !r.strict_node_history,
            !r.include_merged_revisions,
            r.revprops@.len() == 0,
    {
        LogOptions {
            peg_revision: Revision::Unspecified,
            limit: None,
            discover_changed_paths: false,
            strict_node_history: false,
            include_merged_revisions: false,
            revprops: Vec::new(),
        }
    }
}

/// The options with which a log builder runs its log: its peg revision,
/// changed-path discovery, node-history, merged-revision and revision
/// property settings as given, and its limit where one is set (a limit of
/// zero means no limit).
pub fn log_builder_options(
    peg_revision: Revision,
    limit: i32,
    discover_changed_paths: bool,
    strict_node_history: bool,
    include_merged_revisions: bool,
    revprops: Vec<String>,
) -> (r: LogOptions)
    ensures
        r == (LogOptions {
            peg_revision: peg_revision,
            limit: if limit != 0 {
                Some(limit)
            } else {
                None
            },
            discover_changed_paths: discover_changed_paths,
            strict_node_history: strict_node_history,
            include_merged_revisions: include_merged_revisions,
            revprops: revprops,
        }),
{
    let mut options = LogOptions::new().with_peg_revision(peg_revision).with_discover_changed_paths(
        discover_changed_paths,
    ).with_strict_node_history(strict_node_history).with_include_merged_revisions(
        include_merged_revisions,
    ).with_revprops(revprops);
    if limit != 0 {
        options = options.with_limit(limit);
    }
    options
}

/// Options for mergeinfo log operations.
#[derive(Debug, Clone)]
pub struct MergeinfoLogOptions {
    /// Whether to find merged revisions (true) or eligible revisions (false)
    pub finding_merged: bool,
    /// Target peg revision
    pub target_peg_revision: Revision,
    /// Source peg revision
    pub source_peg_revision: Revision,
    /// Source start revision
    pub source_start_revision: Revision,
    /// Source end revision
    pub source_end_revision: Revision,
    /// Whether to discover changed paths
    pub discover_changed_paths: bool,
    /// Recursion depth
    pub depth: Depth,
    /// Revision properties to retrieve
    pub revprops: Vec<String>,
}

impl MergeinfoLogOptions {
    /// Whether every field holds its default value.
    pub open spec fn has_defaults(&self) -> bool {
        &&& self.finding_merged
        &&& self.target_peg_revision == Revision::Head
        &&& self.source_peg_revision == Revision::Head
        &&& self.source_start_revision == Revision::Head
        &&& self.source_end_revision == Revision::Number(Revnum(1i64))
        &&& !self.discover_changed_paths
        &&& self.depth == Depth::Empty
        &&& self.revprops@.len() == 0
    }

    /// Creates a new MergeinfoLogOptions with default values.
    pub fn new() -> (r: Self)
        ensures
            r.has_defaults(),
            r.finding_merged,
            r.target_peg_revision == Revision::Head,
            r.source_peg_revision == Revision::Head,
            r.source_start_revision == Revision::Head,
            r.source_end_revision == Revision::Number(Revnum(1i64)),
            !r.discover_changed_paths,
            r.depth == Depth::Empty,
            r.revprops@.len() == 0,
    {
        Self::default()
    }

    /// Sets whether to find merged (true) or eligible (false) revisions.
    pub fn with_finding_merged(self, finding_merged: bool) -> (r: Self)
        ensures
            r == (MergeinfoLogOptions { finding_merged: finding_merged, ..self }),
    {
        let mut s = self;
        s.finding_merged = finding_merged;
        s
    }

    /// Sets the target peg revision.
    pub fn with_target_peg_revision(self, revision: Revision) -> (r: Self)
        ensures
            r == (MergeinfoLogOptions { target_peg_revision: revision, ..self }),
    {
        let mut s = self;
        s.target_peg_revision = revision;
        s
    }

    /// Sets the source peg revision.
    pub fn with_source_peg_revision(self, revision: Revision) -> (r: Self)
        ensures
            r == (MergeinfoLogOptions { source_peg_revision: revision, ..self }),
    {
        let mut s = self;
        s.source_peg_revision = revision;
        s
    }

    /// Sets the source start revision.
    pub fn with_source_start_revision(self, revision: Revision) -> (r: Self)
        ensures
            r == (MergeinfoLogOptions { source_start_revision: revision, ..self }),
    {
        let mut s = self;
        s.source_start_revision = revision;
        s
    }

    /// Sets the source end revision.
    pub fn with_source_end_revision(self, revision: Revision) -> (r: Self)
        ensures
            r == (MergeinfoLogOptions { source_end_revision: revision, ..self }),
    {
        let mut s = self;
        s.source_end_revision = revision;
        s
    }

    /// Sets whether to discover changed paths.
    pub fn with_discover_changed_paths(self, discover: bool) -> (r: Self)
        ensures
            r == (MergeinfoLogOptions { discover_changed_paths: discover, ..self }),
    {
        let mut s = self;
        s.discover_changed_paths = discover;
        s
    }

    /// Sets the recursion depth.
    pub fn with_depth(self, depth: Depth) -> (r: Self)
        ensures
            r == (MergeinfoLogOptions { depth: depth, ..self }),
    {
        let mut s = self;
        s.depth = depth;
        s
    }

    /// Sets the revision properties to retrieve.
    pub fn with_revprops(self, revprops: Vec<String>) -> (r: Self)
        ensures
            r == (MergeinfoLogOptions { revprops: revprops, ..self }),
    {
        let mut s = self;
        s.revprops = revprops;
        s
    }

}

impl Default for MergeinfoLogOptions {
    fn default() -> (r: Self)
        ensures
            r.has_defaults(),
            r.finding_merged,
            r.target_peg_revision == Revision::Head,
            r.source_peg_revision == Revision::Head,
            r.source_start_revision == Revision::Head,
            r.source_end_revision == Revision::Number(Revnum(1i64)),
            !r.discover_changed_paths,
            r.depth == Depth::Empty,
            r.revprops@.len() == 0,
    {
        MergeinfoLogOptions {
            finding_merged: true,
            target_peg_revision: Revision::Head,
            source_peg_revision: Revision::Head,
            source_start_revision: Revision::Head,
            source_end_revision: Revision::Number(Revnum(1)),
            discover_changed_paths: false,
            depth: Depth::Empty,
            revprops: Vec::new(),
        }
    }
}

/// Options for blame operations.
#[derive(Debug, Clone)]
pub struct BlameOptions {
    /// Peg revision for the target.
    pub peg_revision: Revision,
    /// Start revision for blame range.
    pub start_revision: Revision,
    /// End revision for blame range.
    pub end_revision: Revision,
    /// Diff options to pass to the diff engine.
    pub diff_options: Vec<String>,
    /// Whether to ignore MIME type.
    pub ignore_mime_type: bool,
    /// Whether to include merged revisions.
    pub include_merged_revisions: bool,
}

impl BlameOptions {
    /// Whether every field holds its default value.
    pub open spec fn has_defaults(&self) -> bool {
        &&& self.peg_revision == Revision::Unspecified
        &&& self.start_revision == Revision::Number(Revnum(1i64))
        &&& self.end_revision == Revision::Head
        &&& self.diff_options@.len() == 0
        &&& !self.ignore_mime_type
        &&& !self.include_merged_revisions
    }

    /// Creates a new BlameOptions with default values.
    pub fn new() -> (r: Self)
        ensures
            r.has_defaults(),
            r.peg_revision == Revision::Unspecified,
            r.start_revision == Revision::Number(Revnum(1i64)),
            r.end_revision == Revision::Head,
            r.diff_options@.len() == 0,
            !r.ignore_mime_type,
            !r.include_merged_revisions,
    {
        Self::default()
    }

    /// Sets the peg revision.
    pub fn with_peg_revision(self, peg_revision: Revision) -> (r: Self)
        ensures
            r == (BlameOptions { peg_revision: peg_revision, ..self }),
    {
        let mut s = self;
        s.peg_revision = peg_revision;
        s
    }

    /// Sets the start revision.
    pub fn with_start_revision(self, start_revision: Revision) -> (r: Self)
        ensures
            r == (BlameOptions { start_revision: start_revision, ..self }),
    {
        let mut s = self;
        s.start_revision = start_revision;
        s
    }

    /// Sets the end revision.
    pub fn with_end_revision(self, end_revision: Revision) -> (r: Self)
        ensures
            r == (BlameOptions { end_revision: end_revision, ..self }),
    {
        let mut s = self;
        s.end_revision = end_revision;
        s
    }

    /// Sets the diff options.
    pub fn with_diff_options(self, diff_options: Vec<String>) -> (r: Self)
        ensures
            r == (BlameOptions { diff_options: diff_options, ..self }),
    {
        let mut s = self;
        s.diff_options = diff_options;
        s
    }

    /// Sets whether to ignore MIME type.
    pub fn with_ignore_mime_type(self, ignore: bool) -> (r: Self)
        ensures
            r == (BlameOptions { ignore_mime_type: ignore, ..self }),
    {
        let mut s = self;
        s.ignore_mime_type = ignore;
        s
    }

    /// Sets whether to include merged revisions.
    pub fn with_include_merged_revisions(self, include_merged: bool) -> (r: Self)
        ensures
            r == (BlameOptions { include_merged_revisions: include_merged, ..self }),
    {
        let mut s = self;
        s.include_merged_revisions = include_merged;
        s
    }

}

impl Default for BlameOptions {
    fn default() -> (r: Self)
        ensures
            r.has_defaults(),
            r.peg_revision == Revision::Unspecified,
            r.start_revision == Revision::Number(Revnum(1i64)),
            r.end_revision == Revision::Head,
            r.diff_options@.len() == 0,
            !r.ignore_mime_type,
            !r.include_merged_revisions,
    {
        BlameOptions {
            peg_revision: Revision::Unspecified,
            start_revision: Revision::Number(Revnum(1)),
            end_revision: Revision::Head,
            diff_options: Vec::new(),
            ignore_mime_type: false,
            include_merged_revisions: false,
        }
    }
}

/// Options for setting revision properties.
#[derive(Debug, Clone)]
pub struct RevpropSetOptions {
    /// The revision to set the property on.
    pub revision: Revision,
    /// Original property value for atomic updates (None = don't check).
    pub original_propval: Option<Vec<u8>>,
    /// Whether to force the operation.
    pub force: bool,
}

impl RevpropSetOptions {
    /// Whether every field holds its default value.
    pub open spec fn has_defaults(&self) -> bool {
        &&& self.revision == Revision::Head
        &&& self.original_propval is None
        &&& !self.force
    }

    /// Creates a new RevpropSetOptions with default values.
    pub fn new() -> (r: Self)
        ensures
            r.has_defaults(),
            r.revision == Revision::Head,
            r.original_propval is None,
            !r.force,
    {
        Self::default()
    }

    /// Sets the revision.
    pub fn with_revision(self, revision: Revision) -> (r: Self)
        ensures
            r == (RevpropSetOptions { revision: revision, ..self }),
    {
        let mut s = self;
        s.revision = revision;
        s
    }

    /// Sets the original property value for atomic updates.
    pub fn with_original_propval(self, original_propval: Vec<u8>) -> (r: Self)
        ensures
            r == (RevpropSetOptions { original_propval: Some(original_propval), ..self }),
    {
        let mut s = self;
        s.original_propval = Some(original_propval);
        s
    }

    /// Sets whether to force the operation.
    pub fn with_force(self, force: bool) -> (r: Self)
        ensures
            r == (RevpropSetOptions { force: force, ..self }),
    {
        let mut s = self;
        s.force = force;
        s
    }

}

impl Default for RevpropSetOptions {
    fn default() -> (r: Self)
        ensures
            r.has_defaults(),
            r.revision == Revision::Head,
            r.original_propval is None,
            !r.force,
    {
        RevpropSetOptions {
            revision: Revision::Head,
            original_propval: None,
            force: false,
        }
    }
}

/// Options for list operations.
#[derive(Debug, Clone)]
pub struct ListOptions {
    /// Peg revision for the target.
    pub peg_revision: Revision,
    /// Operative revision.
    pub revision: Revision,
    /// Patterns to filter the listing (None = no filter).
    pub patterns: Option<Vec<String>>,
    /// Recursion depth.
    pub depth: Depth,
    /// Dirent fields to retrieve (bitfield).
    pub dirent_fields: u32,
    /// Whether to fetch locks.
    pub fetch_locks: bool,
    /// Whether to include externals.
    pub include_externals: bool,
}

impl ListOptions {
    /// Whether every field holds its default value.
    pub open spec fn has_defaults(&self) -> bool {
        &&& self.peg_revision == Revision::Unspecified
        &&& self.revision == Revision::Head
        &&& self.patterns is None
        &&& self.depth == Depth::Infinity
        &&& self.dirent_fields == 0xFFFFFFFF
        &&& !self.fetch_locks
        &&& !self.include_externals
    }

    /// Creates a new ListOptions with default values.
    pub fn new() -> (r: Self)
        ensures
            r.has_defaults(),
            r.peg_revision == Revision::Unspecified,
            r.revision == Revision::Head,
            r.patterns is None,
            r.depth == Depth::Infinity,
            r.dirent_fields == 0xFFFFFFFF,
            !r.fetch_locks,
            !r.include_externals,
    {
        Self::default()
    }

    /// Sets the peg revision.
    pub fn with_peg_revision(self, peg_revision: Revision) -> (r: Self)
        ensures
            r == (ListOptions { peg_revision: peg_revision, ..self }),
    {
        let mut s = self;
        s.peg_revision = peg_revision;
        s
    }

    /// Sets the operative revision.
    pub fn with_revision(self, revision: Revision) -> (r: Self)
        ensures
            r == (ListOptions { revision: revision, ..self }),
    {
        let mut s = self;
        s.revision = revision;
        s
    }

    /// Sets the patterns to filter the listing.
    pub fn with_patterns(self, patterns: Vec<String>) -> (r: Self)
        ensures
            r == (ListOptions { patterns: Some(patterns), ..self }),
    {
        let mut s = self;
        s.patterns = Some(patterns);
        s
    }

    /// Sets the depth.
    pub fn with_depth(self, depth: Depth) -> (r: Self)
        ensures
            r == (ListOptions { depth: depth, ..self }),
    {
        let mut s = self;
        s.depth = depth;
        s
    }

    /// Sets the dirent fields to retrieve.
    pub fn with_dirent_fields(self, dirent_fields: u32) -> (r: Self)
        ensures
            r == (ListOptions { dirent_fields: dirent_fields, ..self }),
    {
        let mut s = self;
        s.dirent_fields = dirent_fields;
        s
    }

    /// Sets whether to fetch locks.
    pub fn with_fetch_locks(self, fetch_locks: bool) -> (r: Self)
        ensures
            r == (ListOptions { fetch_locks: fetch_locks, ..self }),
    {
        let mut s = self;
        s.fetch_locks = fetch_locks;
        s
    }

    /// Sets whether to include externals.
    pub fn with_include_externals(self, include_externals: bool) -> (r: Self)
        ensures
            r == (ListOptions { include_externals: include_externals, ..self }),
    {
        let mut s = self;
        s.include_externals = include_externals;
        s
    }

}

impl Default for ListOptions {
    fn default() -> (r: Self)
        ensures
            r.has_defaults(),
            r.peg_revision == Revision::Unspecified,
            r.revision == Revision::Head,
            r.patterns is None,
            r.depth == Depth::Infinity,
            r.dirent_fields == 0xFFFFFFFF,
            !r.fetch_locks,
            !r.include_externals,
    {
        ListOptions {
            peg_revision: Revision::Unspecified,
            revision: Revision::Head,
            patterns: None,
            depth: Depth::Infinity,
            dirent_fields: 0xFFFFFFFF,
            fetch_locks: false,
            include_externals: false,
        }
    }
}

/// Options for info operations.
#[derive(Debug, Clone)]
pub struct InfoOptions {
    /// Peg revision for the target.
    pub peg_revision: Revision,
    /// Operative revision.
    pub revision: Revision,
    /// Recursion depth.
    pub depth: Depth,
    /// Whether to fetch excluded items.
    pub fetch_excluded: bool,
    /// Whether to fetch actual-only items.
    pub fetch_actual_only: bool,
    /// Whether to include externals.
    pub include_externals: bool,
    /// Changelists to limit operation to (None = all).
    pub changelists: Option<Vec<String>>,
}

impl InfoOptions {
    /// Whether every field holds its default value.
    pub open spec fn has_defaults(&self) -> bool {
        &&& self.peg_revision == Revision::Unspecified
        &&& self.revision == Revision::Working
        &&& self.depth == Depth::Empty
        &&& !self.fetch_excluded
        &&& !self.fetch_actual_only
        &&& !self.include_externals
        &&& self.changelists is None
    }

    /// Creates a new InfoOptions with default values.
    pub fn new() -> (r: Self)
        ensures
            r.has_defaults(),
            r.peg_revision == Revision::Unspecified,
            r.revision == Revision::Working,
            r.depth == Depth::Empty,
            !r.fetch_excluded,
            !r.fetch_actual_only,
            !r.include_externals,
            r.changelists is None,
    {
        Self::default()
    }

    /// Sets the peg revision.
    pub fn with_peg_revision(self, peg_revision: Revision) -> (r: Self)
        ensures
            r == (InfoOptions { peg_revision: peg_revision, ..self }),
    {
        let mut s = self;
        s.peg_revision = peg_revision;
        s
    }

    /// Sets the operative revision.
    pub fn with_revision(self, revision: Revision) -> (r: Self)
        ensures
            r == (InfoOptions { revision: revision, ..self }),
    {
        let mut s = self;
        s.revision = revision;
        s
    }

    /// Sets the depth.
    pub fn with_depth(self, depth: Depth) -> (r: Self)
        ensures
            r == (InfoOptions { depth: depth, ..self }),
    {
        let mut s = self;
        s.depth = depth;
        s
    }

    /// Sets whether to fetch excluded items.
    pub fn with_fetch_excluded(self, fetch_excluded: bool) -> (r: Self)
        ensures
            r == (InfoOptions { fetch_excluded: fetch_excluded, ..self }),
    {
        let mut s = self;
        s.fetch_excluded = fetch_excluded;
        s
    }

    /// Sets whether to fetch actual-only items.
    pub fn with_fetch_actual_only(self, fetch_actual_only: bool) -> (r: Self)
        ensures
            r == (InfoOptions { fetch_actual_only: fetch_actual_only, ..self }),
    {
        let mut s = self;
        s.fetch_actual_only = fetch_actual_only;
        s
    }

    /// Sets whether to include externals.
    pub fn with_include_externals(self, include_externals: bool) -> (r: Self)
        ensures
            r == (InfoOptions { include_externals: include_externals, ..self }),
    {
        let mut s = self;
        s.include_externals = include_externals;
        s
    }

    /// Sets the changelists.
    pub fn with_changelists(self, changelists: Vec<String>) -> (r: Self)
        ensures
            r == (InfoOptions { changelists: Some(changelists), ..self }),
    {
        let mut s = self;
        s.changelists = Some(changelists);
        s
    }

}

impl Default for InfoOptions {
    fn default() -> (r: Self)
        ensures
            r.has_defaults(),
            r.peg_revision == Revision::Unspecified,
            r.revision == Revision::Working,
            r.depth == Depth::Empty,
            !r.fetch_excluded,
            !r.fetch_actual_only,
            !r.include_externals,
            r.changelists is None,
    {
        InfoOptions {
            peg_revision: Revision::Unspecified,
            revision: Revision::Working,
            depth: Depth::Empty,
            fetch_excluded: false,
            fetch_actual_only: false,
            include_externals: false,
            changelists: None,
        }
    }
}

/// Options for committing changes to the repository.
#[derive(Debug, Clone)]
pub struct CommitOptions {
    /// Depth of the commit.
    pub depth: Depth,
    /// Whether to keep locks after commit.
    pub keep_locks: bool,
    /// Whether to keep changelists after commit.
    pub keep_changelists: bool,
    /// Whether to commit as operations.
    pub commit_as_operations: bool,
    /// Whether to include file externals.
    pub include_file_externals: bool,
    /// Whether to include directory externals.
    pub include_dir_externals: bool,
    /// Changelists to commit.
    pub changelists: Option<Vec<String>>,
}

impl CommitOptions {
    /// Whether every field holds its default value.
    pub open spec fn has_defaults(&self) -> bool {
        &&& self.depth == Depth::Infinity
        &&& !self.keep_locks
        &&& !self.keep_changelists
        &&& self.commit_as_operations
        &&& !self.include_file_externals
        &&& !self.include_dir_externals
        &&& self.changelists is None
    }

    /// Creates a new CommitOptions with default values.
    pub fn new() -> (r: Self)
        ensures
            r.has_defaults(),
            r.depth == Depth::Infinity,
            !r.keep_locks,
            !r.keep_changelists,
            r.commit_as_operations,
            !r.include_file_externals,
            !r.include_dir_externals,
            r.changelists is None,
    {
        Self::default()
    }

    /// Sets the depth for the commit.
    pub fn with_depth(self, depth: Depth) -> (r: Self)
        ensures
            r == (CommitOptions { depth: depth, ..self }),
    {
        let mut s = self;
        s.depth = depth;
        s
    }

    /// Sets whether to keep locks after commit.
    pub fn with_keep_locks(self, keep_locks: bool) -> (r: Self)
        ensures
            r == (CommitOptions { keep_locks: keep_locks, ..self }),
    {
        let mut s = self;
        s.keep_locks = keep_locks;
        s
    }

    /// Sets whether to keep changelists after commit.
    pub fn with_keep_changelists(self, keep_changelists: bool) -> (r: Self)
        ensures
            r == (CommitOptions { keep_changelists: keep_changelists, ..self }),
    {
        let mut s = self;
        s.keep_changelists = keep_changelists;
        s
    }

    /// Sets whether to commit as operations.
    pub fn with_commit_as_operations(self, commit_as_operations: bool) -> (r: Self)
        ensures
            r == (CommitOptions { commit_as_operations: commit_as_operations, ..self }),
    {
        let mut s = self;
        s.commit_as_operations = commit_as_operations;
        s
    }

    /// Sets whether to include file externals.
    pub fn with_include_file_externals(self, include_file_externals: bool) -> (r: Self)
        ensures
            r == (CommitOptions { include_file_externals: include_file_externals, ..self }),
    {
        let mut s = self;
        s.include_file_externals = include_file_externals;
        s
    }

    /// Sets whether to include directory externals.
    pub fn with_include_dir_externals(self, include_dir_externals: bool) -> (r: Self)
        ensures
            r == (CommitOptions { include_dir_externals: include_dir_externals, ..self }),
    {
        let mut s = self;
        s.include_dir_externals = include_dir_externals;
        s
    }

    /// Sets the changelists to include in the commit.
    pub fn with_changelists(self, changelists: Vec<String>) -> (r: Self)
        ensures
            r == (CommitOptions { changelists: Some(changelists), ..self }),
    {
        let mut s = self;
        s.changelists = Some(changelists);
        s
    }

}

impl Default for CommitOptions {
    fn default() -> (r: Self)
        ensures
            r.has_defaults(),
            r.depth == Depth::Infinity,
            !r.keep_locks,
            !r.keep_changelists,
            r.commit_as_operations,
            !r.include_file_externals,
            !r.include_dir_externals,
            r.changelists is None,
    {
        CommitOptions {
            depth: Depth::Infinity,
            keep_locks: false,
            keep_changelists: false,
            commit_as_operations: true,
            include_file_externals: false,
            include_dir_externals: false,
            changelists: None,
        }
    }
}

/// Options for retrieving status information about working copy items.
#[derive(Debug, Clone)]
pub struct StatusOptions {
    /// Revision to check status against.
    pub revision: Revision,
    /// Depth of the status operation.
    pub depth: Depth,
    /// Whether to get all entries.
    pub get_all: bool,
    /// Whether to check out-of-date status.
    pub check_out_of_date: bool,
    /// Whether to check the working copy.
    pub check_working_copy: bool,
    /// Whether to include ignored files.
    pub no_ignore: bool,
    /// Whether to ignore externals.
    pub ignore_externals: bool,
    /// Whether to treat depth as sticky.
    pub depth_as_sticky: bool,
    /// Changelists to filter by.
    pub changelists: Option<Vec<String>>,
}

impl StatusOptions {
    /// Whether every field holds its default value.
    pub open spec fn has_defaults(&self) -> bool {
        &&& self.revision == Revision::Working
        &&& self.depth == Depth::Infinity
        &&& !self.get_all
        &&& !self.check_out_of_date
        &&& self.check_working_copy
        &&& !self.no_ignore
        &&& !self.ignore_externals
        &&& !self.depth_as_sticky
        &&& self.changelists is None
    }

    /// Creates a new StatusOptions with default values.
    pub fn new() -> (r: Self)
        ensures
            r.has_defaults(),
            r.revision == Revision::Working,
            r.depth == Depth::Infinity,
            !r.get_all,
            !r.check_out_of_date,
            r.check_working_copy,
            !r.no_ignore,
            !r.ignore_externals,
            !r.depth_as_sticky,
            r.changelists is None,
    {
        Self::default()
    }

    /// Sets the revision to check status against.
    pub fn with_revision(self, revision: Revision) -> (r: Self)
        ensures
            r == (StatusOptions { revision: revision, ..self }),
    {
        let mut s = self;
        s.revision = revision;
        s
    }

    /// Sets the depth of the status operation.
    pub fn with_depth(self, depth: Depth) -> (r: Self)
        ensures
            r == (StatusOptions { depth: depth, ..self }),
    {
        let mut s = self;
        s.depth = depth;
        s
    }

    /// Sets whether to get all entries.
    pub fn with_get_all(self, get_all: bool) -> (r: Self)
        ensures
            r == (StatusOptions { get_all: get_all, ..self }),
    {
        let mut s = self;
        s.get_all = get_all;
        s
    }

    /// Sets whether to check out-of-date status.
    pub fn with_check_out_of_date(self, check_out_of_date: bool) -> (r: Self)
        ensures
            r == (StatusOptions { check_out_of_date: check_out_of_date, ..self }),
    {
        let mut s = self;
        s.check_out_of_date = check_out_of_date;
        s
    }

    /// Sets whether to check the working copy.
    pub fn with_check_working_copy(self, check_working_copy: bool) -> (r: Self)
        ensures
            r == (StatusOptions { check_working_copy: check_working_copy, ..self }),
    {
        let mut s = self;
        s.check_working_copy = check_working_copy;
        s
    }

    /// Sets whether to include ignored files.
    pub fn with_no_ignore(self, no_ignore: bool) -> (r: Self)
        ensures
            r == (StatusOptions { no_ignore: no_ignore, ..self }),
    {
        let mut s = self;
        s.no_ignore = no_ignore;
        s
    }

    /// Sets whether to ignore externals.
    pub fn with_ignore_externals(self, ignore_externals: bool) -> (r: Self)
        ensures
            r == (StatusOptions { ignore_externals: ignore_externals, ..self }),
    {
        let mut s = self;
        s.ignore_externals = ignore_externals;
        s
    }

    /// Sets whether to treat depth as sticky.
    pub fn with_depth_as_sticky(self, depth_as_sticky: bool) -> (r: Self)
        ensures
            r == (StatusOptions { depth_as_sticky: depth_as_sticky, ..self }),
    {
        let mut s = self;
        s.depth_as_sticky = depth_as_sticky;
        s
    }

    /// Sets the changelists to filter by.
    pub fn with_changelists(self, changelists: Vec<String>) -> (r: Self)
        ensures
            r == (StatusOptions { changelists: Some(changelists), ..self }),
    {
        let mut s = self;
        s.changelists = Some(changelists);
        s
    }

}

impl Default for StatusOptions {
    fn default() -> (r: Self)
        ensures
            r.has_defaults(),
            r.revision == Revision::Working,
            r.depth == Depth::Infinity,
            !r.get_all,
            !r.check_out_of_date,
            r.check_working_copy,
            !r.no_ignore,
            !r.ignore_externals,
            !r.depth_as_sticky,
            r.changelists is None,
    {
        StatusOptions {
            revision: Revision::Working,
            depth: Depth::Infinity,
            get_all: false,
            check_out_of_date: false,
            check_working_copy: true,
            no_ignore: false,
            ignore_externals: false,
            depth_as_sticky: false,
            changelists: None,
        }
    }
}

} // verus!
