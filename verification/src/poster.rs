//! From the comments on a report's findings to the comments that can be
//! placed in a merge request.
//!
//! Nothing here talks to a server. The caller fetches what the merge request
//! says of itself, hands it over as plain values, and sends what comes back.

use crate::sequence::{lemma_filter_keeps_all, lemma_filter_step};
use crate::timestamp::Timestamp;
use vstd::prelude::*;

verus! {

/// A finding as a comment on one line of one file.
#[derive(Debug, PartialEq, Eq)]
pub struct DiffLineComment {
    pub path: String,
    pub line: u32,
    pub body: String,
}

/// What a [`DiffLineComment`] says.
pub ghost struct DiffLineCommentModel {
    pub path: Seq<char>,
    pub line: u32,
    pub body: Seq<char>,
}

impl View for DiffLineComment {
    type V = DiffLineCommentModel;

    open spec fn view(&self) -> DiffLineCommentModel {
        DiffLineCommentModel { path: self.path@, line: self.line, body: self.body@ }
    }
}

/// What a list of comments says.
pub open spec fn comments_view(comments: Seq<DiffLineComment>) -> Seq<DiffLineCommentModel> {
    Seq::new(comments.len(), |i: int| comments[i]@)
}

/// One file of a merge request's changes.
#[derive(Debug, PartialEq, Eq)]
pub struct MRChanges {
    pub new_path: String,
    pub deleted_file: bool,
}

/// What an [`MRChanges`] says.
pub ghost struct MRChangesModel {
    pub new_path: Seq<char>,
    pub deleted_file: bool,
}

impl View for MRChanges {
    type V = MRChangesModel;

    open spec fn view(&self) -> MRChangesModel {
        MRChangesModel { new_path: self.new_path@, deleted_file: self.deleted_file }
    }
}

/// What a list of changes says.
pub open spec fn changes_view(changes: Seq<MRChanges>) -> Seq<MRChangesModel> {
    Seq::new(changes.len(), |i: int| changes[i]@)
}

/// What a list of paths says.
pub open spec fn paths_view(paths: Seq<String>) -> Seq<Seq<char>> {
    Seq::new(paths.len(), |i: int| paths[i]@)
}

/// Whether a change leaves its file in place.
pub open spec fn is_live() -> spec_fn(MRChangesModel) -> bool {
    |change: MRChangesModel| !change.deleted_file
}

/// The path of a change.
pub open spec fn path_of() -> spec_fn(MRChangesModel) -> Seq<char> {
    |change: MRChangesModel| change.new_path
}

/// The paths that a merge request changes and does not delete, in the order
/// of the changes.
pub open spec fn live_paths(changes: Seq<MRChangesModel>) -> Seq<Seq<char>> {
    changes.filter(is_live()).map_values(path_of())
}

/// Lists the files that a merge request changes, leaving out those that it
/// deletes.
pub fn changed_paths(changes: &Vec<MRChanges>) -> (r: Vec<String>)
    ensures
        paths_view(r@) == live_paths(changes_view(changes@)),
{
    let ghost all = changes_view(changes@);
    let mut out: Vec<String> = Vec::new();
    let mut i: usize = 0;
    proof {
        reveal(Seq::filter);
        assert(all.take(0).filter(is_live()) =~= Seq::empty());
        assert(paths_view(out@) =~= live_paths(all.take(0)));
    }
    while i < changes.len()
        invariant
            i <= changes.len(),
            all == changes_view(changes@),
            paths_view(out@) == live_paths(all.take(i as int)),
        decreases changes.len() - i,
    {
        proof {
            lemma_filter_step(all, is_live(), i as int);
        }
        if !changes[i].deleted_file {
            let ghost before = paths_view(out@);
            out.push(changes[i].new_path.clone());
            assert(paths_view(out@) =~= before.push(changes[i as int]@.new_path));
            assert(live_paths(all.take(i + 1)) =~= live_paths(all.take(i as int)).push(
                all[i as int].new_path,
            ));
        }
        i += 1;
    }
    assert(all.take(i as int) =~= all);
    out
}

/// Whether a path is among the paths given.
pub fn is_among(path: &String, paths: &Vec<String>) -> (r: bool)
    ensures
        r == paths_view(paths@).contains(path@),
{
    let mut i: usize = 0;
    while i < paths.len()
        invariant
            i <= paths.len(),
            forall|j: int| 0 <= j < i ==> paths_view(paths@)[j] != path@,
        decreases paths.len() - i,
    {
        if paths[i] == *path {
            assert(paths_view(paths@)[i as int] == path@);
            return true;
        }
        i += 1;
    }
    false
}

/// One version of a merge request's diff, as the server lists it.
#[derive(Debug, PartialEq, Eq)]
pub struct MergeRequestVersion {
    pub id: u64,
    pub head_commit_sha: String,
    pub base_commit_sha: String,
    pub start_commit_sha: String,
    pub created_at: Timestamp,
    pub merge_request_id: u64,
}

/// What a [`MergeRequestVersion`] says.
pub ghost struct MergeRequestVersionModel {
    pub id: u64,
    pub head_commit_sha: Seq<char>,
    pub base_commit_sha: Seq<char>,
    pub start_commit_sha: Seq<char>,
    pub created_at: Timestamp,
    pub merge_request_id: u64,
}

impl View for MergeRequestVersion {
    type V = MergeRequestVersionModel;

    open spec fn view(&self) -> MergeRequestVersionModel {
        MergeRequestVersionModel {
            id: self.id,
            head_commit_sha: self.head_commit_sha@,
            base_commit_sha: self.base_commit_sha@,
            start_commit_sha: self.start_commit_sha@,
            created_at: self.created_at,
            merge_request_id: self.merge_request_id,
        }
    }
}

/// What a list of versions says.
pub open spec fn versions_view(versions: Seq<MergeRequestVersion>) -> Seq<
    MergeRequestVersionModel,
> {
    Seq::new(versions.len(), |i: int| versions[i]@)
}

/// Whether a list of versions runs from the newest to the oldest. This is
/// the order in which the server is expected to list them, and what makes
/// the first of the list the current version; nothing here can make the
/// server keep to it, so a caller that doubts the order tests it with
/// [`listed_newest_first`].
pub open spec fn newest_first(versions: Seq<MergeRequestVersionModel>) -> bool {
    forall|i: int, j: int|
        0 <= i < j < versions.len() ==> !(#[trigger] versions[j]).created_at.is_after(
            (#[trigger] versions[i]).created_at,
        )
}

/// Whether version `k` is the newest of a list: none was created after it,
/// and it was created after every version that stands before it. Of
/// versions created at the same time, that makes the first the newest.
pub open spec fn is_newest(versions: Seq<MergeRequestVersionModel>, k: int) -> bool {
    &&& 0 <= k < versions.len()
    &&& forall|i: int|
        0 <= i < versions.len() ==> !(#[trigger] versions[i]).created_at.is_after(
            versions[k].created_at,
        )
    &&& forall|i: int|
        0 <= i < k ==> versions[k].created_at.is_after((#[trigger] versions[i]).created_at)
}

/// The current version of a merge request: the first that the server
/// lists.
pub fn current_version(versions: &Vec<MergeRequestVersion>) -> (r: Option<&MergeRequestVersion>)
    ensures
        match r {
            Some(version) => versions@.len() > 0 && *version == versions@[0],
            None => versions@.len() == 0,
        },
{
    if versions.len() == 0 {
        None
    } else {
        Some(&versions[0])
    }
}

/// Tells whether the versions are listed from the newest to the oldest.
pub fn listed_newest_first(versions: &Vec<MergeRequestVersion>) -> (r: bool)
    ensures
        r == newest_first(versions_view(versions@)),
{
    let ghost all = versions_view(versions@);
    if versions.len() < 2 {
        return true;
    }
    let mut i: usize = 1;
    while i < versions.len()
        invariant
            1 <= i <= versions.len(),
            all == versions_view(versions@),
            forall|a: int, b: int|
                0 <= a < b < i ==> !(#[trigger] all[b]).created_at.is_after(
                    (#[trigger] all[a]).created_at,
                ),
        decreases versions.len() - i,
    {
        if versions[i].created_at.later_than(&versions[i - 1].created_at) {
            assert(all[i as int].created_at.is_after(all[i - 1].created_at));
            return false;
        }
        assert forall|a: int, b: int| 0 <= a < b < i + 1 implies !(#[trigger] all[b]).created_at.is_after(
            (#[trigger] all[a]).created_at,
        ) by {
            if b == i && a < i - 1 {
                assert(!all[i - 1].created_at.is_after(all[a].created_at));
            }
        }
        i += 1;
    }
    true
}

/// A list of versions has one newest version at most.
pub proof fn lemma_newest_version_is_unique(
    versions: Seq<MergeRequestVersionModel>,
    a: int,
    b: int,
)
    requires
        is_newest(versions, a),
        is_newest(versions, b),
    ensures
        a == b,
{
    if a < b {
        assert(versions[b].created_at.is_after(versions[a].created_at));
        assert(!versions[b].created_at.is_after(versions[a].created_at));
    } else if b < a {
        assert(versions[a].created_at.is_after(versions[b].created_at));
        assert(!versions[a].created_at.is_after(versions[b].created_at));
    }
}

/// Where the versions are listed newest first, the current version, which
/// is the first of the list, is the newest.
pub proof fn lemma_first_of_newest_first_is_newest(versions: Seq<MergeRequestVersionModel>)
    requires
        versions.len() > 0,
        newest_first(versions),
    ensures
        is_newest(versions, 0),
{
    assert forall|i: int| 0 <= i < versions.len() implies !(#[trigger] versions[i]).created_at.is_after(
        versions[0].created_at,
    ) by {
        if i > 0 {
            assert(!versions[i].created_at.is_after(versions[0].created_at));
        }
    }
}

/// A comment together with all that a server needs to place it on a line of
/// a diff.
#[derive(Debug, PartialEq, Eq)]
pub struct PositionedComment {
    pub position_type: String,
    pub base_sha: String,
    pub head_sha: String,
    pub start_sha: String,
    pub new_path: String,
    pub old_path: String,
    pub new_line: u32,
    pub body: String,
}

/// What a [`PositionedComment`] says.
pub ghost struct PositionedCommentModel {
    pub position_type: Seq<char>,
    pub base_sha: Seq<char>,
    pub head_sha: Seq<char>,
    pub start_sha: Seq<char>,
    pub new_path: Seq<char>,
    pub old_path: Seq<char>,
    pub new_line: u32,
    pub body: Seq<char>,
}

impl View for PositionedComment {
    type V = PositionedCommentModel;

    open spec fn view(&self) -> PositionedCommentModel {
        PositionedCommentModel {
            position_type: self.position_type@,
            base_sha: self.base_sha@,
            head_sha: self.head_sha@,
            start_sha: self.start_sha@,
            new_path: self.new_path@,
            old_path: self.old_path@,
            new_line: self.new_line,
            body: self.body@,
        }
    }
}

/// What a list of positioned comments says.
pub open spec fn positioned_view(comments: Seq<PositionedComment>) -> Seq<PositionedCommentModel> {
    Seq::new(comments.len(), |i: int| comments[i]@)
}

/// A comment placed in a version of a diff: on its line of the new side of
/// its file, which is taken to bear the same name on the old side.
pub open spec fn placed(
    comment: DiffLineCommentModel,
    version: MergeRequestVersionModel,
) -> PositionedCommentModel {
    PositionedCommentModel {
        position_type: "text"@,
        base_sha: version.base_commit_sha,
        head_sha: version.head_commit_sha,
        start_sha: version.start_commit_sha,
        new_path: comment.path,
        old_path: comment.path,
        new_line: comment.line,
        body: comment.body,
    }
}

/// Whether a comment is on one of the paths given.
pub open spec fn on_path_among(paths: Seq<Seq<char>>) -> spec_fn(DiffLineCommentModel) -> bool {
    |comment: DiffLineCommentModel| paths.contains(comment.path)
}

/// [`placed`] in a given version, as a function value.
pub open spec fn placer(version: MergeRequestVersionModel) -> spec_fn(
    DiffLineCommentModel,
) -> PositionedCommentModel {
    |comment: DiffLineCommentModel| placed(comment, version)
}

/// The comments on the paths given, in their order, each placed in the
/// version given.
pub open spec fn placed_on(
    comments: Seq<DiffLineCommentModel>,
    paths: Seq<Seq<char>>,
    version: MergeRequestVersionModel,
) -> Seq<PositionedCommentModel> {
    comments.filter(on_path_among(paths)).map_values(placer(version))
}

/// Places a comment in a version of a diff.
pub fn place(comment: &DiffLineComment, version: &MergeRequestVersion) -> (r: PositionedComment)
    ensures
        r@ == placed(comment@, version@),
{
    PositionedComment {
        position_type: "text".to_owned(),
        base_sha: version.base_commit_sha.clone(),
        head_sha: version.head_commit_sha.clone(),
        start_sha: version.start_commit_sha.clone(),
        new_path: comment.path.clone(),
        old_path: comment.path.clone(),
        new_line: comment.line,
        body: comment.body.clone(),
    }
}

/// Keeps the comments that are on one of the paths given, and places each in
/// the version given.
pub fn place_on_paths(
    comments: &Vec<DiffLineComment>,
    paths: &Vec<String>,
    version: &MergeRequestVersion,
) -> (r: Vec<PositionedComment>)
    ensures
        positioned_view(r@) == placed_on(comments_view(comments@), paths_view(paths@), version@),
{
    let ghost all = comments_view(comments@);
    let ghost keep = on_path_among(paths_view(paths@));
    let mut out: Vec<PositionedComment> = Vec::new();
    let mut i: usize = 0;
    proof {
        reveal(Seq::filter);
        assert(all.take(0).filter(keep) =~= Seq::empty());
        assert(positioned_view(out@) =~= all.take(0).filter(keep).map_values(placer(version@)));
    }
    while i < comments.len()
        invariant
            i <= comments.len(),
            all == comments_view(comments@),
            keep == on_path_among(paths_view(paths@)),
            positioned_view(out@) == all.take(i as int).filter(keep).map_values(placer(version@)),
        decreases comments.len() - i,
    {
        proof {
            lemma_filter_step(all, keep, i as int);
        }
        if is_among(&comments[i].path, paths) {
            let ghost before = positioned_view(out@);
            let positioned = place(&comments[i], version);
            out.push(positioned);
            assert(positioned_view(out@) =~= before.push(placed(all[i as int], version@)));
            assert(all.take(i + 1).filter(keep).map_values(placer(version@)) =~= all.take(
                i as int,
            ).filter(keep).map_values(placer(version@)).push(placed(all[i as int], version@)));
        }
        i += 1;
    }
    assert(all.take(i as int) =~= all);
    out
}

/// Why the comments of a report cannot be placed in a merge request.
#[derive(Clone, Copy, Debug, PartialEq, Eq, Structural)]
pub enum ResolutionError {
    /// The merge request lists no version of its diff, so there is nothing
    /// that a comment could be placed in.
    NoDiffVersion,
}

impl ResolutionError {
    /// A sentence that states the fault.
    pub fn to_text(&self) -> (r: String)
        ensures
            r@ == "the merge request has no diff version to comment on"@,
    {
        "the merge request has no diff version to comment on".to_owned()
    }
}

/// What resolving yields: nothing can be placed where the merge request has
/// no version; else the comments on files that the merge request changes and
/// does not delete are placed in its current version, the first of the
/// list.
pub open spec fn resolution_of(
    comments: Seq<DiffLineCommentModel>,
    changes: Seq<MRChangesModel>,
    versions: Seq<MergeRequestVersionModel>,
) -> Result<Seq<PositionedCommentModel>, ResolutionError> {
    if versions.len() == 0 {
        Err(ResolutionError::NoDiffVersion)
    } else {
        Ok(placed_on(comments, live_paths(changes), versions[0]))
    }
}

/// Turns the comments of a report into the comments to post on a merge
/// request, given the files that the merge request changes and the versions
/// of its diff, which are expected newest first.
pub fn resolve(
    comments: &Vec<DiffLineComment>,
    changes: &Vec<MRChanges>,
    versions: &Vec<MergeRequestVersion>,
) -> (r: Result<Vec<PositionedComment>, ResolutionError>)
    ensures
        match r {
            Ok(positioned) => resolution_of(
                comments_view(comments@),
                changes_view(changes@),
                versions_view(versions@),
            ) == Ok::<Seq<PositionedCommentModel>, ResolutionError>(positioned_view(positioned@)),
            Err(fault) => resolution_of(
                comments_view(comments@),
                changes_view(changes@),
                versions_view(versions@),
            ) == Err::<Seq<PositionedCommentModel>, ResolutionError>(fault),
        },
{
    match current_version(versions) {
        None => Err(ResolutionError::NoDiffVersion),
        Some(version) => {
            let paths = changed_paths(changes);
            Ok(place_on_paths(comments, &paths, version))
        },
    }
}

/// Whether no path of a list of changes is both kept and deleted.
pub open spec fn consistent(changes: Seq<MRChangesModel>) -> bool {
    forall|i: int, j: int|
        0 <= i < changes.len() && 0 <= j < changes.len() && (#[trigger] changes[i]).new_path == (
        #[trigger] changes[j]).new_path ==> changes[i].deleted_file == changes[j].deleted_file
}

/// Every path that counts as changed is the path of a change that does not
/// delete its file.
pub proof fn lemma_live_paths_are_not_deleted(changes: Seq<MRChangesModel>, path: Seq<char>)
    requires
        live_paths(changes).contains(path),
    ensures
        exists|i: int|
            0 <= i < changes.len() && !(#[trigger] changes[i]).deleted_file && changes[i].new_path
                == path,
{
    let live = changes.filter(is_live());
    let k = choose|k: int| 0 <= k < live_paths(changes).len() && live_paths(changes)[k] == path;
    assert(live[k].new_path == path);
    changes.lemma_filter_pred(is_live(), k);
    assert(live.contains(live[k]));
    changes.lemma_filter_contains_rev(is_live(), live[k]);
    let i = choose|i: int| 0 <= i < changes.len() && changes[i] == live[k];
    assert(!changes[i].deleted_file && changes[i].new_path == path);
}

/// Resolving never yields a comment on a path that is not among those the
/// merge request changes, and every comment it yields is on the path of a
/// change that does not delete its file. It passes on the line and the body
/// of a comment as they are, and names the file alike on both sides.
pub proof fn lemma_resolved_comments_are_on_changed_files(
    comments: Seq<DiffLineCommentModel>,
    changes: Seq<MRChangesModel>,
    versions: Seq<MergeRequestVersionModel>,
)
    ensures
        resolution_of(comments, changes, versions) matches Ok(positioned) ==> forall|n: int|
            0 <= n < positioned.len() ==> {
                &&& live_paths(changes).contains((#[trigger] positioned[n]).new_path)
                &&& positioned[n].old_path == positioned[n].new_path
                &&& exists|i: int|
                    0 <= i < changes.len() && !(#[trigger] changes[i]).deleted_file
                        && changes[i].new_path == positioned[n].new_path
                &&& exists|c: int|
                    0 <= c < comments.len() && (#[trigger] comments[c]).path
                        == positioned[n].new_path && comments[c].line == positioned[n].new_line
                        && comments[c].body == positioned[n].body
            },
{
    if let Ok(positioned) = resolution_of(comments, changes, versions) {
        let paths = live_paths(changes);
        let keep = on_path_among(paths);
        let kept = comments.filter(keep);
        let version = versions[0];
        assert forall|n: int| 0 <= n < positioned.len() implies {
            &&& live_paths(changes).contains((#[trigger] positioned[n]).new_path)
            &&& positioned[n].old_path == positioned[n].new_path
            &&& exists|i: int|
                0 <= i < changes.len() && !(#[trigger] changes[i]).deleted_file
                    && changes[i].new_path == positioned[n].new_path
            &&& exists|c: int|
                0 <= c < comments.len() && (#[trigger] comments[c]).path == positioned[n].new_path
                    && comments[c].line == positioned[n].new_line && comments[c].body
                    == positioned[n].body
        } by {
            assert(positioned[n] == placed(kept[n], version));
            comments.lemma_filter_pred(keep, n);
            assert(paths.contains(kept[n].path));
            lemma_live_paths_are_not_deleted(changes, kept[n].path);
            assert(kept.contains(kept[n]));
            comments.lemma_filter_contains_rev(keep, kept[n]);
            let c = choose|c: int| 0 <= c < comments.len() && comments[c] == kept[n];
            assert(comments[c].path == positioned[n].new_path);
        }
    }
}

/// Every comment that resolving yields carries the base, the head and the
/// start of the first version of the list, and is of the kind `text`.
pub proof fn lemma_resolved_comments_carry_the_first_version(
    comments: Seq<DiffLineCommentModel>,
    changes: Seq<MRChangesModel>,
    versions: Seq<MergeRequestVersionModel>,
)
    ensures
        resolution_of(comments, changes, versions) matches Ok(positioned) ==> versions.len() > 0
            && forall|n: int|
            0 <= n < positioned.len() ==> {
                &&& (#[trigger] positioned[n]).base_sha == versions[0].base_commit_sha
                &&& positioned[n].head_sha == versions[0].head_commit_sha
                &&& positioned[n].start_sha == versions[0].start_commit_sha
                &&& positioned[n].position_type == "text"@
            },
{
}

/// Where no path is both kept and deleted by the merge request, resolving
/// never yields a comment on a path that a change flags as deleted.
pub proof fn lemma_resolved_comments_avoid_deleted_files(
    comments: Seq<DiffLineCommentModel>,
    changes: Seq<MRChangesModel>,
    versions: Seq<MergeRequestVersionModel>,
)
    requires
        consistent(changes),
    ensures
        resolution_of(comments, changes, versions) matches Ok(positioned) ==> forall|
            n: int,
            i: int,
        |
            0 <= n < positioned.len() && 0 <= i < changes.len() && (#[trigger] changes[i]).new_path
                == (#[trigger] positioned[n]).new_path ==> !changes[i].deleted_file,
{
    lemma_resolved_comments_are_on_changed_files(comments, changes, versions);
    if let Ok(positioned) = resolution_of(comments, changes, versions) {
        assert forall|n: int, i: int|
            0 <= n < positioned.len() && 0 <= i < changes.len() && (#[trigger] changes[i]).new_path
                == (#[trigger] positioned[n]).new_path implies !changes[i].deleted_file by {
            let j = choose|j: int|
                0 <= j < changes.len() && !(#[trigger] changes[j]).deleted_file
                    && changes[j].new_path == positioned[n].new_path;
            assert(changes[i].deleted_file == changes[j].deleted_file);
        }
    }
}

/// Resolving is a function of what it is given: the same comments, changes
/// and versions resolve to the same outcome.
pub proof fn lemma_resolution_is_repeatable(
    comments: Seq<DiffLineCommentModel>,
    changes: Seq<MRChangesModel>,
    versions: Seq<MergeRequestVersionModel>,
    first: Result<Seq<PositionedCommentModel>, ResolutionError>,
    second: Result<Seq<PositionedCommentModel>, ResolutionError>,
)
    requires
        first == resolution_of(comments, changes, versions),
        second == resolution_of(comments, changes, versions),
    ensures
        first == second,
{
}

/// Keeping the comments on a set of paths a second time changes nothing:
/// what was kept the first time is all kept.
pub proof fn lemma_keeping_twice_is_keeping_once(
    comments: Seq<DiffLineCommentModel>,
    paths: Seq<Seq<char>>,
)
    ensures
        comments.filter(on_path_among(paths)).filter(on_path_among(paths)) == comments.filter(
            on_path_among(paths),
        ),
{
    let keep = on_path_among(paths);
    let kept = comments.filter(keep);
    assert forall|i: int| 0 <= i < kept.len() implies keep(#[trigger] kept[i]) by {
        comments.lemma_filter_pred(keep, i);
    }
    lemma_filter_keeps_all(kept, keep);
}

} // verus!
