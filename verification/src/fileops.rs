//! File operations as plans.
//!
//! Nothing here changes a file. Each function works out which operations a
//! command amounts to, in the order in which they are to be carried out; the
//! shell carries them out one after the other and stops at the first that
//! fails.
//!
//! Pasting a directory is shallow on purpose: the directory is created at
//! the destination, each file among its direct children is copied, and each
//! directory among them is created empty. What lies below a child is
//! neither looked at nor copied.

use crate::listing::{Entry, EntryView};
use crate::path::{
    ends_with_separator, file_name, file_name_of, is_plain_name, is_tidy, join, joined,
    lemma_file_name_of_joined, lemma_parent_of_joined, parent_of,
};
use crate::text::to_chars;
use crate::views::{lemma_deep_view_empty, lemma_deep_view_push};
use vstd::prelude::*;

verus! {

/// One operation on the file system.
#[derive(Debug, PartialEq, Eq)]
pub enum FsOp {
    /// Create an empty file, or empty an existing one.
    CreateFile { path: String },
    /// Create a directory and every missing directory above it.
    CreateDirAll { path: String },
    /// Copy the contents of one file to another path.
    CopyFile { from: String, to: String },
    /// Rename an entry, which may move it to another directory.
    Rename { from: String, to: String },
    /// Remove a file for good.
    RemoveFile { path: String },
    /// Remove a directory and all that it holds for good.
    RemoveDirAll { path: String },
    /// Move an entry to the trash, from where it can be restored.
    Trash { path: String },
}

/// An operation as contracts see it.
pub enum FsOpView {
    CreateFile { path: Seq<char> },
    CreateDirAll { path: Seq<char> },
    CopyFile { from: Seq<char>, to: Seq<char> },
    Rename { from: Seq<char>, to: Seq<char> },
    RemoveFile { path: Seq<char> },
    RemoveDirAll { path: Seq<char> },
    Trash { path: Seq<char> },
}

impl DeepView for FsOp {
    type V = FsOpView;

    open spec fn deep_view(&self) -> FsOpView {
        match self {
            FsOp::CreateFile { path } => FsOpView::CreateFile { path: path@ },
            FsOp::CreateDirAll { path } => FsOpView::CreateDirAll { path: path@ },
            FsOp::CopyFile { from, to } => FsOpView::CopyFile { from: from@, to: to@ },
            FsOp::Rename { from, to } => FsOpView::Rename { from: from@, to: to@ },
            FsOp::RemoveFile { path } => FsOpView::RemoveFile { path: path@ },
            FsOp::RemoveDirAll { path } => FsOpView::RemoveDirAll { path: path@ },
            FsOp::Trash { path } => FsOpView::Trash { path: path@ },
        }
    }
}

impl View for FsOp {
    type V = FsOpView;

    open spec fn view(&self) -> FsOpView {
        self.deep_view()
    }
}

impl Clone for FsOp {
    fn clone(&self) -> (r: Self)
        ensures
            r@ == self@,
    {
        match self {
            FsOp::CreateFile { path } => FsOp::CreateFile { path: path.clone() },
            FsOp::CreateDirAll { path } => FsOp::CreateDirAll { path: path.clone() },
            FsOp::CopyFile { from, to } => FsOp::CopyFile { from: from.clone(), to: to.clone() },
            FsOp::Rename { from, to } => FsOp::Rename { from: from.clone(), to: to.clone() },
            FsOp::RemoveFile { path } => FsOp::RemoveFile { path: path.clone() },
            FsOp::RemoveDirAll { path } => FsOp::RemoveDirAll { path: path.clone() },
            FsOp::Trash { path } => FsOp::Trash { path: path.clone() },
        }
    }
}

/// The source of the next paste.
#[derive(Debug, PartialEq, Eq)]
pub struct Clipboard {
    /// The path of the entry that was copied or cut.
    pub path: String,
    /// Whether the entry is to be removed once it has been pasted.
    pub is_cut: bool,
}

/// A clipboard as contracts see it.
pub struct ClipboardView {
    pub path: Seq<char>,
    pub is_cut: bool,
}

impl DeepView for Clipboard {
    type V = ClipboardView;

    open spec fn deep_view(&self) -> ClipboardView {
        ClipboardView { path: self.path@, is_cut: self.is_cut }
    }
}

impl View for Clipboard {
    type V = ClipboardView;

    open spec fn view(&self) -> ClipboardView {
        self.deep_view()
    }
}

impl Clone for Clipboard {
    fn clone(&self) -> (r: Self)
        ensures
            r@ == self@,
    {
        Clipboard { path: self.path.clone(), is_cut: self.is_cut }
    }
}

/// Where a paste into `dir` puts the entry at `source`: under the entry's
/// own name, directly in `dir`. A source without a name cannot be pasted.
pub open spec fn paste_target_of(dir: Seq<char>, source: Seq<char>) -> Option<Seq<char>> {
    match file_name_of(source) {
        Some(name) => Some(joined(dir, name)),
        None => None,
    }
}

/// What a paste does for one direct child of the directory `from`: a file
/// is copied to the same name under `to`, a directory is created there,
/// empty.
pub open spec fn child_op(from: Seq<char>, to: Seq<char>, child: EntryView) -> FsOpView {
    if child.is_dir {
        FsOpView::CreateDirAll { path: joined(to, child.name) }
    } else {
        FsOpView::CopyFile { from: joined(from, child.name), to: joined(to, child.name) }
    }
}

/// One operation for each direct child of `from`, in the order of
/// `children`.
pub open spec fn child_ops(from: Seq<char>, to: Seq<char>, children: Seq<EntryView>) -> Seq<
    FsOpView,
> {
    Seq::new(children.len(), |i: int| child_op(from, to, children[i]))
}

/// The operations of a paste. A directory is created at the destination
/// and its direct children are brought into it, files with their contents
/// and directories empty; a file is copied. After a cut the source is
/// removed as the last operation.
pub open spec fn paste_plan_of(
    from: Seq<char>,
    to: Seq<char>,
    is_dir: bool,
    children: Seq<EntryView>,
    is_cut: bool,
) -> Seq<FsOpView> {
    let copy = if is_dir {
        seq![FsOpView::CreateDirAll { path: to }] + child_ops(from, to, children)
    } else {
        seq![FsOpView::CopyFile { from: from, to: to }]
    };
    if !is_cut {
        copy
    } else if is_dir {
        copy.push(FsOpView::RemoveDirAll { path: from })
    } else {
        copy.push(FsOpView::RemoveFile { path: from })
    }
}

/// The operation that creates what was typed: a directory, with those above
/// it, where the input ends with a separator, and an empty file otherwise.
pub open spec fn create_plan_of(dir: Seq<char>, input: Seq<char>) -> Seq<FsOpView> {
    if ends_with_separator(input) {
        seq![FsOpView::CreateDirAll { path: joined(dir, input) }]
    } else {
        seq![FsOpView::CreateFile { path: joined(dir, input) }]
    }
}

/// The operation that creates the directory that was typed, with those
/// above it.
pub open spec fn create_directory_plan_of(dir: Seq<char>, input: Seq<char>) -> Seq<FsOpView> {
    seq![FsOpView::CreateDirAll { path: joined(dir, input) }]
}

/// The operation that gives the entry `name` in `dir` the path that was
/// typed, resolved against `dir`. Nothing is to be done where that is the
/// path it has.
pub open spec fn rename_plan_of(dir: Seq<char>, name: Seq<char>, input: Seq<char>) -> Seq<
    FsOpView,
> {
    if joined(dir, input) == joined(dir, name) {
        Seq::empty()
    } else {
        seq![FsOpView::Rename { from: joined(dir, name), to: joined(dir, input) }]
    }
}

/// The one operation of a delete: the entry goes to the trash.
pub open spec fn delete_plan_of(dir: Seq<char>, name: Seq<char>) -> Seq<FsOpView> {
    seq![FsOpView::Trash { path: joined(dir, name) }]
}

/// The number of operations in `plan` that hand an entry to the trash.
pub open spec fn trash_count(plan: Seq<FsOpView>) -> nat
    decreases plan.len(),
{
    if plan.len() == 0 {
        0
    } else {
        let rest = trash_count(plan.drop_last());
        if plan.last() is Trash {
            rest + 1
        } else {
            rest
        }
    }
}

/// Whether `plan` hands any entry to the trash.
pub open spec fn uses_trash(plan: Seq<FsOpView>) -> bool {
    exists|i: int| 0 <= i < plan.len() && #[trigger] plan[i] is Trash
}

/// Whether `plan` removes any entry for good.
pub open spec fn removes_for_good(plan: Seq<FsOpView>) -> bool {
    exists|i: int|
        0 <= i < plan.len() && (#[trigger] plan[i] is RemoveFile || plan[i] is RemoveDirAll)
}

/// Only a delete uses the trash: no paste, create or rename does.
pub proof fn lemma_only_delete_uses_trash(
    dir: Seq<char>,
    name: Seq<char>,
    input: Seq<char>,
    to: Seq<char>,
    is_dir: bool,
    children: Seq<EntryView>,
    is_cut: bool,
)
    ensures
        !uses_trash(paste_plan_of(dir, to, is_dir, children, is_cut)),
        !uses_trash(create_plan_of(dir, input)),
        !uses_trash(create_directory_plan_of(dir, input)),
        !uses_trash(rename_plan_of(dir, name, input)),
        uses_trash(delete_plan_of(dir, name)),
        !removes_for_good(delete_plan_of(dir, name)),
{
    assert(delete_plan_of(dir, name)[0] is Trash);
}

/// Only the paste of a cut removes anything for good, and only its source.
pub proof fn lemma_only_cut_removes(
    from: Seq<char>,
    to: Seq<char>,
    is_dir: bool,
    children: Seq<EntryView>,
    is_cut: bool,
    i: int,
)
    requires
        0 <= i < paste_plan_of(from, to, is_dir, children, is_cut).len(),
    ensures
        ({
            let op = paste_plan_of(from, to, is_dir, children, is_cut)[i];
            &&& op is RemoveFile ==> is_cut && !is_dir && op == (FsOpView::RemoveFile {
                path: from,
            })
            &&& op is RemoveDirAll ==> is_cut && is_dir && op == (FsOpView::RemoveDirAll {
                path: from,
            })
        }),
{
}

/// A delete asks the trash exactly once, and removes nothing for good.
pub proof fn lemma_delete_trashes_once(dir: Seq<char>, name: Seq<char>)
    ensures
        delete_plan_of(dir, name).len() == 1,
        trash_count(delete_plan_of(dir, name)) == 1,
        delete_plan_of(dir, name)[0] == (FsOpView::Trash { path: joined(dir, name) }),
{
    let plan = delete_plan_of(dir, name);
    assert(plan.drop_last() =~= Seq::<FsOpView>::empty());
    assert(trash_count(plan.drop_last()) == 0);
}

/// Pasting a directory is shallow. The plan creates the destination, then
/// brings each direct child to its own name directly under the destination,
/// a file by a copy and a directory by creating it empty, and does nothing
/// else but, after a cut, remove the source. No directory is copied as a
/// file, and no operation names anything below a child.
pub proof fn lemma_paste_of_directory_is_shallow(
    from: Seq<char>,
    to: Seq<char>,
    children: Seq<EntryView>,
    is_cut: bool,
)
    requires
        is_tidy(to),
        forall|i: int| 0 <= i < children.len() ==> is_plain_name((#[trigger] children[i]).name),
    ensures
        ({
            let plan = paste_plan_of(from, to, true, children, is_cut);
            &&& plan.len() == children.len() + 1 + if is_cut {
                1int
            } else {
                0int
            }
            &&& plan[0] == (FsOpView::CreateDirAll { path: to })
            &&& forall|i: int|
                0 <= i < children.len() ==> {
                    let name = children[i].name;
                    &&& #[trigger] plan[i + 1] == if children[i].is_dir {
                        FsOpView::CreateDirAll { path: joined(to, name) }
                    } else {
                        FsOpView::CopyFile { from: joined(from, name), to: joined(to, name) }
                    }
                    &&& file_name_of(joined(from, name)) == Some(name)
                    &&& file_name_of(joined(to, name)) == Some(name)
                    &&& parent_of(joined(to, name)) == Some(to)
                }
            &&& is_cut ==> plan.last() == (FsOpView::RemoveDirAll { path: from })
        }),
{
    let plan = paste_plan_of(from, to, true, children, is_cut);
    assert forall|i: int| 0 <= i < children.len() implies {
        let name = children[i].name;
        &&& #[trigger] plan[i + 1] == if children[i].is_dir {
            FsOpView::CreateDirAll { path: joined(to, name) }
        } else {
            FsOpView::CopyFile { from: joined(from, name), to: joined(to, name) }
        }
        &&& file_name_of(joined(from, name)) == Some(name)
        &&& file_name_of(joined(to, name)) == Some(name)
        &&& parent_of(joined(to, name)) == Some(to)
    } by {
        assert(is_plain_name(children[i].name));
        lemma_file_name_of_joined(from, children[i].name);
        lemma_file_name_of_joined(to, children[i].name);
        lemma_parent_of_joined(to, children[i].name);
    }
}

/// No paste copies a directory as a file: every file copy of the plan for
/// a directory copies a child that is a file.
pub proof fn lemma_paste_copies_files_only(
    from: Seq<char>,
    to: Seq<char>,
    children: Seq<EntryView>,
    is_cut: bool,
    k: int,
)
    requires
        0 <= k < paste_plan_of(from, to, true, children, is_cut).len(),
        paste_plan_of(from, to, true, children, is_cut)[k] is CopyFile,
    ensures
        1 <= k <= children.len(),
        !children[k - 1].is_dir,
        paste_plan_of(from, to, true, children, is_cut)[k] == (FsOpView::CopyFile {
            from: joined(from, children[k - 1].name),
            to: joined(to, children[k - 1].name),
        }),
{
}

/// Pasting a file that was cut copies it to the destination and then
/// removes it where it was; pasting a file that was copied only copies it.
pub proof fn lemma_paste_of_file(from: Seq<char>, to: Seq<char>, children: Seq<EntryView>)
    ensures
        paste_plan_of(from, to, false, children, true) == seq![
            FsOpView::CopyFile { from: from, to: to },
            FsOpView::RemoveFile { path: from },
        ],
        paste_plan_of(from, to, false, children, false) == seq![
            FsOpView::CopyFile { from: from, to: to },
        ],
{
    assert(paste_plan_of(from, to, false, children, true) =~= seq![
        FsOpView::CopyFile { from: from, to: to },
        FsOpView::RemoveFile { path: from },
    ]);
}

/// What is pasted into a directory keeps its name there.
pub proof fn lemma_paste_keeps_name(dir: Seq<char>, source_dir: Seq<char>, name: Seq<char>)
    requires
        is_plain_name(name),
    ensures
        paste_target_of(dir, joined(source_dir, name)) == Some(joined(dir, name)),
        file_name_of(joined(dir, name)) == Some(name),
{
    lemma_file_name_of_joined(source_dir, name);
    lemma_file_name_of_joined(dir, name);
}

/// Where a paste into `dir` puts the entry at `source`.
pub fn paste_target(dir: &str, source: &str) -> (r: Option<String>)
    ensures
        r.deep_view() == paste_target_of(dir@, source@),
{
    match file_name(source) {
        Some(name) => Some(join(dir, name.as_str())),
        None => None,
    }
}

/// The operations of a paste of `from` to `to`. `is_dir` says whether the
/// source is a directory, and `children` holds its direct children, of each
/// the name and whether it is a directory.
pub fn paste_plan(
    from: &str,
    to: &str,
    is_dir: bool,
    children: &Vec<Entry>,
    is_cut: bool,
) -> (plan: Vec<FsOp>)
    ensures
        plan.deep_view() == paste_plan_of(from@, to@, is_dir, children.deep_view(), is_cut),
{
    let mut plan: Vec<FsOp> = Vec::new();
    proof {
        lemma_deep_view_empty(plan);
    }
    if is_dir {
        let ghost v0 = plan;
        let first = FsOp::CreateDirAll { path: String::from_str(to) };
        plan.push(first);
        proof {
            lemma_deep_view_push(v0, plan, first);
            assert(plan.deep_view() =~= seq![FsOpView::CreateDirAll { path: to@ }]
                + child_ops(from@, to@, children.deep_view()).take(0));
        }
        let mut i: usize = 0;
        while i < children.len()
            invariant
                i <= children.len(),
                plan.deep_view() == seq![FsOpView::CreateDirAll { path: to@ }] + child_ops(
                    from@,
                    to@,
                    children.deep_view(),
                ).take(i as int),
            decreases children.len() - i,
        {
            let ghost v1 = plan;
            let name = children[i].name.as_str();
            let op = if children[i].is_dir {
                FsOp::CreateDirAll { path: join(to, name) }
            } else {
                FsOp::CopyFile { from: join(from, name), to: join(to, name) }
            };
            plan.push(op);
            proof {
                lemma_deep_view_push(v1, plan, op);
                let all = child_ops(from@, to@, children.deep_view());
                assert(all.take(i + 1) =~= all.take(i as int).push(all[i as int]));
                assert(plan.deep_view() =~= seq![FsOpView::CreateDirAll { path: to@ }] + all.take(
                    i + 1,
                ));
            }
            i += 1;
        }
        proof {
            let all = child_ops(from@, to@, children.deep_view());
            assert(all.take(children.len() as int) =~= all);
        }
    } else {
        let ghost v0 = plan;
        let only = FsOp::CopyFile { from: String::from_str(from), to: String::from_str(to) };
        plan.push(only);
        proof {
            lemma_deep_view_push(v0, plan, only);
            assert(plan.deep_view() =~= seq![FsOpView::CopyFile { from: from@, to: to@ }]);
        }
    }
    if is_cut {
        let ghost v2 = plan;
        let last = if is_dir {
            FsOp::RemoveDirAll { path: String::from_str(from) }
        } else {
            FsOp::RemoveFile { path: String::from_str(from) }
        };
        plan.push(last);
        proof {
            lemma_deep_view_push(v2, plan, last);
        }
    }
    plan
}

/// A plan of one operation.
fn single(op: FsOp) -> (plan: Vec<FsOp>)
    ensures
        plan.deep_view() == seq![op@],
{
    let mut plan: Vec<FsOp> = Vec::new();
    let ghost v0 = plan;
    plan.push(op);
    proof {
        lemma_deep_view_empty(v0);
        lemma_deep_view_push(v0, plan, op);
        assert(plan.deep_view() =~= seq![op@]);
    }
    plan
}

/// The operation that creates what was typed in `dir`.
pub fn create_plan(dir: &str, input: &str) -> (plan: Vec<FsOp>)
    ensures
        plan.deep_view() == create_plan_of(dir@, input@),
{
    let chars = to_chars(input);
    let path = join(dir, input);
    if chars.len() > 0 && chars[chars.len() - 1] == '/' {
        single(FsOp::CreateDirAll { path })
    } else {
        single(FsOp::CreateFile { path })
    }
}

/// The operation that creates the directory that was typed in `dir`.
pub fn create_directory_plan(dir: &str, input: &str) -> (plan: Vec<FsOp>)
    ensures
        plan.deep_view() == create_directory_plan_of(dir@, input@),
{
    single(FsOp::CreateDirAll { path: join(dir, input) })
}

/// The operation that gives the entry `name` in `dir` the path that was
/// typed, or no operation where that is the path it has.
pub fn rename_plan(dir: &str, name: &str, input: &str) -> (plan: Vec<FsOp>)
    ensures
        plan.deep_view() == rename_plan_of(dir@, name@, input@),
{
    let from = join(dir, name);
    let to = join(dir, input);
    if from == to {
        let plan: Vec<FsOp> = Vec::new();
        proof {
            lemma_deep_view_empty(plan);
        }
        plan
    } else {
        single(FsOp::Rename { from, to })
    }
}

/// The one operation that moves the entry `name` in `dir` to the trash.
pub fn delete_plan(dir: &str, name: &str) -> (plan: Vec<FsOp>)
    ensures
        plan.deep_view() == delete_plan_of(dir@, name@),
{
    single(FsOp::Trash { path: join(dir, name) })
}

} // verus!
