//! A model of the disk, to say what carrying out a scaffold plan does to it.
//! A tree maps the path of each file to what the file holds; directories are
//! the prefixes of those paths and are not kept apart. The laws proved here
//! hold of this model: they bind whoever carries a plan out to empty the
//! root, then write the files in order.

use vstd::prelude::*;
use crate::address::UrlView;
use crate::naming::joined;
use crate::scaffold::{
    plan_of, project_files, ProjectFileView, ScaffoldPlanView, BUILD_HOOK_PATH,
    BUILD_SCRIPT_PATH, CONFIG_PATH, ENTRY_POINT_PATH, MANIFEST_PATH, PLACEHOLDER_PATH,
    SCHEMA_PATH,
};

verus! {

/// Whether `path` lies below the directory `root`.
pub open spec fn below(root: Seq<char>, path: Seq<char>) -> bool {
    &&& root.is_prefix_of(path)
    &&& path.len() > root.len()
    &&& (root.len() == 0 || root.last() == '/' || path[root.len() as int] == '/')
}

/// The tree without anything below `root`.
pub open spec fn wiped(tree: Map<Seq<char>, Seq<char>>, root: Seq<char>) -> Map<
    Seq<char>,
    Seq<char>,
> {
    Map::new(|p: Seq<char>| tree.dom().contains(p) && !below(root, p), |p: Seq<char>| tree[p])
}

/// The tree after the files were written below `root`, one after the other.
pub open spec fn written(
    tree: Map<Seq<char>, Seq<char>>,
    root: Seq<char>,
    files: Seq<ProjectFileView>,
) -> Map<Seq<char>, Seq<char>>
    decreases files.len(),
{
    if files.len() == 0 {
        tree
    } else {
        written(tree, root, files.drop_last()).insert(
            joined(root, files.last().path),
            files.last().content,
        )
    }
}

/// The tree after a plan was carried out: the root emptied, then the files
/// written.
pub open spec fn scaffolded(tree: Map<Seq<char>, Seq<char>>, plan: ScaffoldPlanView) -> Map<
    Seq<char>,
    Seq<char>,
> {
    written(wiped(tree, plan.root), plan.root, plan.files)
}

/// What the tree holds below `root`.
pub open spec fn subtree(tree: Map<Seq<char>, Seq<char>>, root: Seq<char>) -> Map<
    Seq<char>,
    Seq<char>,
> {
    Map::new(|p: Seq<char>| tree.dom().contains(p) && below(root, p), |p: Seq<char>| tree[p])
}

/// Whether every file of the run has a path that is not empty.
pub open spec fn paths_named(files: Seq<ProjectFileView>) -> bool {
    forall|i: int| 0 <= i < files.len() ==> (#[trigger] files[i]).path.len() > 0
}

/// Whether no two files of the run share a path.
pub open spec fn paths_distinct(files: Seq<ProjectFileView>) -> bool {
    forall|i: int, j: int|
        0 <= i < j < files.len() ==> (#[trigger] files[i]).path != (#[trigger] files[j]).path
}

/// A relative path that is not empty, joined to a root, lies below the root.
pub proof fn lemma_joined_is_below(root: Seq<char>, child: Seq<char>)
    requires
        child.len() > 0,
    ensures
        below(root, joined(root, child)),
{
    let path = joined(root, child);
    assert(path.subrange(0, root.len() as int) =~= root);
}

/// Two relative paths that join a root to the same path are the same.
pub proof fn lemma_joined_is_injective(root: Seq<char>, a: Seq<char>, b: Seq<char>)
    requires
        joined(root, a) == joined(root, b),
    ensures
        a == b,
{
    let head = if root.len() == 0 || root.last() == '/' {
        root
    } else {
        root + seq!['/']
    };
    assert(joined(root, a) =~= head + a);
    assert(joined(root, b) =~= head + b);
    assert((head + a).subrange(head.len() as int, (head + a).len() as int) =~= a);
    assert((head + b).subrange(head.len() as int, (head + b).len() as int) =~= b);
}

/// Writing files below a root changes nothing outside it.
pub proof fn lemma_written_keeps_outside(
    tree: Map<Seq<char>, Seq<char>>,
    root: Seq<char>,
    files: Seq<ProjectFileView>,
    path: Seq<char>,
)
    requires
        paths_named(files),
        !below(root, path),
    ensures
        written(tree, root, files).dom().contains(path) == tree.dom().contains(path),
        written(tree, root, files)[path] == tree[path],
    decreases files.len(),
{
    if files.len() > 0 {
        let rest = files.drop_last();
        assert(paths_named(rest)) by {
            assert forall|i: int| 0 <= i < rest.len() implies (#[trigger] rest[i]).path.len()
                > 0 by {
                assert(rest[i] == files[i]);
            }
        }
        lemma_written_keeps_outside(tree, root, rest, path);
        lemma_joined_is_below(root, files.last().path);
    }
}

/// What lies below the root after writing depends only on what lay below it
/// before.
pub proof fn lemma_written_subtree(
    first: Map<Seq<char>, Seq<char>>,
    second: Map<Seq<char>, Seq<char>>,
    root: Seq<char>,
    files: Seq<ProjectFileView>,
)
    requires
        subtree(first, root) == subtree(second, root),
    ensures
        subtree(written(first, root, files), root) == subtree(written(second, root, files), root),
    decreases files.len(),
{
    if files.len() > 0 {
        let rest = files.drop_last();
        lemma_written_subtree(first, second, root, rest);
        let a = written(first, root, rest);
        let b = written(second, root, rest);
        let key = joined(root, files.last().path);
        let value = files.last().content;
        assert forall|p: Seq<char>| #[trigger]
            subtree(a.insert(key, value), root).dom().contains(p) == subtree(
                b.insert(key, value),
                root,
            ).dom().contains(p) by {
            assert(subtree(a, root).dom().contains(p) == subtree(b, root).dom().contains(p));
        }
        assert forall|p: Seq<char>| #[trigger]
            subtree(a.insert(key, value), root).dom().contains(p) implies subtree(
            a.insert(key, value),
            root,
        )[p] == subtree(b.insert(key, value), root)[p] by {
            if p != key {
                assert(subtree(a, root).dom().contains(p));
                assert(subtree(a, root)[p] == subtree(b, root)[p]);
            }
        }
        assert(subtree(a.insert(key, value), root) =~= subtree(b.insert(key, value), root));
    } else {
        assert(written(first, root, files) == first);
        assert(written(second, root, files) == second);
    }
}

/// Emptying the root after files were written below it leaves what emptying
/// it before would have left.
pub proof fn lemma_wiped_forgets_written(
    tree: Map<Seq<char>, Seq<char>>,
    root: Seq<char>,
    files: Seq<ProjectFileView>,
)
    requires
        paths_named(files),
    ensures
        wiped(written(tree, root, files), root) == wiped(tree, root),
{
    let after = wiped(written(tree, root, files), root);
    let before = wiped(tree, root);
    assert forall|p: Seq<char>| #[trigger] after.dom().contains(p) == before.dom().contains(
        p,
    ) by {
        if !below(root, p) {
            lemma_written_keeps_outside(tree, root, files, p);
        }
    }
    assert forall|p: Seq<char>| #[trigger] before.dom().contains(p) implies after[p]
        == before[p] by {
        lemma_written_keeps_outside(tree, root, files, p);
    }
    assert(wiped(written(tree, root, files), root) =~= wiped(tree, root));
}

/// After a plan was carried out, what lies below its root does not depend on
/// what the tree held before.
pub proof fn lemma_scaffold_replaces(
    first: Map<Seq<char>, Seq<char>>,
    second: Map<Seq<char>, Seq<char>>,
    plan: ScaffoldPlanView,
)
    ensures
        subtree(scaffolded(first, plan), plan.root) == subtree(
            scaffolded(second, plan),
            plan.root,
        ),
{
    assert(subtree(wiped(first, plan.root), plan.root) =~= subtree(
        wiped(second, plan.root),
        plan.root,
    ));
    lemma_written_subtree(
        wiped(first, plan.root),
        wiped(second, plan.root),
        plan.root,
        plan.files,
    );
}

/// Carrying a plan out twice in a row leaves the tree that carrying it out
/// once leaves.
pub proof fn lemma_scaffold_idempotent(tree: Map<Seq<char>, Seq<char>>, plan: ScaffoldPlanView)
    requires
        paths_named(plan.files),
    ensures
        scaffolded(scaffolded(tree, plan), plan) == scaffolded(tree, plan),
{
    let emptied = wiped(tree, plan.root);
    lemma_wiped_forgets_written(emptied, plan.root, plan.files);
    assert(wiped(emptied, plan.root) =~= emptied);
}

/// Carrying a plan out changes nothing outside its root.
pub proof fn lemma_scaffold_keeps_outside(
    tree: Map<Seq<char>, Seq<char>>,
    plan: ScaffoldPlanView,
    path: Seq<char>,
)
    requires
        paths_named(plan.files),
        !below(plan.root, path),
    ensures
        scaffolded(tree, plan).dom().contains(path) == tree.dom().contains(path),
        tree.dom().contains(path) ==> scaffolded(tree, plan)[path] == tree[path],
{
    lemma_written_keeps_outside(wiped(tree, plan.root), plan.root, plan.files, path);
}

/// After files with distinct paths were written, each is found where it was
/// put, holding what it was given.
pub proof fn lemma_written_holds_files(
    tree: Map<Seq<char>, Seq<char>>,
    root: Seq<char>,
    files: Seq<ProjectFileView>,
    i: int,
)
    requires
        paths_distinct(files),
        0 <= i < files.len(),
    ensures
        written(tree, root, files).dom().contains(joined(root, files[i].path)),
        written(tree, root, files)[joined(root, files[i].path)] == files[i].content,
    decreases files.len(),
{
    let rest = files.drop_last();
    if i < files.len() - 1 {
        assert(paths_distinct(rest)) by {
            assert forall|a: int, b: int| 0 <= a < b < rest.len() implies (#[trigger] rest[a]).path
                != (#[trigger] rest[b]).path by {
                assert(rest[a] == files[a]);
                assert(rest[b] == files[b]);
            }
        }
        lemma_written_holds_files(tree, root, rest, i);
        assert(rest[i] == files[i]);
        if joined(root, files[i].path) == joined(root, files.last().path) {
            lemma_joined_is_injective(root, files[i].path, files.last().path);
            assert(files[files.len() - 1] == files.last());
        }
    }
}

/// After the root was emptied and files were written, a path below the root
/// is in the tree only if one of the files was put there.
pub proof fn lemma_written_holds_nothing_else(
    tree: Map<Seq<char>, Seq<char>>,
    root: Seq<char>,
    files: Seq<ProjectFileView>,
    path: Seq<char>,
)
    requires
        below(root, path),
        written(wiped(tree, root), root, files).dom().contains(path),
    ensures
        exists|i: int| 0 <= i < files.len() && path == joined(root, (#[trigger] files[i]).path),
    decreases files.len(),
{
    if files.len() > 0 {
        let rest = files.drop_last();
        if path == joined(root, files.last().path) {
            assert(files[files.len() - 1] == files.last());
        } else {
            lemma_written_holds_nothing_else(tree, root, rest, path);
            let i = choose|i: int|
                0 <= i < rest.len() && path == joined(root, (#[trigger] rest[i]).path);
            assert(rest[i] == files[i]);
        }
    }
}

/// The files of a generated project have paths that are not empty, no two of
/// them the same.
pub proof fn lemma_project_paths(url: UrlView)
    ensures
        paths_named(project_files(url)),
        paths_distinct(project_files(url)),
        project_files(url).len() == 7,
{
    reveal_strlit("src-tauri/Cargo.toml");
    reveal_strlit("src-tauri/src/main.rs");
    reveal_strlit("src-tauri/build.rs");
    reveal_strlit("src-tauri/tauri.conf.json");
    reveal_strlit("dist/index.html");
    reveal_strlit("src-tauri/build-utils/main.js");
    reveal_strlit("src-tauri/schemas/desktop-schema.json");
    let files = project_files(url);
    assert(files[0].path.len() == 20);
    assert(files[1].path.len() == 21);
    assert(files[2].path.len() == 18);
    assert(files[3].path.len() == 25);
    assert(files[4].path.len() == 15);
    assert(files[5].path.len() == 29);
    assert(files[6].path.len() == 37);
}

/// Scaffolding the same URL twice in a row leaves the tree that scaffolding
/// it once leaves, and what lies below the project's root afterwards is the
/// same whatever the tree held before.
pub proof fn lemma_scaffolding_is_a_replacement(
    first: Map<Seq<char>, Seq<char>>,
    second: Map<Seq<char>, Seq<char>>,
    base: Seq<char>,
    url: UrlView,
)
    ensures
        scaffolded(scaffolded(first, plan_of(base, url)), plan_of(base, url)) == scaffolded(
            first,
            plan_of(base, url),
        ),
        subtree(scaffolded(first, plan_of(base, url)), plan_of(base, url).root) == subtree(
            scaffolded(second, plan_of(base, url)),
            plan_of(base, url).root,
        ),
{
    lemma_project_paths(url);
    lemma_scaffold_idempotent(first, plan_of(base, url));
    lemma_scaffold_replaces(first, second, plan_of(base, url));
}

/// After a project was scaffolded, each of its seven files is found below
/// the root, holding its text, and nothing else is found there.
pub proof fn lemma_scaffolded_project(
    tree: Map<Seq<char>, Seq<char>>,
    base: Seq<char>,
    url: UrlView,
)
    ensures
        forall|i: int|
            0 <= i < 7 ==> {
                let file = #[trigger] project_files(url)[i];
                let path = joined(plan_of(base, url).root, file.path);
                &&& below(plan_of(base, url).root, path)
                &&& scaffolded(tree, plan_of(base, url)).dom().contains(path)
                &&& scaffolded(tree, plan_of(base, url))[path] == file.content
            },
        forall|path: Seq<char>|
            below(plan_of(base, url).root, path) && #[trigger] scaffolded(
                tree,
                plan_of(base, url),
            ).dom().contains(path) ==> exists|i: int|
                0 <= i < 7 && path == joined(
                    plan_of(base, url).root,
                    (#[trigger] project_files(url)[i]).path,
                ),
{
    let plan = plan_of(base, url);
    lemma_project_paths(url);
    assert forall|i: int| 0 <= i < 7 implies {
        let file = #[trigger] project_files(url)[i];
        let path = joined(plan.root, file.path);
        &&& below(plan.root, path)
        &&& scaffolded(tree, plan).dom().contains(path)
        &&& scaffolded(tree, plan)[path] == file.content
    } by {
        lemma_joined_is_below(plan.root, project_files(url)[i].path);
        lemma_written_holds_files(wiped(tree, plan.root), plan.root, plan.files, i);
    }
    assert forall|path: Seq<char>|
        below(plan.root, path) && #[trigger] scaffolded(tree, plan).dom().contains(
            path,
        ) implies exists|i: int|
        0 <= i < 7 && path == joined(plan.root, (#[trigger] project_files(url)[i]).path) by {
        lemma_written_holds_nothing_else(tree, plan.root, plan.files, path);
    }
}

} // verus!
