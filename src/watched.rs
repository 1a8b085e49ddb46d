use vstd::prelude::*;

verus! {

/// One entry that a walk of the project tree reported.
#[derive(Debug)]
pub struct WalkEntry {
    /// False when the walk failed on this entry (permission denied, broken
    /// link, ...).
    pub readable: bool,
    /// True when the entry is a directory.
    pub is_dir: bool,
    /// The entry's path as text; `None` when it has no lossless text form.
    pub path: Option<String>,
}

/// The path that `e` contributes to the tracked files of a walk from `root`,
/// if any: a readable entry that is not a directory, whose path is text and
/// is not the root itself.
pub open spec fn tracked_path(root: Seq<char>, e: WalkEntry) -> Option<Seq<char>> {
    if e.readable && !e.is_dir {
        match e.path {
            Some(p) => if p@ != root {
                Some(p@)
            } else {
                None
            },
            None => None,
        }
    } else {
        None
    }
}

/// The tracked files of a walk from `root` that reported `es`, in walk order.
pub open spec fn tracked_paths(root: Seq<char>, es: Seq<WalkEntry>) -> Seq<Seq<char>> {
    es.filter_map(|e: WalkEntry| tracked_path(root, e))
}

/// The tracked files of a walk from `root` that reported `es`, as a set.
pub open spec fn tracked_set(root: Seq<char>, es: Seq<WalkEntry>) -> Set<Seq<char>> {
    tracked_paths(root, es).to_set()
}

/// `p` is the path of a readable entry of `es` that is not a directory.
pub open spec fn is_file_of(es: Seq<WalkEntry>, p: String) -> bool {
    exists|j: int|
        0 <= j < es.len() && es[j].readable && !es[j].is_dir && #[trigger] es[j].path == Some(p)
}

/// The text of each string of `v`.
pub open spec fn texts(v: Seq<String>) -> Seq<Seq<char>> {
    v.map_values(|s: String| s@)
}

/// Pick the files to track out of what a walk from `root` reported: skip
/// entries the walk could not read, directories, paths without a text form
/// and the root itself; keep the rest in walk order.
pub fn tracked_files(root: &str, entries: &Vec<WalkEntry>) -> (r: Vec<String>)
    ensures
        texts(r@) == tracked_paths(root@, entries@),
        forall|i: int| 0 <= i < r@.len() ==> (#[trigger] r@[i])@ != root@,
        forall|i: int| 0 <= i < r@.len() ==> is_file_of(entries@, #[trigger] r@[i]),
{
    let root_s = root.to_owned();
    let mut out: Vec<String> = Vec::new();
    let mut i: usize = 0;
    while i < entries.len()
        invariant
            0 <= i <= entries@.len(),
            root_s@ == root@,
            texts(out@) == tracked_paths(root@, entries@.take(i as int)),
            forall|k: int| 0 <= k < out@.len() ==> (#[trigger] out@[k])@ != root@,
            forall|k: int| 0 <= k < out@.len() ==> is_file_of(entries@, #[trigger] out@[k]),
        decreases entries@.len() - i,
    {
        let e = &entries[i];
        let ghost prev = out@;
        proof {
            assert(entries@.take(i + 1).drop_last() == entries@.take(i as int));
            assert(entries@.take(i + 1).last() == entries@[i as int]);
        }
        if e.readable && !e.is_dir {
            match &e.path {
                Some(p) => {
                    if !p.eq(&root_s) {
                        out.push(p.clone());
                        proof {
                            assert(texts(out@) == texts(prev) + seq![p@]);
                            assert forall|k: int| 0 <= k < out@.len() implies is_file_of(
                                entries@,
                                #[trigger] out@[k],
                            ) by {
                                if k == out@.len() - 1 {
                                    assert(entries@[i as int].path == Some(out@[k]));
                                } else {
                                    assert(out@[k] == prev[k]);
                                }
                            }
                        }
                    }
                },
                None => {},
            }
        }
        i = i + 1;
    }
    proof {
        assert(entries@.take(entries@.len() as int) == entries@);
    }
    out
}

/// An entry that contributes a path puts that path among the tracked files.
proof fn lemma_contributed_path_kept(root: Seq<char>, es: Seq<WalkEntry>, e: WalkEntry)
    requires
        es.contains(e),
        tracked_path(root, e) is Some,
    ensures
        tracked_paths(root, es).contains(tracked_path(root, e).unwrap()),
    decreases es.len(),
{
    let x = tracked_path(root, e).unwrap();
    let rest = es.drop_last();
    let k = choose|k: int| 0 <= k < es.len() && es[k] == e;
    if k == es.len() - 1 {
        let f = |a: WalkEntry| tracked_path(root, a);
        assert(es.filter_map(f) == rest.filter_map(f) + seq![x]);
        assert(tracked_paths(root, es).last() == x);
    } else {
        assert(rest[k] == e);
        lemma_contributed_path_kept(root, rest, e);
        let y = choose|y: int|
            0 <= y < tracked_paths(root, rest).len() && tracked_paths(root, rest)[y] == x;
        assert(tracked_paths(root, es)[y] == x);
    }
}

/// A path is a tracked file of a walk exactly when one of the walk's entries
/// contributes it.
pub proof fn lemma_tracked_set_members(root: Seq<char>, es: Seq<WalkEntry>, x: Seq<char>)
    ensures
        tracked_set(root, es).contains(x) <==> exists|e: WalkEntry|
            es.contains(e) && #[trigger] tracked_path(root, e) == Some(x),
{
    if tracked_set(root, es).contains(x) {
        es.lemma_filter_map_contains(|e: WalkEntry| tracked_path(root, e), x);
    }
    if exists|e: WalkEntry| es.contains(e) && #[trigger] tracked_path(root, e) == Some(x) {
        let e = choose|e: WalkEntry| es.contains(e) && #[trigger] tracked_path(root, e) == Some(x);
        lemma_contributed_path_kept(root, es, e);
    }
}

/// The set of tracked files depends only on which entries a walk reported,
/// not on their order: walking an unchanged tree twice tracks the same files.
pub proof fn lemma_walk_order_irrelevant(
    root: Seq<char>,
    es1: Seq<WalkEntry>,
    es2: Seq<WalkEntry>,
)
    requires
        es1.to_set() == es2.to_set(),
    ensures
        tracked_set(root, es1) == tracked_set(root, es2),
{
    assert forall|x: Seq<char>| tracked_set(root, es1).contains(x) == tracked_set(
        root,
        es2,
    ).contains(x) by {
        lemma_tracked_set_members(root, es1, x);
        lemma_tracked_set_members(root, es2, x);
        assert forall|e: WalkEntry| es1.contains(e) == es2.contains(e) by {
            broadcast use vstd::set::group_set_axioms;

            assert(es1.to_set().contains(e) == es1.contains(e));
            assert(es2.to_set().contains(e) == es2.contains(e));
            assert(es1.to_set().contains(e) == es2.to_set().contains(e));
        }
    }
    assert(tracked_set(root, es1) =~= tracked_set(root, es2));
}

/// A new readable file that no rule excludes, and whose path was not tracked
/// before, is tracked by the next walk: the tracked set grows by exactly that
/// path, and so changes.
pub proof fn lemma_new_file_tracked(
    root: Seq<char>,
    es1: Seq<WalkEntry>,
    es2: Seq<WalkEntry>,
    e: WalkEntry,
)
    requires
        es2.to_set() == es1.to_set().insert(e),
        tracked_path(root, e) is Some,
        !tracked_set(root, es1).contains(tracked_path(root, e).unwrap()),
    ensures
        tracked_set(root, es2) == tracked_set(root, es1).insert(tracked_path(root, e).unwrap()),
        tracked_set(root, es2) != tracked_set(root, es1),
{
    let p = tracked_path(root, e).unwrap();
    assert forall|x: Seq<char>| tracked_set(root, es2).contains(x) == tracked_set(
        root,
        es1,
    ).insert(p).contains(x) by {
        lemma_tracked_set_members(root, es1, x);
        lemma_tracked_set_members(root, es2, x);
        assert forall|a: WalkEntry| es2.contains(a) == (es1.contains(a) || a == e) by {
            broadcast use vstd::set::group_set_axioms;

            assert(es1.to_set().contains(a) == es1.contains(a));
            assert(es2.to_set().contains(a) == es2.contains(a));
            assert(es2.to_set().contains(a) == es1.to_set().insert(e).contains(a));
        }
        assert(es2.contains(e));
    }
    assert(tracked_set(root, es2) =~= tracked_set(root, es1).insert(p));
    assert(tracked_set(root, es2).contains(p));
}

} // verus!
