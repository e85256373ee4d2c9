//! Image normalization: OCI layer selection, nested-directory
//! flattening, and the plan for stripping host security attributes.
//!
//! These passes work on directory listings handed in as plain values;
//! the caller performs the actual filesystem operations.

use vstd::prelude::*;
use vstd::string::*;
use crate::error::InstallError;
use crate::text::str_eq;

verus! {

/// One entry of a directory listing.
#[derive(Clone, Debug)]
pub struct FsEntry {
    pub name: String,
    pub is_dir: bool,
    pub size: u64,
}

/// Ghost mirror of an `FsEntry`.
pub struct FsEntryView {
    pub name: Seq<char>,
    pub is_dir: bool,
    pub size: u64,
}

impl View for FsEntry {
    type V = FsEntryView;

    open spec fn view(&self) -> FsEntryView {
        FsEntryView { name: self.name@, is_dir: self.is_dir, size: self.size }
    }
}

impl DeepView for FsEntry {
    type V = FsEntryView;

    open spec fn deep_view(&self) -> FsEntryView {
        self.view()
    }
}

/// The unpacked tree is in OCI image-layout form: its root holds an
/// `oci-layout` marker or a `blobs` entry.
pub open spec fn spec_is_oci(es: Seq<FsEntryView>) -> bool {
    exists|i: int|
        0 <= i < es.len() && (es[i].name == "oci-layout"@ || es[i].name == "blobs"@)
}

/// Detects the OCI image layout from the tree root's listing.
pub fn detect_oci_layout(entries: &Vec<FsEntry>) -> (r: bool)
    ensures
        r == spec_is_oci(entries.deep_view()),
{
    let n = entries.len();
    let mut i: usize = 0;
    while i < n
        invariant
            n == entries.len(),
            i <= n,
            forall|k: int|
                0 <= k < i ==> !(entries.deep_view()[k].name == "oci-layout"@
                    || entries.deep_view()[k].name == "blobs"@),
        decreases n - i,
    {
        let hit = str_eq(entries[i].name.as_str(), "oci-layout") || str_eq(
            entries[i].name.as_str(),
            "blobs",
        );
        if hit {
            assert(entries.deep_view()[i as int].name == entries@[i as int].name@);
            return true;
        }
        i += 1;
    }
    false
}

/// The largest byte size among the plain-file entries of a listing;
/// 0 when there is none.
pub open spec fn spec_max_file_size(es: Seq<FsEntryView>) -> int
    decreases es.len(),
{
    if es.len() == 0 {
        0
    } else {
        let m = spec_max_file_size(es.drop_last());
        if !es.last().is_dir && es.last().size > m {
            es.last().size as int
        } else {
            m
        }
    }
}

/// Selects the rootfs layer among the blobs: the first plain file of
/// strictly maximal (and non-zero) byte size. The base filesystem
/// layer dominates image size versus metadata and config blobs, so the
/// largest blob is taken; the manifest's layer order is not consulted.
pub fn select_largest_blob(entries: &Vec<FsEntry>) -> (r: Result<usize, InstallError>)
    ensures
        match r {
            Ok(i) => {
                &&& 0 <= i < entries.len()
                &&& !entries.deep_view()[i as int].is_dir
                &&& entries.deep_view()[i as int].size as int == spec_max_file_size(
                    entries.deep_view(),
                )
                &&& entries.deep_view()[i as int].size > 0
                &&& forall|k: int|
                    0 <= k < i && !entries.deep_view()[k].is_dir
                        ==> entries.deep_view()[k].size < entries.deep_view()[i as int].size
            },
            Err(e) => {
                &&& spec_max_file_size(entries.deep_view()) == 0
                &&& e matches InstallError::ImageFormat(m) && m@
                    == "No layers found in OCI image."@
            },
        },
{
    let n = entries.len();
    let mut best: usize = 0;
    let mut best_size: u64 = 0;
    let mut found = false;
    let mut i: usize = 0;
    while i < n
        invariant
            n == entries.len(),
            i <= n,
            best_size as int == spec_max_file_size(entries.deep_view().take(i as int)),
            found == (best_size > 0),
            found ==> {
                &&& best < i
                &&& !entries.deep_view()[best as int].is_dir
                &&& entries.deep_view()[best as int].size == best_size
                &&& forall|k: int|
                    0 <= k < best && !entries.deep_view()[k].is_dir
                        ==> entries.deep_view()[k].size < best_size
            },
        decreases n - i,
    {
        proof {
            assert(entries.deep_view().take(i + 1).drop_last() =~= entries.deep_view().take(
                i as int,
            ));
            assert(entries.deep_view().take(i + 1).last() == entries.deep_view()[i as int]);
            assert(entries.deep_view()[i as int] == entries@[i as int]@);
        }
        if !entries[i].is_dir && entries[i].size > best_size {
            proof {
                lemma_max_file_size_bounds(entries.deep_view().take(i as int));
                assert forall|k: int|
                    0 <= k < i && !entries.deep_view()[k].is_dir implies entries.deep_view()[k].size
                    as int <= spec_max_file_size(entries.deep_view().take(i as int)) by {
                    assert(entries.deep_view().take(i as int)[k] == entries.deep_view()[k]);
                }
            }
            best = i;
            best_size = entries[i].size;
            found = true;
        }
        i += 1;
    }
    proof {
        assert(entries.deep_view().take(n as int) =~= entries.deep_view());
    }
    if found {
        Ok(best)
    } else {
        Err(InstallError::ImageFormat(String::from_str("No layers found in OCI image.")))
    }
}

proof fn lemma_max_file_size_bounds(es: Seq<FsEntryView>)
    ensures
        spec_max_file_size(es) >= 0,
        forall|k: int|
            0 <= k < es.len() && !es[k].is_dir ==> es[k].size as int <= spec_max_file_size(es),
    decreases es.len(),
{
    if es.len() > 0 {
        lemma_max_file_size_bounds(es.drop_last());
        assert forall|k: int|
            0 <= k < es.len() && !es[k].is_dir implies es[k].size as int <= spec_max_file_size(
            es,
        ) by {
            if k < es.len() - 1 {
                assert(es.drop_last()[k] == es[k]);
            }
        }
    }
}

/// The wrapper directory to collapse: present exactly when the root
/// listing holds a single entry and that entry is a directory.
pub open spec fn spec_flatten_wrapper(es: Seq<FsEntryView>) -> Option<Seq<char>> {
    if es.len() == 1 && es[0].is_dir {
        Some(es[0].name)
    } else {
        None
    }
}

/// Decides whether the tree root is redundant single-directory
/// wrapping, returning the wrapper's name when it is.
pub fn flatten_wrapper(entries: &Vec<FsEntry>) -> (r: Option<String>)
    ensures
        match r {
            Some(w) => spec_flatten_wrapper(entries.deep_view()) == Some(w@),
            None => spec_flatten_wrapper(entries.deep_view()) is None,
        },
{
    if entries.len() == 1 && entries[0].is_dir {
        Some(entries[0].name.clone())
    } else {
        None
    }
}

/// One flattening pass is enough: once the children of the wrapper
/// directory have been moved up to become the new root listing, a
/// second pass finds nothing to collapse — provided the wrapper did
/// not itself hold exactly one directory entry, the one shape on which
/// a single (deliberately non-recursive) pass leaves a collapsible
/// root behind.
pub proof fn lemma_flatten_idempotent(root: Seq<FsEntryView>, children: Seq<FsEntryView>)
    requires
        spec_flatten_wrapper(root) is Some,
        !(children.len() == 1 && children[0].is_dir),
    ensures
        spec_flatten_wrapper(children) is None,
{
}

/// Directory names whose subtrees the attribute-stripping pass must
/// not touch: virtual or bind-mount targets.
pub open spec fn spec_excluded_dir(name: Seq<char>) -> bool {
    ||| name == "proc"@
    ||| name == "sys"@
    ||| name == "dev"@
    ||| name == "sdcard"@
}

/// Whether a directory name is one of the protected mount targets.
pub fn is_excluded_dir(name: &str) -> (r: bool)
    ensures
        r == spec_excluded_dir(name@),
{
    str_eq(name, "proc") || str_eq(name, "sys") || str_eq(name, "dev") || str_eq(name, "sdcard")
}

/// `dir`, a path separator, then `name`.
pub open spec fn spec_join(dir: Seq<char>, name: Seq<char>) -> Seq<char> {
    dir + "/"@ + name
}

/// Joins a directory path and an entry name.
pub fn join_path(dir: &str, name: &str) -> (r: String)
    ensures
        r@ == spec_join(dir@, name@),
{
    let mut r = String::from_str(dir);
    r.append("/");
    r.append(name);
    r
}

/// The paths under `dir` whose security attributes the pass removes:
/// every listed entry except the protected directories.
pub open spec fn spec_strip_paths(dir: Seq<char>, es: Seq<FsEntryView>) -> Seq<Seq<char>>
    decreases es.len(),
{
    if es.len() == 0 {
        Seq::empty()
    } else {
        let rest = spec_strip_paths(dir, es.drop_first());
        if es[0].is_dir && spec_excluded_dir(es[0].name) {
            rest
        } else {
            seq![spec_join(dir, es[0].name)] + rest
        }
    }
}

/// The subdirectories of `dir` the pass descends into: every listed
/// directory except the protected ones.
pub open spec fn spec_descend_dirs(dir: Seq<char>, es: Seq<FsEntryView>) -> Seq<Seq<char>>
    decreases es.len(),
{
    if es.len() == 0 {
        Seq::empty()
    } else {
        let rest = spec_descend_dirs(dir, es.drop_first());
        if es[0].is_dir && !spec_excluded_dir(es[0].name) {
            seq![spec_join(dir, es[0].name)] + rest
        } else {
            rest
        }
    }
}

/// Plans one level of the attribute-stripping walk over the listing of
/// `dir`: which entries to strip, and which subdirectories to visit
/// next. Protected directories appear in neither list.
pub fn strip_plan(dir: &str, entries: &Vec<FsEntry>) -> (r: (Vec<String>, Vec<String>))
    ensures
        r.0.deep_view() == spec_strip_paths(dir@, entries.deep_view()),
        r.1.deep_view() == spec_descend_dirs(dir@, entries.deep_view()),
{
    let n = entries.len();
    let mut strip: Vec<String> = Vec::new();
    let mut descend: Vec<String> = Vec::new();
    let mut i: usize = 0;
    proof {
        assert(entries.deep_view().skip(0) =~= entries.deep_view());
    }
    while i < n
        invariant
            n == entries.len(),
            i <= n,
            strip.deep_view() + spec_strip_paths(dir@, entries.deep_view().skip(i as int))
                == spec_strip_paths(dir@, entries.deep_view()),
            descend.deep_view() + spec_descend_dirs(dir@, entries.deep_view().skip(i as int))
                == spec_descend_dirs(dir@, entries.deep_view()),
        decreases n - i,
    {
        let ghost pre_strip = strip.deep_view();
        let ghost pre_descend = descend.deep_view();
        let ghost tail = entries.deep_view().skip(i as int);
        proof {
            assert(tail[0] == entries.deep_view()[i as int]);
            assert(tail.drop_first() =~= entries.deep_view().skip(i + 1));
        }
        let e = &entries[i];
        let excluded = e.is_dir && is_excluded_dir(e.name.as_str());
        if !excluded {
            strip.push(join_path(dir, e.name.as_str()));
        }
        if e.is_dir && !excluded {
            descend.push(join_path(dir, e.name.as_str()));
        }
        proof {
            if !(tail[0].is_dir && spec_excluded_dir(tail[0].name)) {
                assert(strip.deep_view() =~= pre_strip + seq![spec_join(dir@, tail[0].name)]);
                assert(pre_strip + (seq![spec_join(dir@, tail[0].name)] + spec_strip_paths(
                    dir@,
                    tail.drop_first(),
                )) =~= strip.deep_view() + spec_strip_paths(dir@, tail.drop_first()));
            }
            if tail[0].is_dir && !spec_excluded_dir(tail[0].name) {
                assert(descend.deep_view() =~= pre_descend + seq![spec_join(dir@, tail[0].name)]);
                assert(pre_descend + (seq![spec_join(dir@, tail[0].name)] + spec_descend_dirs(
                    dir@,
                    tail.drop_first(),
                )) =~= descend.deep_view() + spec_descend_dirs(dir@, tail.drop_first()));
            }
        }
        i += 1;
    }
    proof {
        assert(entries.deep_view().skip(n as int) =~= Seq::<FsEntryView>::empty());
        assert(strip.deep_view() + Seq::<Seq<char>>::empty() =~= strip.deep_view());
        assert(descend.deep_view() + Seq::<Seq<char>>::empty() =~= descend.deep_view());
    }
    (strip, descend)
}

proof fn lemma_join_injective_name(dir: Seq<char>, a: Seq<char>, b: Seq<char>)
    requires
        spec_join(dir, a) == spec_join(dir, b),
    ensures
        a == b,
{
    let ja = spec_join(dir, a);
    let jb = spec_join(dir, b);
    reveal_strlit("/");
    assert(ja.len() == dir.len() + 1 + a.len());
    assert(jb.len() == dir.len() + 1 + b.len());
    assert(a =~= ja.subrange(dir.len() as int + 1, ja.len() as int));
    assert(b =~= jb.subrange(dir.len() as int + 1, jb.len() as int));
}

/// The stripping pass never touches nor descends into a protected
/// directory: for any listed directory entry named `proc`, `sys`,
/// `dev`, or `sdcard` — however populated — its path is neither
/// stripped nor scheduled for descent.
pub proof fn lemma_strip_skips_protected(dir: Seq<char>, es: Seq<FsEntryView>, i: int)
    requires
        0 <= i < es.len(),
        es[i].is_dir,
        spec_excluded_dir(es[i].name),
        // a directory listing holds each name at most once
        forall|k: int| 0 <= k < es.len() && k != i ==> es[k].name != es[i].name,
    ensures
        !spec_strip_paths(dir, es).contains(spec_join(dir, es[i].name)),
        !spec_descend_dirs(dir, es).contains(spec_join(dir, es[i].name)),
{
    let p = spec_join(dir, es[i].name);
    assert forall|j: int|
        0 <= j < spec_strip_paths(dir, es).len() implies spec_strip_paths(dir, es)[j] != p by {
        lemma_strip_path_shape(dir, es, j);
        let k = choose|k: int|
            0 <= k < es.len() && spec_strip_paths(dir, es)[j] == spec_join(dir, es[k].name) && !(
            es[k].is_dir && spec_excluded_dir(es[k].name));
        if spec_strip_paths(dir, es)[j] == p {
            lemma_join_injective_name(dir, es[k].name, es[i].name);
        }
    }
    assert forall|j: int|
        0 <= j < spec_descend_dirs(dir, es).len() implies spec_descend_dirs(dir, es)[j] != p by {
        lemma_descend_path_shape(dir, es, j);
        let k = choose|k: int|
            0 <= k < es.len() && spec_descend_dirs(dir, es)[j] == spec_join(dir, es[k].name)
                && es[k].is_dir && !spec_excluded_dir(es[k].name);
        if spec_descend_dirs(dir, es)[j] == p {
            lemma_join_injective_name(dir, es[k].name, es[i].name);
        }
    }
}

/// Every planned strip path is `dir` joined with the name of a listed
/// entry that is not a protected directory.
proof fn lemma_strip_path_shape(dir: Seq<char>, es: Seq<FsEntryView>, j: int)
    requires
        0 <= j < spec_strip_paths(dir, es).len(),
    ensures
        exists|k: int|
            0 <= k < es.len() && spec_strip_paths(dir, es)[j] == spec_join(dir, es[k].name) && !(
            es[k].is_dir && spec_excluded_dir(es[k].name)),
    decreases es.len(),
{
    let rest = es.drop_first();
    if es[0].is_dir && spec_excluded_dir(es[0].name) {
        lemma_strip_path_shape(dir, rest, j);
        let k = choose|k: int|
            0 <= k < rest.len() && spec_strip_paths(dir, rest)[j] == spec_join(dir, rest[k].name)
                && !(rest[k].is_dir && spec_excluded_dir(rest[k].name));
        assert(es[k + 1] == rest[k]);
    } else {
        if j == 0 {
            assert(spec_strip_paths(dir, es)[0] == spec_join(dir, es[0].name));
        } else {
            lemma_strip_path_shape(dir, rest, j - 1);
            let k = choose|k: int|
                0 <= k < rest.len() && spec_strip_paths(dir, rest)[j - 1] == spec_join(
                    dir,
                    rest[k].name,
                ) && !(rest[k].is_dir && spec_excluded_dir(rest[k].name));
            assert(es[k + 1] == rest[k]);
        }
    }
}

/// Every planned descent is `dir` joined with the name of a listed,
/// non-protected directory entry.
proof fn lemma_descend_path_shape(dir: Seq<char>, es: Seq<FsEntryView>, j: int)
    requires
        0 <= j < spec_descend_dirs(dir, es).len(),
    ensures
        exists|k: int|
            0 <= k < es.len() && spec_descend_dirs(dir, es)[j] == spec_join(dir, es[k].name)
                && es[k].is_dir && !spec_excluded_dir(es[k].name),
    decreases es.len(),
{
    let rest = es.drop_first();
    if es[0].is_dir && !spec_excluded_dir(es[0].name) {
        if j == 0 {
            assert(spec_descend_dirs(dir, es)[0] == spec_join(dir, es[0].name));
        } else {
            lemma_descend_path_shape(dir, rest, j - 1);
            let k = choose|k: int|
                0 <= k < rest.len() && spec_descend_dirs(dir, rest)[j - 1] == spec_join(
                    dir,
                    rest[k].name,
                ) && rest[k].is_dir && !spec_excluded_dir(rest[k].name);
            assert(es[k + 1] == rest[k]);
        }
    } else {
        lemma_descend_path_shape(dir, rest, j);
        let k = choose|k: int|
            0 <= k < rest.len() && spec_descend_dirs(dir, rest)[j] == spec_join(dir, rest[k].name)
                && rest[k].is_dir && !spec_excluded_dir(rest[k].name);
        assert(es[k + 1] == rest[k]);
    }
}

/// The extended-attribute namespaces removed from every visited entry:
/// integrity measurement, the mandatory-access-control label, and the
/// file capability set.
pub fn security_xattr_names() -> (r: (&'static str, &'static str, &'static str))
    ensures
        r.0@ == "security.ima"@,
        r.1@ == "security.selinux"@,
        r.2@ == "security.capability"@,
{
    ("security.ima", "security.selinux", "security.capability")
}

} // verus!
