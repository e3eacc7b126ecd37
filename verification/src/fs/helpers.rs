//! Pure path helpers: making a path absolute against a given working
//! directory, and computing the relative path between two directories.

use vstd::prelude::*;

verus! {

use crate::path::{DirPath, PathModel};

/// The `..` path component.
pub open spec fn spec_dotdot() -> Seq<char> {
    seq!['.', '.']
}

/// The number of leading components on which `a` and `b` agree.
pub open spec fn spec_common_prefix_len(a: Seq<Seq<char>>, b: Seq<Seq<char>>) -> int
    decreases a.len(),
{
    if a.len() == 0 || b.len() == 0 || a[0] != b[0] {
        0
    } else {
        1 + spec_common_prefix_len(a.skip(1), b.skip(1))
    }
}

/// The relative path that leads from the directory `base` to the directory
/// `path`, both given as component lists rooted alike: one `..` for every
/// base component past the common prefix, then the rest of `path`.
pub open spec fn spec_relative_parts(path: Seq<Seq<char>>, base: Seq<Seq<char>>) -> Seq<Seq<char>> {
    let c = spec_common_prefix_len(path, base);
    Seq::new((base.len() - c) as nat, |i: int| spec_dotdot()) + path.skip(c)
}

/// A plain name component: non-empty, not one of the special names `.` and
/// `..`, and free of the path separator.
pub open spec fn spec_plain_component(c: Seq<char>) -> bool {
    c.len() > 0 && c != seq!['.'] && c != spec_dotdot() && !c.contains('/')
}

/// Whether every component is a plain name; canonical paths are of this form.
pub open spec fn spec_plain_parts(parts: Seq<Seq<char>>) -> bool {
    forall|i: int| 0 <= i < parts.len() ==> spec_plain_component(#[trigger] parts[i])
}

/// Relies on pathdiff::diff_paths: rooting both component lists alike, the
/// relative path from `base` to `path` consists of one `..` per base
/// component past their common prefix, followed by the remainder of `path`;
/// for components that are not plain names only relativeness is relied on.
#[verifier::external_body]
fn diff_plain_paths(path: &DirPath, base: &DirPath) -> (r: DirPath)
    ensures
        !r@.absolute,
        (spec_plain_parts(path@.parts) && spec_plain_parts(base@.parts)) ==> r@.parts
            == spec_relative_parts(path@.parts, base@.parts),
{
    let mut pa = std::path::PathBuf::from("/");
    for c in path.components.iter() {
        pa.push(c);
    }
    let mut pb = std::path::PathBuf::from("/");
    for c in base.components.iter() {
        pb.push(c);
    }
    let diff = pathdiff::diff_paths(&pa, &pb).unwrap_or_default();
    let mut components: Vec<String> = Vec::new();
    for c in diff.components() {
        components.push(c.as_os_str().to_str().unwrap_or("").to_string());
    }
    DirPath { absolute: false, components }
}

/// The relative path from `base_dir` to `dir`, when one exists.
///
/// Paths rooted alike always admit one; an absolute `dir` is its own answer
/// against a relative base; a relative `dir` has none against an absolute
/// base. The component-level value is pinned down for plain name components,
/// the form canonical paths take.
pub fn get_relative_dir(dir: &DirPath, base_dir: &DirPath) -> (r: Option<DirPath>)
    ensures
        dir@.absolute == base_dir@.absolute ==> (r matches Option::Some(d) && !d@.absolute && (
        (spec_plain_parts(dir@.parts) && spec_plain_parts(base_dir@.parts)) ==> d@.parts
            == spec_relative_parts(dir@.parts, base_dir@.parts))),
        dir@.absolute && !base_dir@.absolute ==> (r matches Option::Some(d) && d@ == dir@),
        !dir@.absolute && base_dir@.absolute ==> r is None,
{
    if dir.is_absolute() == base_dir.is_absolute() {
        Option::Some(diff_plain_paths(dir, base_dir))
    } else if dir.is_absolute() {
        Option::Some(dir.clone())
    } else {
        Option::None
    }
}

/// Makes `dir` absolute: an absolute `dir` is returned as given, a relative
/// one is appended to `current_dir`.
pub fn get_absolute_dir(dir: &DirPath, current_dir: &DirPath) -> (r: DirPath)
    ensures
        dir@.absolute ==> r@ == dir@,
        !dir@.absolute ==> r@.absolute == current_dir@.absolute && r@.parts == current_dir@.parts
            + dir@.parts,
{
    if dir.is_absolute() {
        dir.clone()
    } else {
        let mut r = current_dir.clone();
        r.append_components(dir);
        r
    }
}

/// The display path for `dir` relative to the working directory
/// `current_dir`: `.` followed by the relative components when one can be
/// computed, `dir` itself when it is absolute against a relative working
/// directory, and nothing otherwise.
pub fn get_relative_dir_to_current_dir(dir: &DirPath, current_dir: &DirPath) -> (r: Option<
    DirPath,
>)
    ensures
        dir@.absolute == current_dir@.absolute ==> (r matches Option::Some(d) && !d@.absolute && (
        (spec_plain_parts(dir@.parts) && spec_plain_parts(current_dir@.parts)) ==> d@.parts
            == seq![seq!['.']] + spec_relative_parts(dir@.parts, current_dir@.parts))),
        dir@.absolute == current_dir@.absolute ==> (r matches Option::Some(d) && d@.parts.len() >= 1
            && d@.parts[0] == seq!['.']),
        dir@.absolute && !current_dir@.absolute ==> (r matches Option::Some(d) && d@ == dir@),
        !dir@.absolute && current_dir@.absolute ==> r is None,
{
    proof {
        reveal_strlit(".");
    }
    match get_relative_dir(dir, current_dir) {
        Option::Some(diff) => {
            if diff.is_absolute() {
                Option::Some(diff)
            } else {
                let mut display = DirPath::from_name(".");
                display.append_components(&diff);
                proof {
                    reveal_strlit(".");
                    assert("."@ =~= seq!['.']);
                    assert(display@.parts =~= seq![seq!['.']] + diff@.parts);
                }
                Option::Some(display)
            }
        },
        Option::None => Option::None,
    }
}

} // verus!
