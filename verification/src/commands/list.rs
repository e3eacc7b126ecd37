//! The List command: a read-only report, one row per visited directory,
//! sorted by display path.

use vstd::prelude::*;

verus! {

use vstd::string::StringExecFns;
use vstd::seq_lib::lemma_multiset_commutative;
use crate::Error;
use crate::application::{decimal_text, spec_decimal};
use crate::commands::Command;
use crate::commands::context::{Config, Context};
use crate::fs::helpers::{
    get_relative_dir_to_current_dir,
    spec_plain_parts,
    spec_relative_parts,
};
use crate::fscrawling::{DirDescriptor, PathList};
use crate::notification::{LogLevel, Notification};
use crate::path::{
    DirPath,
    lemma_path_le_total,
    lemma_path_le_transitive,
    path_le,
    spec_native,
    spec_path_le,
};

/// Which report rows a listing may be narrowed to.
#[derive(Clone, Copy, Debug, PartialEq, Eq, Structural)]
pub enum ListFilter {
    Clashing,
    Correct,
    Missing,
}

/// Reports, for every visited directory, whether a marker was found, whether
/// one is required, and the entry counts.
#[derive(Debug)]
pub struct List {
    pub filter: Vec<ListFilter>,
    pub root_dirs: PathList,
}

impl List {
    /// A `List` of the current directory without a filter.
    pub fn new() -> (r: List)
        ensures
            r.filter@ == Seq::<ListFilter>::empty(),
            r.root_dirs@.len() == 1,
            !r.root_dirs@[0]@.absolute,
            r.root_dirs@[0]@.parts == seq!["."@],
    {
        let r = List { filter: Vec::new(), root_dirs: Config::default_root_dirs() };
        proof {
            assert(r.filter@ =~= Seq::<ListFilter>::empty());
        }
        r
    }
}

/// One report row.
#[derive(Debug)]
pub struct ListStatistics {
    pub dir: DirPath,
    pub marker_found: bool,
    pub marker_required: bool,
    pub child_count: usize,
    pub dir_count: usize,
}

/// The display path of `dir`: relative to the working directory when that
/// can be computed, the crawler's path itself otherwise.
fn display_dir(dir: &DirPath, current_dir: &DirPath) -> (r: DirPath)
    ensures
        (dir@.absolute == current_dir@.absolute && spec_plain_parts(dir@.parts)
            && spec_plain_parts(current_dir@.parts)) ==> (!r@.absolute && r@.parts == seq![
            seq!['.'],
        ] + spec_relative_parts(dir@.parts, current_dir@.parts)),
        dir@.absolute != current_dir@.absolute ==> r@ == dir@,
{
    match get_relative_dir_to_current_dir(dir, current_dir) {
        Option::Some(d) => d,
        Option::None => dir.clone(),
    }
}

/// The report row for one descriptor.
///
/// Leaf equivalence holds by construction: `marker_required` is true exactly
/// when the directory has zero sub-directories, that is, exactly when
/// `dir_count` is zero.
pub fn stat_of(d: &DirDescriptor, current_dir: &DirPath) -> (s: ListStatistics)
    ensures
        s.marker_found == (d.marker_file_child_index is Some),
        s.marker_required == (d.subdir_child_indexes@.len() == 0),
        s.marker_required == (s.dir_count == 0),
        s.child_count == d.children@.len(),
        s.dir_count == d.subdir_child_indexes@.len(),
        (d.dir@.absolute == current_dir@.absolute && spec_plain_parts(d.dir@.parts)
            && spec_plain_parts(current_dir@.parts)) ==> (!s.dir@.absolute && s.dir@.parts == seq![
            seq!['.'],
        ] + spec_relative_parts(d.dir@.parts, current_dir@.parts)),
        d.dir@.absolute != current_dir@.absolute ==> s.dir@ == d.dir@,
{
    ListStatistics {
        dir: display_dir(&d.dir, current_dir),
        marker_found: d.has_marker(),
        marker_required: !d.has_children(),
        child_count: d.get_child_count(),
        dir_count: d.get_sub_direntry_count(),
    }
}

/// Inserting an element anywhere in a sequence adds it to the multiset.
proof fn lemma_insert_to_multiset<A>(s: Seq<A>, i: int, x: A)
    requires
        0 <= i <= s.len(),
    ensures
        s.insert(i, x).to_multiset() == s.to_multiset().insert(x),
{
    broadcast use vstd::seq_lib::group_to_multiset_ensures;

    let pre = s.subrange(0, i);
    let post = s.subrange(i, s.len() as int);
    lemma_multiset_commutative(pre.push(x), post);
    lemma_multiset_commutative(pre, post);
    assert(pre + post =~= s);
    assert(s.insert(i, x).to_multiset() =~= s.to_multiset().insert(x));
}

/// Sorts the rows by display path; the sorted rows are a permutation of the
/// given ones.
pub fn sort_statistics(rows: &mut Vec<ListStatistics>)
    ensures
        final(rows)@.len() == old(rows)@.len(),
        forall|a: int, b: int|
            0 <= a < b < final(rows)@.len() ==> spec_path_le(
                (#[trigger] final(rows)@[a]).dir@,
                (#[trigger] final(rows)@[b]).dir@,
            ),
        final(rows)@.to_multiset() == old(rows)@.to_multiset(),
{
    broadcast use vstd::seq_lib::group_to_multiset_ensures;

    let ghost orig = old(rows)@;
    let mut i: usize = 1;
    while i < rows.len()
        invariant
            1 <= i,
            i <= rows@.len() || rows@.len() < 1,
            rows@.len() == orig.len(),
            rows@.to_multiset() == orig.to_multiset(),
            forall|a: int, b: int|
                0 <= a < b < i && b < rows@.len() ==> spec_path_le(
                    (#[trigger] rows@[a]).dir@,
                    (#[trigger] rows@[b]).dir@,
                ),
        decreases rows@.len() - i,
    {
        let mut j: usize = i;
        while j > 0 && !path_le(&rows[j - 1].dir, &rows[j].dir)
            invariant
                0 <= j <= i < rows@.len(),
                rows@.len() == orig.len(),
                rows@.to_multiset() == orig.to_multiset(),
                forall|a: int, b: int|
                    0 <= a < b <= i && a != j && b != j ==> spec_path_le(
                        (#[trigger] rows@[a]).dir@,
                        (#[trigger] rows@[b]).dir@,
                    ),
                forall|b: int|
                    j < b <= i ==> spec_path_le(rows@[j as int].dir@, (#[trigger] rows@[b]).dir@),
            decreases j,
        {
            proof {
                lemma_path_le_total(rows@[j - 1].dir@, rows@[j as int].dir@);
            }
            let ghost before = rows@;
            let item = rows.remove(j);
            let ghost mid = rows@;
            rows.insert(j - 1, item);
            proof {
                broadcast use vstd::multiset::group_multiset_axioms;

                before.to_multiset_ensures();
                assert(before.contains(before[j as int]));
                assert(mid.to_multiset() == before.to_multiset().remove(before[j as int]));
                lemma_insert_to_multiset(mid, j - 1, item);
                assert(rows@.to_multiset() =~= before.to_multiset());
                assert forall|k: int|
                    0 <= k < rows@.len() && k != j - 1 && k != j implies rows@[k] == before[k] by {
                    if k < j - 1 {
                        assert(rows@[k] == mid[k]);
                        assert(mid[k] == before[k]);
                    } else {
                        assert(rows@[k] == mid[k - 1]);
                        assert(mid[k - 1] == before[k]);
                    }
                }
                assert(rows@[j - 1] == before[j as int]);
                assert(rows@[j as int] == before[j - 1]);
            }
            j -= 1;
        }
        proof {
            assert forall|a: int, b: int| 0 <= a < b <= i implies spec_path_le(
                (#[trigger] rows@[a]).dir@,
                (#[trigger] rows@[b]).dir@,
            ) by {
                if a == j && b > j {
                } else if b == j {
                    assert(j > 0);
                    assert(spec_path_le(rows@[j - 1].dir@, rows@[j as int].dir@));
                    if a < j - 1 {
                        assert(spec_path_le(rows@[a].dir@, rows@[j - 1].dir@));
                        lemma_path_le_transitive(
                            rows@[a].dir@,
                            rows@[j - 1].dir@,
                            rows@[j as int].dir@,
                        );
                    }
                }
            }
        }
        i += 1;
    }
}

/// The report line of one row.
pub open spec fn spec_stat_line(s: ListStatistics) -> Seq<char> {
    spec_native(s.dir@) + ": marker found: "@ + spec_bool_text(s.marker_found)
        + ", marker required: "@ + spec_bool_text(s.marker_required) + ", entries: "@
        + spec_decimal(s.child_count as nat) + ", directories: "@ + spec_decimal(
        s.dir_count as nat,
    )
}

/// The text of a truth value.
pub open spec fn spec_bool_text(b: bool) -> Seq<char> {
    if b {
        "yes"@
    } else {
        "no"@
    }
}

/// Renders a truth value.
fn bool_text(b: bool) -> (r: &'static str)
    ensures
        r@ == spec_bool_text(b),
{
    if b {
        "yes"
    } else {
        "no"
    }
}

/// Renders one report row as a line of text.
pub fn render_stat(s: &ListStatistics) -> (r: String)
    ensures
        r@ == spec_stat_line(*s),
{
    let mut line = s.dir.to_native();
    line.append(": marker found: ");
    line.append(bool_text(s.marker_found));
    line.append(", marker required: ");
    line.append(bool_text(s.marker_required));
    line.append(", entries: ");
    let child_count_text = decimal_text(s.child_count as u64);
    line.append(child_count_text.as_str());
    line.append(", directories: ");
    let dir_count_text = decimal_text(s.dir_count as u64);
    line.append(dir_count_text.as_str());
    proof {
        assert(line@ =~= spec_stat_line(*s));
    }
    line
}

impl<C: Context> Command<C> for List {
    /// Builds one row per descriptor, sorts the rows by display path for
    /// deterministic output independent of crawl completion order, and
    /// reports each as an informational event. Read-only, so always a
    /// success.
    fn execute(&self, ctx: &C) -> (r: Result<(), Error>)
        ensures
            r is Ok,
    {
        let descriptors = ctx.crawl_dirs(&self.root_dirs);
        let mut rows: Vec<ListStatistics> = Vec::new();
        let mut i: usize = 0;
        while i < descriptors.len()
            invariant
                0 <= i <= descriptors@.len(),
            decreases descriptors@.len() - i,
        {
            rows.push(stat_of(&descriptors[i], ctx.get_current_dir()));
            i += 1;
        }
        sort_statistics(&mut rows);
        let mut k: usize = 0;
        while k < rows.len()
            invariant
                0 <= k <= rows@.len(),
            decreases rows@.len() - k,
        {
            let line = render_stat(&rows[k]);
            let notification = Notification::new(
                LogLevel::Info,
                "list",
                "Directory statistics",
                line.as_str(),
                Option::None,
            );
            ctx.notify(&notification);
            k += 1;
        }
        Result::Ok(())
    }
}

} // verus!
