//! A filesystem path modelled as a flag for absoluteness plus a list of plain
//! name components.
//!
//! The crawler and the reconciliation commands only ever read paths component
//! by component (suffix tests for exclusion, prefix tests for root lookup,
//! extending a directory path by a child name), so this representation carries
//! everything the logic needs as plain values.

use vstd::prelude::*;

verus! {

use vstd::string::StringExecFns;

/// The mathematical value of a [`DirPath`].
pub ghost struct PathModel {
    /// Whether the path starts at the filesystem root.
    pub absolute: bool,
    /// The name components, in order from the outermost directory inwards.
    pub parts: Seq<Seq<char>>,
}

/// A filesystem path: an absoluteness flag plus name components.
///
/// Components are kept exactly as given; `"."` and `".."` are ordinary
/// component names here, and canonical paths contain neither.
#[derive(Debug)]
pub struct DirPath {
    /// Whether the path starts at the filesystem root.
    pub absolute: bool,
    /// The name components, outermost first.
    pub components: Vec<String>,
}

impl View for DirPath {
    type V = PathModel;

    open spec fn view(&self) -> PathModel {
        PathModel { absolute: self.absolute, parts: self.components.deep_view() }
    }
}

/// Whether `p` ends with `suffix`, compared whole component by whole
/// component, as a path suffix test (never a substring test).
///
/// An absolute suffix only matches the path it is equal to, since its leading
/// root must line up with the start of `p`.
pub open spec fn spec_ends_with(p: PathModel, suffix: PathModel) -> bool {
    if suffix.absolute {
        p.absolute && p.parts == suffix.parts
    } else {
        suffix.parts.len() <= p.parts.len() && p.parts.skip(
            p.parts.len() - suffix.parts.len(),
        ) == suffix.parts
    }
}

/// Whether `p` starts with `prefix`, compared whole component by whole
/// component; the absoluteness of both must agree so that the leading roots
/// line up.
pub open spec fn spec_starts_with(p: PathModel, prefix: PathModel) -> bool {
    p.absolute == prefix.absolute && prefix.parts.is_prefix_of(p.parts)
}

impl DirPath {
    /// The empty relative path.
    pub fn new() -> (r: DirPath)
        ensures
            r@.absolute == false,
            r@.parts == Seq::<Seq<char>>::empty(),
    {
        let r = DirPath { absolute: false, components: Vec::new() };
        proof {
            assert(r@.parts =~= Seq::<Seq<char>>::empty());
        }
        r
    }

    /// The relative path made of the single component `name`.
    pub fn from_name(name: &str) -> (r: DirPath)
        ensures
            r@.absolute == false,
            r@.parts == seq![name@],
    {
        let mut components: Vec<String> = Vec::new();
        components.push(name.to_owned());
        let r = DirPath { absolute: false, components };
        proof {
            assert(r@.parts =~= seq![name@]);
        }
        r
    }

    /// Appends one component in place.
    pub fn push(&mut self, name: String)
        ensures
            final(self)@.absolute == old(self)@.absolute,
            final(self)@.parts == old(self)@.parts.push(name@),
    {
        let ghost name_view: Seq<char> = name@;
        self.components.push(name);
        proof {
            assert(self@.parts =~= old(self)@.parts.push(name_view));
        }
    }

    /// The path of the child named `name` inside this directory.
    pub fn child(&self, name: &String) -> (r: DirPath)
        ensures
            r@.absolute == self@.absolute,
            r@.parts == self@.parts.push(name@),
    {
        let mut r = self.clone();
        r.push(name.clone());
        r
    }

    /// Appends every component of `other` in place.
    pub fn append_components(&mut self, other: &DirPath)
        ensures
            final(self)@.absolute == old(self)@.absolute,
            final(self)@.parts == old(self)@.parts + other@.parts,
    {
        let ghost orig = old(self)@;
        let mut i: usize = 0;
        while i < other.components.len()
            invariant
                0 <= i <= other.components.len(),
                self@.absolute == orig.absolute,
                self@.parts == orig.parts + other@.parts.take(i as int),
            decreases other.components.len() - i,
        {
            let name = other.components[i].clone();
            proof {
                assert(name@ == other@.parts[i as int]);
                assert(other@.parts.take(i + 1) =~= other@.parts.take(i as int).push(name@));
            }
            self.push(name);
            proof {
                assert(self@.parts =~= orig.parts + other@.parts.take(i + 1));
            }
            i += 1;
        }
        proof {
            assert(other@.parts.take(other.components.len() as int) =~= other@.parts);
        }
    }

    /// The number of components.
    pub fn component_count(&self) -> (n: usize)
        ensures
            n == self@.parts.len(),
    {
        self.components.len()
    }

    /// Whether the path starts at the filesystem root.
    pub fn is_absolute(&self) -> (r: bool)
        ensures
            r == self@.absolute,
    {
        self.absolute
    }

    /// Whether this path ends with `suffix`, as a whole-component path suffix
    /// test.
    pub fn ends_with(&self, suffix: &DirPath) -> (r: bool)
        ensures
            r == spec_ends_with(self@, suffix@),
    {
        if suffix.absolute {
            (self.absolute && path_components_eq(&self.components, &suffix.components))
        } else {
            if suffix.components.len() > self.components.len() {
                false
            } else {
                let start: usize = self.components.len() - suffix.components.len();
                let mut i: usize = 0;
                let mut all_eq: bool = true;
                while i < suffix.components.len()
                    invariant
                        0 <= i <= suffix.components.len(),
                        start == self.components.len() - suffix.components.len(),
                        suffix.components.len() <= self.components.len(),
                        all_eq == (forall|j: int|
                            0 <= j < i ==> self@.parts[start + j] == suffix@.parts[j]),
                    decreases suffix.components.len() - i,
                {
                    let e: bool = self.components[start + i] == suffix.components[i];
                    proof {
                        if e {
                            assert(self@.parts[start + i] == suffix@.parts[i as int]);
                        } else {
                            assert(self@.parts[start + i] != suffix@.parts[i as int]);
                        }
                    }
                    if !e {
                        all_eq = false;
                    }
                    i += 1;
                }
                proof {
                    if all_eq {
                        assert(self@.parts.skip(start as int) =~= suffix@.parts);
                    } else {
                        assert(self@.parts.skip(start as int) != suffix@.parts) by {
                            let j = choose|j: int|
                                0 <= j < suffix@.parts.len() && self@.parts[start + j]
                                    != suffix@.parts[j];
                            assert(self@.parts.skip(start as int)[j] != suffix@.parts[j]);
                        }
                    }
                }
                all_eq
            }
        }
    }

    /// Whether this path starts with `prefix`, as a whole-component path
    /// prefix test.
    pub fn starts_with(&self, prefix: &DirPath) -> (r: bool)
        ensures
            r == spec_starts_with(self@, prefix@),
    {
        if self.absolute != prefix.absolute {
            false
        } else if prefix.components.len() > self.components.len() {
            false
        } else {
            let mut i: usize = 0;
            let mut all_eq: bool = true;
            while i < prefix.components.len()
                invariant
                    0 <= i <= prefix.components.len(),
                    prefix.components.len() <= self.components.len(),
                    all_eq == (forall|j: int| 0 <= j < i ==> self@.parts[j] == prefix@.parts[j]),
                decreases prefix.components.len() - i,
            {
                let e: bool = self.components[i] == prefix.components[i];
                proof {
                    if e {
                        assert(self@.parts[i as int] == prefix@.parts[i as int]);
                    } else {
                        assert(self@.parts[i as int] != prefix@.parts[i as int]);
                    }
                }
                if !e {
                    all_eq = false;
                }
                i += 1;
            }
            proof {
                if all_eq {
                    assert(prefix@.parts =~= self@.parts.take(prefix@.parts.len() as int));
                } else {
                    let j = choose|j: int|
                        0 <= j < prefix@.parts.len() && self@.parts[j] != prefix@.parts[j];
                    assert(self@.parts.take(prefix@.parts.len() as int)[j] != prefix@.parts[j]);
                }
            }
            all_eq
        }
    }
}

impl Clone for DirPath {
    /// Clones the path; the copy has the same mathematical value.
    fn clone(&self) -> (r: Self)
        ensures
            r@ == self@,
    {
        let components = self.components.clone();
        proof {
            assert(components.deep_view() =~= self.components.deep_view());
        }
        DirPath { absolute: self.absolute, components }
    }
}

impl PartialEq for DirPath {
    fn eq(&self, other: &DirPath) -> (r: bool) {
        if self.absolute != other.absolute {
            false
        } else {
            path_components_eq(&self.components, &other.components)
        }
    }
}

impl vstd::std_specs::cmp::PartialEqSpecImpl for DirPath {
    open spec fn obeys_eq_spec() -> bool {
        true
    }

    open spec fn eq_spec(&self, other: &DirPath) -> bool {
        self@.absolute == other@.absolute && self@.parts == other@.parts
    }
}

impl Eq for DirPath {

}

/// Compares two component lists for equality of their mathematical values.
fn path_components_eq(a: &Vec<String>, b: &Vec<String>) -> (r: bool)
    ensures
        r == (a.deep_view() == b.deep_view()),
{
    if a.len() != b.len() {
        proof {
            assert(a.deep_view().len() != b.deep_view().len());
        }
        false
    } else {
        let mut i: usize = 0;
        let mut all_eq: bool = true;
        while i < a.len()
            invariant
                0 <= i <= a.len(),
                a.len() == b.len(),
                all_eq == (forall|j: int| 0 <= j < i ==> a.deep_view()[j] == b.deep_view()[j]),
            decreases a.len() - i,
        {
            let e: bool = a[i] == b[i];
            proof {
                if e {
                    assert(a.deep_view()[i as int] == b.deep_view()[i as int]);
                } else {
                    assert(a.deep_view()[i as int] != b.deep_view()[i as int]);
                }
            }
            if !e {
                all_eq = false;
            }
            i += 1;
        }
        proof {
            if all_eq {
                assert(a.deep_view() =~= b.deep_view());
            } else {
                let j = choose|j: int|
                    0 <= j < a.deep_view().len() && a.deep_view()[j] != b.deep_view()[j];
                assert(a.deep_view()[j] != b.deep_view()[j]);
            }
        }
        all_eq
    }
}

/// The mathematical values of a list of paths.
pub open spec fn spec_path_views(v: Vec<DirPath>) -> Seq<PathModel> {
    Seq::new(v@.len(), |i: int| v@[i]@)
}

/// Whether two path lists hold the same paths in the same order.
pub fn path_list_eq(a: &Vec<DirPath>, b: &Vec<DirPath>) -> (r: bool)
    ensures
        r == (spec_path_views(*a) == spec_path_views(*b)),
{
    if a.len() != b.len() {
        proof {
            assert(spec_path_views(*a).len() != spec_path_views(*b).len());
        }
        false
    } else {
        let mut i: usize = 0;
        let mut all_eq: bool = true;
        while i < a.len()
            invariant
                0 <= i <= a@.len(),
                a@.len() == b@.len(),
                all_eq == (forall|j: int|
                    0 <= j < i ==> spec_path_views(*a)[j] == spec_path_views(*b)[j]),
            decreases a@.len() - i,
        {
            let e: bool = a[i] == b[i];
            proof {
                if e {
                    assert(spec_path_views(*a)[i as int] == spec_path_views(*b)[i as int]);
                } else {
                    assert(spec_path_views(*a)[i as int] != spec_path_views(*b)[i as int]);
                }
            }
            if !e {
                all_eq = false;
            }
            i += 1;
        }
        proof {
            if all_eq {
                assert(spec_path_views(*a) =~= spec_path_views(*b));
            } else {
                let j = choose|j: int|
                    0 <= j < spec_path_views(*a).len() && spec_path_views(*a)[j]
                        != spec_path_views(*b)[j];
                assert(spec_path_views(*a)[j] != spec_path_views(*b)[j]);
            }
        }
        all_eq
    }
}

/// Clones a list of paths; the copy holds the same paths.
pub fn clone_path_list(v: &Vec<DirPath>) -> (r: Vec<DirPath>)
    ensures
        spec_path_views(r) == spec_path_views(*v),
{
    let mut r: Vec<DirPath> = Vec::new();
    let mut i: usize = 0;
    while i < v.len()
        invariant
            0 <= i <= v@.len(),
            r@.len() == i,
            forall|j: int| 0 <= j < i ==> spec_path_views(r)[j] == spec_path_views(*v)[j],
        decreases v@.len() - i,
    {
        r.push(v[i].clone());
        i += 1;
    }
    proof {
        assert(spec_path_views(r) =~= spec_path_views(*v));
    }
    r
}

/// Byte-wise lexicographic order: a prefix comes before every extension of
/// it, and otherwise the first differing byte decides.
pub open spec fn spec_bytes_le(a: Seq<u8>, b: Seq<u8>) -> bool
    decreases a.len(),
{
    if a.len() == 0 {
        true
    } else if b.len() == 0 {
        false
    } else if a[0] != b[0] {
        a[0] < b[0]
    } else {
        spec_bytes_le(a.skip(1), b.skip(1))
    }
}

/// Lexicographic order on component lists; a component weighs as its UTF-8
/// bytes, which on byte-addressed filesystems is the native collation.
pub open spec fn spec_parts_le(a: Seq<Seq<char>>, b: Seq<Seq<char>>) -> bool
    decreases a.len(),
{
    if a.len() == 0 {
        true
    } else if b.len() == 0 {
        false
    } else if vstd::utf8::encode_utf8(a[0]) != vstd::utf8::encode_utf8(b[0]) {
        spec_bytes_le(vstd::utf8::encode_utf8(a[0]), vstd::utf8::encode_utf8(b[0]))
    } else {
        spec_parts_le(a.skip(1), b.skip(1))
    }
}

/// The display order of paths: absolute paths first, then component order.
pub open spec fn spec_path_le(a: PathModel, b: PathModel) -> bool {
    if a.absolute != b.absolute {
        a.absolute
    } else {
        spec_parts_le(a.parts, b.parts)
    }
}

/// The byte order is total.
pub proof fn lemma_bytes_le_total(a: Seq<u8>, b: Seq<u8>)
    ensures
        spec_bytes_le(a, b) || spec_bytes_le(b, a),
    decreases a.len(),
{
    if a.len() > 0 && b.len() > 0 && a[0] == b[0] {
        lemma_bytes_le_total(a.skip(1), b.skip(1));
    }
}

/// The byte order admits no ties between distinct sequences.
pub proof fn lemma_bytes_le_antisymmetric(a: Seq<u8>, b: Seq<u8>)
    requires
        spec_bytes_le(a, b),
        spec_bytes_le(b, a),
    ensures
        a == b,
    decreases a.len(),
{
    if a.len() == 0 {
        assert(a =~= b);
    } else {
        lemma_bytes_le_antisymmetric(a.skip(1), b.skip(1));
        assert forall|i: int| 0 <= i < a.len() implies a[i] == b[i] by {
            if i > 0 {
                assert(a.skip(1)[i - 1] == a[i]);
                assert(b.skip(1)[i - 1] == b[i]);
            }
        }
        assert(a =~= b);
    }
}

/// The byte order is transitive.
pub proof fn lemma_bytes_le_transitive(a: Seq<u8>, b: Seq<u8>, c: Seq<u8>)
    requires
        spec_bytes_le(a, b),
        spec_bytes_le(b, c),
    ensures
        spec_bytes_le(a, c),
    decreases a.len(),
{
    if a.len() > 0 && b.len() > 0 && c.len() > 0 && a[0] == b[0] && b[0] == c[0] {
        lemma_bytes_le_transitive(a.skip(1), b.skip(1), c.skip(1));
    }
}

/// The component order is total.
pub proof fn lemma_parts_le_total(a: Seq<Seq<char>>, b: Seq<Seq<char>>)
    ensures
        spec_parts_le(a, b) || spec_parts_le(b, a),
    decreases a.len(),
{
    if a.len() > 0 && b.len() > 0 {
        if vstd::utf8::encode_utf8(a[0]) != vstd::utf8::encode_utf8(b[0]) {
            lemma_bytes_le_total(vstd::utf8::encode_utf8(a[0]), vstd::utf8::encode_utf8(b[0]));
        } else {
            lemma_parts_le_total(a.skip(1), b.skip(1));
        }
    }
}

/// The component order is transitive.
pub proof fn lemma_parts_le_transitive(a: Seq<Seq<char>>, b: Seq<Seq<char>>, c: Seq<Seq<char>>)
    requires
        spec_parts_le(a, b),
        spec_parts_le(b, c),
    ensures
        spec_parts_le(a, c),
    decreases a.len(),
{
    if a.len() > 0 && b.len() > 0 && c.len() > 0 {
        let ea = vstd::utf8::encode_utf8(a[0]);
        let eb = vstd::utf8::encode_utf8(b[0]);
        let ec = vstd::utf8::encode_utf8(c[0]);
        if ea != eb {
            if eb != ec {
                lemma_bytes_le_transitive(ea, eb, ec);
                if ea == ec {
                    lemma_bytes_le_antisymmetric(ea, eb);
                }
            }
        } else {
            if eb == ec {
                lemma_parts_le_transitive(a.skip(1), b.skip(1), c.skip(1));
            }
        }
    }
}

/// The path order is total.
pub proof fn lemma_path_le_total(a: PathModel, b: PathModel)
    ensures
        spec_path_le(a, b) || spec_path_le(b, a),
{
    if a.absolute == b.absolute {
        lemma_parts_le_total(a.parts, b.parts);
    }
}

/// The path order is transitive.
pub proof fn lemma_path_le_transitive(a: PathModel, b: PathModel, c: PathModel)
    requires
        spec_path_le(a, b),
        spec_path_le(b, c),
    ensures
        spec_path_le(a, c),
{
    if a.absolute == b.absolute && b.absolute == c.absolute {
        lemma_parts_le_transitive(a.parts, b.parts, c.parts);
    }
}

/// Whether two byte slices hold the same bytes.
fn bytes_eq(a: &[u8], b: &[u8]) -> (r: bool)
    ensures
        r == (a@ == b@),
{
    if a.len() != b.len() {
        return false;
    }
    let mut i: usize = 0;
    while i < a.len()
        invariant
            0 <= i <= a@.len(),
            a@.len() == b@.len(),
            forall|j: int| 0 <= j < i ==> a@[j] == b@[j],
        decreases a@.len() - i,
    {
        if a[i] != b[i] {
            return false;
        }
        i += 1;
    }
    proof {
        assert(a@ =~= b@);
    }
    true
}

/// The byte-wise lexicographic comparison.
fn bytes_le(a: &[u8], b: &[u8]) -> (r: bool)
    ensures
        r == spec_bytes_le(a@, b@),
{
    proof {
        assert(a@.skip(0) =~= a@);
        assert(b@.skip(0) =~= b@);
    }
    let mut i: usize = 0;
    while i < a.len() && i < b.len()
        invariant
            0 <= i <= a@.len(),
            0 <= i <= b@.len(),
            spec_bytes_le(a@, b@) == spec_bytes_le(a@.skip(i as int), b@.skip(i as int)),
        decreases a@.len() - i,
    {
        if a[i] != b[i] {
            proof {
                assert(a@.skip(i as int)[0] == a@[i as int]);
                assert(b@.skip(i as int)[0] == b@[i as int]);
            }
            return a[i] < b[i];
        }
        proof {
            assert(a@.skip(i as int)[0] == a@[i as int]);
            assert(b@.skip(i as int)[0] == b@[i as int]);
            assert(a@.skip(i as int).skip(1) =~= a@.skip(i + 1));
            assert(b@.skip(i as int).skip(1) =~= b@.skip(i + 1));
        }
        i += 1;
    }
    proof {
        assert(spec_bytes_le(a@.skip(i as int), b@.skip(i as int)) == (a@.len() <= b@.len()));
    }
    a.len() <= b.len()
}

/// The component-list comparison, components weighed as their UTF-8 bytes.
fn components_le(a: &Vec<String>, b: &Vec<String>) -> (r: bool)
    ensures
        r == spec_parts_le(a.deep_view(), b.deep_view()),
{
    let ghost av = a.deep_view();
    let ghost bv = b.deep_view();
    proof {
        assert(av.skip(0) =~= av);
        assert(bv.skip(0) =~= bv);
    }
    let mut i: usize = 0;
    while i < a.len() && i < b.len()
        invariant
            av == a.deep_view(),
            bv == b.deep_view(),
            0 <= i <= av.len(),
            0 <= i <= bv.len(),
            av.len() == a@.len(),
            bv.len() == b@.len(),
            spec_parts_le(av, bv) == spec_parts_le(av.skip(i as int), bv.skip(i as int)),
        decreases av.len() - i,
    {
        let sa = a[i].as_str();
        let sb = b[i].as_str();
        proof {
            assert(sa@ == av[i as int]);
            assert(sb@ == bv[i as int]);
            assert(av.skip(i as int)[0] == av[i as int]);
            assert(bv.skip(i as int)[0] == bv[i as int]);
        }
        if !bytes_eq(sa.as_bytes(), sb.as_bytes()) {
            return bytes_le(sa.as_bytes(), sb.as_bytes());
        }
        proof {
            assert(av.skip(i as int).skip(1) =~= av.skip(i + 1));
            assert(bv.skip(i as int).skip(1) =~= bv.skip(i + 1));
        }
        i += 1;
    }
    proof {
        assert(spec_parts_le(av.skip(i as int), bv.skip(i as int)) == (av.len() <= bv.len()));
    }
    a.len() <= b.len()
}

/// The display-order comparison of two paths.
pub fn path_le(a: &DirPath, b: &DirPath) -> (r: bool)
    ensures
        r == spec_path_le(a@, b@),
{
    if a.absolute != b.absolute {
        a.absolute
    } else {
        components_le(&a.components, &b.components)
    }
}

/// The textual form of a path: components joined by `/`, with a leading `/`
/// when the path is absolute.
pub open spec fn spec_native(p: PathModel) -> Seq<char> {
    if p.absolute {
        seq!['/'] + spec_join(p.parts)
    } else {
        spec_join(p.parts)
    }
}

/// The components joined by `/`, with no leading or trailing separator.
pub open spec fn spec_join(parts: Seq<Seq<char>>) -> Seq<char>
    decreases parts.len(),
{
    if parts.len() == 0 {
        Seq::empty()
    } else if parts.len() == 1 {
        parts[0]
    } else {
        spec_join(parts.drop_last()) + seq!['/'] + parts.last()
    }
}

impl DirPath {
    /// Renders the path as text, components joined by `/`.
    pub fn to_native(&self) -> (r: String)
        ensures
            r@ == spec_native(self@),
    {
        proof {
            reveal_strlit("/");
        }
        let mut s = String::new();
        if self.absolute {
            s.append("/");
        }
        proof {
            assert(s@ =~= (if self.absolute {
                seq!['/']
            } else {
                Seq::<char>::empty()
            }) + spec_join(self@.parts.take(0)));
        }
        let mut i: usize = 0;
        while i < self.components.len()
            invariant
                0 <= i <= self.components.len(),
                s@ == (if self.absolute {
                    seq!['/']
                } else {
                    Seq::<char>::empty()
                }) + spec_join(self@.parts.take(i as int)),
            decreases self.components.len() - i,
        {
            if i > 0 {
                s.append("/");
            }
            s.append(self.components[i].as_str());
            proof {
                reveal_strlit("/");
                let pre = if self.absolute {
                    seq!['/']
                } else {
                    Seq::<char>::empty()
                };
                let taken = self@.parts.take(i + 1);
                assert(self@.parts[i as int] == self.components@[i as int]@);
                assert(taken.drop_last() =~= self@.parts.take(i as int));
                assert(taken.last() == self@.parts[i as int]);
                if i == 0 {
                    assert(spec_join(taken) == taken[0]);
                    assert(s@ =~= pre + spec_join(taken));
                } else {
                    assert(spec_join(taken) == spec_join(self@.parts.take(i as int)) + seq![
                        '/',
                    ] + self@.parts[i as int]);
                    assert(s@ =~= pre + spec_join(taken));
                }
            }
            i += 1;
        }
        proof {
            assert(self@.parts.take(self.components.len() as int) =~= self@.parts);
            if !self.absolute {
                assert(Seq::<char>::empty() + spec_join(self@.parts) =~= spec_join(self@.parts));
            }
        }
        s
    }
}

} // verus!

