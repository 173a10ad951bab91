//! File paths.

use vstd::prelude::*;

verus! {

/// The name of a file, or an argument of a program. Names are arbitrary bytes.
pub type Name = Vec<u8>;

/// Makes a copy of a list of names.
pub fn duplicate_names(names: &Vec<Name>) -> (res: Vec<Name>)
    ensures
        res.deep_view() == names.deep_view(),
{
    let mut res: Vec<Name> = Vec::new();
    let mut i: usize = 0;
    while i < names.len()
        invariant
            i <= names.len(),
            res.len() == i,
            forall|j: int| 0 <= j < i ==> (#[trigger] res@[j])@ == names@[j]@,
        decreases names.len() - i,
    {
        let name: Name = names[i].clone();
        assert(name@ =~= names@[i as int]@);
        res.push(name);
        i += 1;
    }
    assert forall|j: int| 0 <= j < names.len() implies #[trigger] res.deep_view()[j]
        =~= names.deep_view()[j] by {
        assert(res@[j]@ == names@[j]@);
    }
    assert(res.deep_view() =~= names.deep_view());
    res
}

/// What a path stands for: whether it starts at the root, and its components.
pub struct PathView {
    /// Tells whether the path starts at the root directory.
    pub absolute: bool,
    /// The components, from first to last.
    pub parts: Seq<Seq<u8>>,
}

impl PathView {
    /// The path to the root directory.
    pub open spec fn root() -> PathView {
        PathView { absolute: true, parts: Seq::empty() }
    }

    /// The path reached by following `other` from this path. An absolute path
    /// leads to the same place from anywhere.
    pub open spec fn concat(self, other: PathView) -> PathView {
        if other.absolute {
            other
        } else {
            PathView { absolute: self.absolute, parts: self.parts + other.parts }
        }
    }
}

/// A path in the file system.
#[derive(Debug)]
pub struct Path {
    /// Tells whether the path starts at the root directory.
    absolute: bool,
    /// The components, from first to last.
    parts: Vec<Name>,
}

impl View for Path {
    type V = PathView;

    closed spec fn view(&self) -> PathView {
        PathView { absolute: self.absolute, parts: self.parts.deep_view() }
    }
}

impl Path {
    /// Creates a path out of its components.
    pub fn new(absolute: bool, parts: Vec<Name>) -> (res: Self)
        ensures
            res@ == (PathView { absolute, parts: parts.deep_view() }),
    {
        Self { absolute, parts }
    }

    /// Returns the path to the root directory.
    pub fn root() -> (res: Self)
        ensures
            res@ == PathView::root(),
    {
        let parts: Vec<Name> = Vec::new();
        assert(parts.deep_view() =~= Seq::<Seq<u8>>::empty());
        Self { absolute: true, parts }
    }

    /// Tells whether the path is absolute.
    pub fn is_absolute(&self) -> (res: bool)
        ensures
            res == self@.absolute,
    {
        self.absolute
    }

    /// Returns the components of the path.
    pub fn get_parts(&self) -> (res: &Vec<Name>)
        ensures
            res.deep_view() == self@.parts,
    {
        &self.parts
    }

    /// Makes a copy of the path.
    pub fn duplicate(&self) -> (res: Self)
        ensures
            res@ == self@,
    {
        Self { absolute: self.absolute, parts: duplicate_names(&self.parts) }
    }

    /// Returns the path reached by following `other` from this path.
    pub fn concat(&self, other: &Path) -> (res: Self)
        ensures
            res@ == self@.concat(other@),
    {
        if other.absolute {
            return other.duplicate();
        }
        let mut parts: Vec<Name> = duplicate_names(&self.parts);
        let mut tail: Vec<Name> = duplicate_names(&other.parts);
        let ghost head = parts.deep_view();
        let ghost rest = tail.deep_view();
        parts.append(&mut tail);
        assert(parts.deep_view() =~= head + rest);
        Self { absolute: self.absolute, parts }
    }
}

} // verus!
