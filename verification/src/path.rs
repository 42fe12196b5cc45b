//! Filesystem paths as plain values: an anchor and the names below it.

use crate::text::{join_names, join_strings, texts};
use vstd::prelude::*;
use vstd::string::*;

verus! {

/// What a path is: the text of its anchor (a root such as `/` or `C:\`, or
/// nothing for a relative path) and the names of its components, outermost
/// first.
pub struct PathView {
    pub anchor: Seq<char>,
    pub components: Seq<Seq<char>>,
}

impl PathView {
    /// The path one level below `self`, under the name `name`.
    pub open spec fn join(self, name: Seq<char>) -> PathView {
        PathView { anchor: self.anchor, components: self.components.push(name) }
    }

    /// Whether a level above `self` exists.
    pub open spec fn has_parent(self) -> bool {
        self.components.len() > 0
    }

    /// The path one level above `self` (meaningful where `has_parent`).
    pub open spec fn parent(self) -> PathView {
        PathView { anchor: self.anchor, components: self.components.drop_last() }
    }

    /// The path `levels` levels above `self`, stopping at the anchor.
    pub open spec fn ancestor(self, levels: nat) -> PathView
        decreases levels,
    {
        if levels == 0 || !self.has_parent() {
            self
        } else {
            self.parent().ancestor((levels - 1) as nat)
        }
    }

    /// The text of the path with `separator` between its components.
    pub open spec fn render(self, separator: Seq<char>) -> Seq<char> {
        self.anchor + join_names(self.components, separator)
    }
}

/// Whether a file name has an extension: a `.` that is not its first
/// character. The name `..`, which stands for the level above, has none.
pub open spec fn name_has_extension(name: Seq<char>) -> bool {
    name != ".."@ && exists|i: int| 1 <= i < name.len() && name[i] == '.'
}

/// A filesystem path held as plain values.
#[derive(Debug, PartialEq, Eq)]
pub struct FsPath {
    pub anchor: String,
    pub components: Vec<String>,
}

impl View for FsPath {
    type V = PathView;

    open spec fn view(&self) -> PathView {
        PathView { anchor: self.anchor@, components: texts(self.components@) }
    }
}

impl Clone for FsPath {
    fn clone(&self) -> (r: Self)
        ensures
            r@ == self@,
    {
        let mut components: Vec<String> = Vec::new();
        let mut i: usize = 0;
        while i < self.components.len()
            invariant
                i <= self.components.len(),
                components.len() == i,
                forall|j: int| 0 <= j < i ==> components[j]@ == self.components[j]@,
            decreases self.components.len() - i,
        {
            components.push(self.components[i].clone());
            i += 1;
        }
        assert(texts(components@) =~= texts(self.components@));
        FsPath { anchor: self.anchor.clone(), components }
    }
}

impl FsPath {
    /// The path that is `anchor` alone.
    pub fn new(anchor: &str) -> (r: FsPath)
        ensures
            r@ == (PathView { anchor: anchor@, components: Seq::empty() }),
    {
        let r = FsPath { anchor: anchor.to_owned(), components: Vec::new() };
        assert(texts(r.components@) =~= Seq::empty());
        r
    }

    /// The path one level below `self`, under the name `name`.
    pub fn join(&self, name: &str) -> (r: FsPath)
        ensures
            r@ == self@.join(name@),
    {
        let mut r = self.clone();
        r.components.push(name.to_owned());
        assert(texts(r.components@) =~= self@.components.push(name@));
        r
    }

    /// The path one level above `self`, or `None` where `self` is its anchor.
    pub fn parent(&self) -> (r: Option<FsPath>)
        ensures
            r is Some <==> self@.has_parent(),
            r matches Some(p) ==> p@ == self@.parent(),
    {
        if self.components.len() == 0 {
            None
        } else {
            let mut p = self.clone();
            p.components.pop();
            assert(texts(p.components@) =~= self@.components.drop_last());
            Some(p)
        }
    }

    /// Moves `self` one level up. Returns `false`, leaving `self` as it was,
    /// where it is its anchor.
    pub fn pop(&mut self) -> (moved: bool)
        ensures
            moved == old(self)@.has_parent(),
            moved ==> final(self)@ == old(self)@.parent(),
            !moved ==> final(self)@ == old(self)@,
    {
        if self.components.len() == 0 {
            false
        } else {
            self.components.pop();
            assert(texts(self.components@) =~= old(self)@.components.drop_last());
            true
        }
    }

    /// The text of the path, with `separator` between its components.
    pub fn render(&self, separator: &str) -> (r: String)
        ensures
            r@ == self@.render(separator@),
    {
        let mut r = self.anchor.clone();
        r.append(join_strings(&self.components, separator).as_str());
        r
    }

    /// Whether the last component has an extension. A path without
    /// components has none.
    pub fn has_extension(&self) -> (r: bool)
        ensures
            r == (self@.has_parent() && name_has_extension(self@.components.last())),
    {
        let n = self.components.len();
        if n == 0 {
            return false;
        }
        let name = self.components[n - 1].as_str();
        let len = name.unicode_len();
        proof {
            reveal_strlit("..");
        }
        if len == 2 && name.get_char(0) == '.' && name.get_char(1) == '.' {
            assert(name@ =~= ".."@);
            return false;
        }
        let mut i: usize = 1;
        while i < len
            invariant
                1 <= i,
                len == name@.len(),
                self@.has_parent(),
                name@ == self@.components.last(),
                name@ != ".."@,
                forall|j: int| 1 <= j < i && j < len ==> name@[j] != '.',
            decreases len - i,
        {
            if name.get_char(i) == '.' {
                return true;
            }
            i += 1;
        }
        false
    }

    /// Whether the two paths are the same.
    pub fn same_as(&self, other: &FsPath) -> (same: bool)
        ensures
            same == (self@ == other@),
    {
        if self.anchor != other.anchor {
            return false;
        }
        if self.components.len() != other.components.len() {
            assert(self@.components.len() != other@.components.len());
            return false;
        }
        let mut i: usize = 0;
        while i < self.components.len()
            invariant
                i <= self.components.len(),
                self.components.len() == other.components.len(),
                forall|j: int| 0 <= j < i ==> self@.components[j] == other@.components[j],
            decreases self.components.len() - i,
        {
            if self.components[i] != other.components[i] {
                assert(self@.components[i as int] != other@.components[i as int]);
                return false;
            }
            i += 1;
        }
        assert(self@.components =~= other@.components);
        true
    }
}

} // verus!
