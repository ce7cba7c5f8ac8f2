use vstd::prelude::*;
use std::path::PathBuf;
use crate::text::views;

verus! {

#[verifier::external_type_specification]
#[verifier::external_body]
pub struct ExPathBuf(std::path::PathBuf);

/// Where a path starts: a text (a configured or expanded directory), or a
/// directory the platform gave, held as it came since it need not be text.
#[derive(Debug, PartialEq, Eq)]
pub enum PathBase {
    Text(String),
    Native(PathBuf),
}

/// A path: a base with components joined to it in order, each by
/// `Path::join`. Joining is left to `Path::join` because its rules differ
/// between platforms.
#[derive(Clone, Debug, PartialEq, Eq)]
pub struct Location {
    pub base: PathBase,
    pub parts: Vec<String>,
}

/// The base of a path, in mathematical form.
pub enum BaseView {
    Text(Seq<char>),
    Native(PathBuf),
}

/// A path in mathematical form: its base and its components.
pub struct LocationView {
    pub base: BaseView,
    pub parts: Seq<Seq<char>>,
}

impl LocationView {
    /// The path with one more component.
    pub open spec fn child(self, part: Seq<char>) -> LocationView {
        LocationView { base: self.base, parts: self.parts.push(part) }
    }
}

/// A path that is this text alone.
pub open spec fn text_location(s: Seq<char>) -> LocationView {
    LocationView { base: BaseView::Text(s), parts: Seq::<Seq<char>>::empty() }
}

/// A directory the platform gave, with these components below it.
pub open spec fn native_location(p: PathBuf, parts: Seq<Seq<char>>) -> LocationView {
    LocationView { base: BaseView::Native(p), parts }
}

impl View for Location {
    type V = LocationView;

    open spec fn view(&self) -> LocationView {
        LocationView {
            base: match self.base {
                PathBase::Text(t) => BaseView::Text(t@),
                PathBase::Native(p) => BaseView::Native(p),
            },
            parts: views(self.parts@),
        }
    }
}

/// `PathBuf::clone`: an equal path.
#[verifier::external_body]
fn clone_native(p: &PathBuf) -> (r: PathBuf)
    ensures
        r == *p,
{
    p.clone()
}

impl Clone for PathBase {
    fn clone(&self) -> (r: PathBase)
        ensures
            r == *self,
    {
        match self {
            PathBase::Text(t) => PathBase::Text(t.clone()),
            PathBase::Native(p) => PathBase::Native(clone_native(p)),
        }
    }
}

impl Location {
    /// The path that is this text.
    pub fn from_text(s: String) -> (r: Location)
        ensures
            r@ == text_location(s@),
    {
        let r = Location { base: PathBase::Text(s), parts: Vec::new() };
        assert(views(r.parts@) =~= Seq::<Seq<char>>::empty());
        r
    }

    /// The directory the platform gave.
    pub fn from_native(p: PathBuf) -> (r: Location)
        ensures
            r@ == native_location(p, Seq::<Seq<char>>::empty()),
    {
        let r = Location { base: PathBase::Native(p), parts: Vec::new() };
        assert(views(r.parts@) =~= Seq::<Seq<char>>::empty());
        r
    }

    /// The path with one more component below it.
    pub fn child(&self, part: &str) -> (r: Location)
        ensures
            r@ == self@.child(part@),
    {
        let base = self.base.clone();
        let mut parts: Vec<String> = Vec::new();
        let n = self.parts.len();
        let mut i: usize = 0;
        while i < n
            invariant
                n == self.parts@.len(),
                i <= n,
                views(parts@) == views(self.parts@).subrange(0, i as int),
            decreases n - i,
        {
            let ghost before = views(parts@);
            parts.push(self.parts[i].clone());
            assert(views(parts@) =~= before.push(self.parts@[i as int]@));
            assert(views(self.parts@).subrange(0, i + 1) =~= views(self.parts@).subrange(0, i as int).push(self.parts@[i as int]@));
            i = i + 1;
        }
        assert(views(self.parts@).subrange(0, n as int) =~= views(self.parts@));
        let ghost before = views(parts@);
        parts.push(part.to_string());
        assert(views(parts@) =~= before.push(part@));
        Location { base, parts }
    }
}

} // verus!
