//! The identity of a package: an optional owner and a name.

use crate::text::{chars_of, extend, find, position, string_of, string_of_range};
use vstd::prelude::*;

verus! {

/// A package as a registry addresses it.
#[derive(Debug, PartialEq, Eq, Clone)]
pub struct Package {
    pub owner: Option<String>,
    pub name: String,
}

/// What a `Package` holds, as text.
pub struct PackageView {
    pub owner: Option<Seq<char>>,
    pub name: Seq<char>,
}

impl View for Package {
    type V = PackageView;

    open spec fn view(&self) -> PackageView {
        PackageView {
            owner: match self.owner {
                Some(owner) => Some(owner@),
                None => None,
            },
            name: self.name@,
        }
    }
}

/// The number of `/` in `raw`.
pub open spec fn slashes(raw: Seq<char>) -> nat
    decreases raw.len(),
{
    if raw.len() == 0 {
        0
    } else if raw.last() == '/' {
        slashes(raw.drop_last()) + 1
    } else {
        slashes(raw.drop_last())
    }
}

impl PackageView {
    /// The identity that `raw` names. Without a `/` the whole of `raw` is the
    /// name and there is no owner. Otherwise the owner is what stands before
    /// the first `/`, and the name is what stands between the first `/` and
    /// the second, or the end: what a second `/` starts is dropped.
    pub open spec fn parse(raw: Seq<char>) -> PackageView {
        let cut = position(raw, '/');
        if cut == raw.len() {
            PackageView { owner: None, name: raw }
        } else {
            let rest = raw.skip(cut + 1);
            PackageView { owner: Some(raw.take(cut)), name: rest.take(position(rest, '/')) }
        }
    }

    /// The form that is shown: `owner/name`, or `name` alone.
    pub open spec fn display(self) -> Seq<char> {
        match self.owner {
            Some(owner) => owner + seq!['/'] + self.name,
            None => self.name,
        }
    }

    /// The form that names a file: `owner-name`, or `name` alone.
    pub open spec fn storage_key(self) -> Seq<char> {
        match self.owner {
            Some(owner) => owner + seq!['-'] + self.name,
            None => self.name,
        }
    }
}

impl Package {
    /// Splits `name` into owner and name. Every string is accepted.
    pub fn new(name: &str) -> (pkg: Package)
        ensures
            pkg@ == PackageView::parse(name@),
    {
        let raw = chars_of(name);
        let cut = find(raw.as_slice(), 0, '/');
        proof {
            assert(raw@.skip(0) == raw@);
        }
        if cut == raw.len() {
            return Package { owner: None, name: string_of(&raw) };
        }
        let end = find(raw.as_slice(), cut + 1, '/');
        let owner = string_of_range(&raw, 0, cut);
        let name = string_of_range(&raw, cut + 1, end);
        proof {
            let rest = raw@.skip(cut + 1);
            assert(raw@.subrange(cut + 1, end as int) == rest.take(position(rest, '/')));
        }
        Package { owner: Some(owner), name }
    }

    /// The name under which the package is stored on disk: the owner, where
    /// there is one, then `-`, then the name.
    pub fn name(&self) -> (key: String)
        ensures
            key@ == self@.storage_key(),
    {
        self.joined('-')
    }

    /// The package as it is shown: the owner, where there is one, then `/`,
    /// then the name.
    pub fn to_string(&self) -> (shown: String)
        ensures
            shown@ == self@.display(),
    {
        self.joined('/')
    }

    fn joined(&self, separator: char) -> (text: String)
        ensures
            text@ == match self@.owner {
                Some(owner) => owner + seq![separator] + self@.name,
                None => self@.name,
            },
    {
        let name = chars_of(self.name.as_str());
        match &self.owner {
            Some(owner) => {
                let mut out = chars_of(owner.as_str());
                out.push(separator);
                extend(&mut out, &name);
                string_of(&out)
            },
            None => string_of(&name),
        }
    }
}

/// A string with at most one `/` is what its package shows.
pub proof fn lemma_display_restores(raw: Seq<char>)
    requires
        slashes(raw) <= 1,
    ensures
        PackageView::parse(raw).display() == raw,
{
    let cut = position(raw, '/');
    crate::text::lemma_position(raw, '/');
    if cut < raw.len() {
        let rest = raw.skip(cut + 1);
        crate::text::lemma_position(rest, '/');
        lemma_slashes_split(raw, cut);
        let end = position(rest, '/');
        if end < rest.len() {
            lemma_slashes_split(rest, end);
        }
    }
}

/// A `/` at `at` counts once, beside those before it and those after it.
pub proof fn lemma_slashes_split(raw: Seq<char>, at: int)
    requires
        0 <= at < raw.len(),
        raw[at] == '/',
    ensures
        slashes(raw) == slashes(raw.take(at)) + 1 + slashes(raw.skip(at + 1)),
    decreases raw.len(),
{
    let front = raw.drop_last();
    if at < raw.len() - 1 {
        lemma_slashes_split(front, at);
        assert(front.take(at) == raw.take(at));
        assert(front.skip(at + 1) == raw.skip(at + 1).drop_last());
    }
}

} // verus!
