//! The payload that flows through the pipeline.
use vstd::prelude::*;
use vstd::string::*;
use crate::value::{Value, ValueView};

verus! {

/// What a package carries: a structured value, or bytes.
#[derive(Debug)]
pub enum Content {
    Value(Value),
    Bytes(Vec<u8>),
}

/// The mathematical model of a [`Content`].
pub enum ContentView {
    Value(ValueView),
    Bytes(Seq<u8>),
}

impl View for Content {
    type V = ContentView;

    open spec fn view(&self) -> ContentView {
        match *self {
            Content::Value(v) => ContentView::Value(v@),
            Content::Bytes(b) => ContentView::Bytes(b@),
        }
    }
}

/// A named unit of data.
#[derive(Debug)]
pub struct Package {
    pub name: String,
    pub content: Content,
}

/// The mathematical model of a [`Package`].
pub struct PackageView {
    pub name: Seq<char>,
    pub content: ContentView,
}

impl View for Package {
    type V = PackageView;

    open spec fn view(&self) -> PackageView {
        PackageView { name: self.name@, content: self.content@ }
    }
}

impl Package {
    pub fn new(name: &str, content: Content) -> (r: Package)
        ensures
            r.name@ == name@,
            r.content == content,
    {
        Package { name: String::from_str(name), content }
    }

    pub fn name(&self) -> (r: &str)
        ensures
            r@ == self.name@,
    {
        self.name.as_str()
    }

    pub fn content(&self) -> (r: &Content)
        ensures
            *r == self.content,
    {
        &self.content
    }

    /// The package under the same name with `content` in place of what it
    /// carried.
    pub fn set_value(self, content: Content) -> (r: Package)
        ensures
            r.name == self.name,
            r.content == content,
    {
        Package { name: self.name, content }
    }
}

/// The bytes of `parts`, one part after the other.
pub open spec fn joined(parts: Seq<Vec<u8>>) -> Seq<u8>
    decreases parts.len(),
{
    if parts.len() == 0 {
        Seq::empty()
    } else {
        joined(parts.drop_last()) + parts.last()@
    }
}

/// Joins `parts` into one run of bytes, in their order.
pub fn concat_bytes(parts: &Vec<Vec<u8>>) -> (r: Vec<u8>)
    ensures
        r@ == joined(parts@),
{
    let mut out: Vec<u8> = Vec::new();
    let mut i: usize = 0;
    assert(parts@.take(0) == Seq::<Vec<u8>>::empty());
    while i < parts.len()
        invariant
            i <= parts.len(),
            out@ == joined(parts@.take(i as int)),
        decreases parts.len() - i,
    {
        let part = &parts[i];
        let ghost before = out@;
        let mut j: usize = 0;
        while j < part.len()
            invariant
                j <= part.len(),
                out@ == before + part@.take(j as int),
            decreases part.len() - j,
        {
            out.push(part[j]);
            assert(part@.take(j + 1) == part@.take(j as int).push(part@[j as int]));
            j += 1;
        }
        assert(part@.take(j as int) == part@);
        assert(parts@.take(i + 1).drop_last() == parts@.take(i as int));
        assert(parts@.take(i + 1).last() == parts@[i as int]);
        i += 1;
    }
    assert(parts@.take(i as int) == parts@);
    out
}

} // verus!
