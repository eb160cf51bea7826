//! Where raw source text comes from.
//!
//! The store itself never touches a storage medium: it asks a
//! [`SourceReader`] for the text of a named source and parses whatever comes
//! back. An in-memory reader is provided; callers that read files or sockets
//! implement the trait outside the library.

use vstd::prelude::*;

verus! {

/// A provider of raw source text. `fetch` returns the current content of the
/// named source, or `None` when no content can be obtained. No further
/// behaviour is assumed of an implementation; the store states what it does
/// with every possible outcome.
pub trait SourceReader {
    /// The text of the source called `name`, if it can be obtained.
    fn fetch(&self, name: &str) -> Option<String>;
}

/// An in-memory [`SourceReader`]: a list of named texts, where setting a name
/// again shadows the earlier text.
pub struct MapSource {
    entries: Vec<(String, String)>,
}

/// The mapping that a list of named texts denotes: a later entry for the
/// same name wins.
pub open spec fn text_map(s: Seq<(String, String)>) -> Map<Seq<char>, Seq<char>>
    decreases s.len(),
{
    if s.len() == 0 {
        Map::empty()
    } else {
        text_map(s.drop_last()).insert(s.last().0@, s.last().1@)
    }
}

impl View for MapSource {
    type V = Map<Seq<char>, Seq<char>>;

    closed spec fn view(&self) -> Map<Seq<char>, Seq<char>> {
        text_map(self.entries@)
    }
}

impl MapSource {
    /// A reader with no sources.
    pub fn new() -> (s: MapSource)
        ensures
            s@ == Map::<Seq<char>, Seq<char>>::empty(),
    {
        MapSource { entries: Vec::new() }
    }

    /// Make `text` the current content of the source called `name`.
    pub fn set(&mut self, name: &str, text: &str)
        ensures
            final(self)@ == old(self)@.insert(name@, text@),
    {
        let entry = (name.to_owned(), text.to_owned());
        proof {
            assert(self.entries@.push(entry).drop_last() =~= self.entries@);
        }
        self.entries.push(entry);
    }

    /// The current content of the source called `name`, if any: the text of
    /// its latest entry.
    pub fn lookup(&self, name: &str) -> (r: Option<String>)
        ensures
            r is Some <==> self@.contains_key(name@),
            r matches Some(t) ==> self@.contains_key(name@) && t@ == self@[name@],
    {
        let wanted: String = name.to_owned();
        let mut i: usize = self.entries.len();
        proof {
            assert(self.entries@.subrange(0, i as int) =~= self.entries@);
        }
        while i > 0
            invariant
                i <= self.entries@.len(),
                wanted@ == name@,
                text_map(self.entries@).contains_key(name@) <==> text_map(
                    self.entries@.subrange(0, i as int),
                ).contains_key(name@),
                text_map(self.entries@).contains_key(name@) ==> text_map(self.entries@)[name@]
                    == text_map(self.entries@.subrange(0, i as int))[name@],
            decreases i,
        {
            i = i - 1;
            proof {
                assert(self.entries@.subrange(0, i + 1).drop_last() =~= self.entries@.subrange(
                    0,
                    i as int,
                ));
                assert(self.entries@.subrange(0, i + 1).last() == self.entries@[i as int]);
            }
            if self.entries[i].0 == wanted {
                return Some(self.entries[i].1.clone());
            }
        }
        proof {
            assert(self.entries@.subrange(0, 0) =~= Seq::<(String, String)>::empty());
        }
        None
    }
}

impl SourceReader for MapSource {
    /// Serve the latest text set for `name`.
    fn fetch(&self, name: &str) -> Option<String> {
        self.lookup(name)
    }
}

} // verus!
