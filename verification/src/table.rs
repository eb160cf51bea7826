//! The cache table: a mapping from source name to parsed document.
//!
//! Entries are created once, on the first request for a name, and never
//! updated or removed afterwards; a failed load leaves no entry behind. The
//! table's model is the mapping from each cached name to the model of its
//! document.

use vstd::prelude::*;
use crate::ConfigError;
use crate::extract::FromDocument;
use crate::json::{parse_document, parsed_doc, value_get, value_model};
use crate::node::{lookup, Node};
use crate::path::{seg_models, split_on_dot, split_path};
use crate::source::SourceReader;

verus! {

/// The mapping denoted by a list of named documents (keys are unique, so any
/// direction of reading gives the same mapping).
pub open spec fn entries_map(s: Seq<(String, serde_json::Value)>) -> Map<Seq<char>, Node>
    decreases s.len(),
{
    if s.len() == 0 {
        Map::empty()
    } else {
        entries_map(s.drop_last()).insert(s.last().0@, value_model(s.last().1))
    }
}

/// No two entries share a name.
pub open spec fn names_unique(s: Seq<(String, serde_json::Value)>) -> bool {
    forall|i: int, j: int|
        0 <= i < j < s.len() ==> (#[trigger] s[i]).0@ != (#[trigger] s[j]).0@
}

/// The answer a document table owes for `name` and `path`: resolve the name,
/// split the path, and descend.
pub open spec fn query_node(
    m: Map<Seq<char>, Node>,
    name: Seq<char>,
    path: Seq<char>,
) -> Option<Node> {
    if m.contains_key(name) {
        lookup(m[name], split_on_dot(path))
    } else {
        None
    }
}

/// Whether `r` is the typed answer that a table of contents `m` owes for
/// `name` and `path`: present exactly when the descent reaches a node of the
/// requested shape, and then that node's extraction.
pub open spec fn typed_answer<T: FromDocument>(
    m: Map<Seq<char>, Node>,
    name: Seq<char>,
    path: Seq<char>,
    r: Option<T>,
) -> bool {
    &&& (r is Some <==> (query_node(m, name, path) matches Some(n) && T::extractable(n)))
    &&& (query_node(m, name, path) matches Some(n) ==> (r matches Some(x) ==> T::matches_node(
        x,
        n,
    )))
}

/// An entry present in the list is present in the mapping, with its document.
proof fn lemma_entries_map_index(s: Seq<(String, serde_json::Value)>, i: int)
    requires
        names_unique(s),
        0 <= i < s.len(),
    ensures
        entries_map(s).contains_key(s[i].0@),
        entries_map(s)[s[i].0@] == value_model(s[i].1),
    decreases s.len(),
{
    if i < s.len() - 1 {
        assert(s.drop_last()[i] == s[i]);
        lemma_entries_map_index(s.drop_last(), i);
        assert(s[i].0@ != s.last().0@);
    }
}

/// A name on no entry is not in the mapping.
proof fn lemma_entries_map_absent(s: Seq<(String, serde_json::Value)>, k: Seq<char>)
    requires
        forall|i: int| 0 <= i < s.len() ==> (#[trigger] s[i]).0@ != k,
    ensures
        !entries_map(s).contains_key(k),
    decreases s.len(),
{
    if s.len() > 0 {
        assert(forall|i: int|
            0 <= i < s.drop_last().len() ==> (#[trigger] s.drop_last()[i]).0@ != k);
        lemma_entries_map_absent(s.drop_last(), k);
    }
}

/// The cache table. Lives behind the store's lock; every operation keeps the
/// entry names unique, and an entry, once made, is never changed.
pub struct Table {
    entries: Vec<(String, serde_json::Value)>,
}

impl View for Table {
    type V = Map<Seq<char>, Node>;

    closed spec fn view(&self) -> Map<Seq<char>, Node> {
        entries_map(self.entries@)
    }
}

impl Table {
    /// Entry names are unique.
    pub closed spec fn wf(&self) -> bool {
        names_unique(self.entries@)
    }

    /// The empty table.
    pub fn new() -> (t: Table)
        ensures
            t.wf(),
            t@ == Map::<Seq<char>, Node>::empty(),
    {
        Table { entries: Vec::new() }
    }

    /// The cached document for `name`, if there is one.
    fn find<'a>(&'a self, name: &str) -> (r: Option<&'a serde_json::Value>)
        requires
            self.wf(),
        ensures
            r is Some <==> self@.contains_key(name@),
            r matches Some(v) ==> self@.contains_key(name@) && value_model(*v) == self@[name@],
    {
        let wanted: String = name.to_owned();
        let mut i: usize = 0;
        while i < self.entries.len()
            invariant
                i <= self.entries@.len(),
                self.wf(),
                wanted@ == name@,
                forall|j: int| 0 <= j < i ==> (#[trigger] self.entries@[j]).0@ != name@,
            decreases self.entries@.len() - i,
        {
            if self.entries[i].0 == wanted {
                proof {
                    lemma_entries_map_index(self.entries@, i as int);
                }
                return Some(&self.entries[i].1);
            }
            i = i + 1;
        }
        proof {
            lemma_entries_map_absent(self.entries@, name@);
        }
        None
    }

    /// Whether a document is cached for `name`.
    pub fn contains(&self, name: &str) -> (r: bool)
        requires
            self.wf(),
        ensures
            r == self@.contains_key(name@),
    {
        match self.find(name) {
            Some(_) => true,
            None => false,
        }
    }

    /// Cache `v` as the document for the not-yet-cached `name`.
    fn insert(&mut self, name: &str, v: serde_json::Value)
        requires
            old(self).wf(),
            !old(self)@.contains_key(name@),
        ensures
            final(self).wf(),
            final(self)@ == old(self)@.insert(name@, value_model(v)),
    {
        proof {
            assert forall|i: int| 0 <= i < self.entries@.len() implies (
            #[trigger] self.entries@[i]).0@ != name@ by {
                lemma_entries_map_index(self.entries@, i);
            }
        }
        let entry = (name.to_owned(), v);
        proof {
            assert(self.entries@.push(entry).drop_last() =~= self.entries@);
        }
        self.entries.push(entry);
    }

    /// Take the outcome of fetching the not-yet-cached `name` and finish the
    /// load: no content is a `SourceUnavailable` failure, content that is not
    /// well-formed JSON is a `MalformedSource` failure, and neither leaves an
    /// entry behind; well-formed content is parsed and cached.
    pub fn load_fetched(&mut self, name: &str, fetched: Option<String>) -> (r: Result<
        (),
        ConfigError,
    >)
        requires
            old(self).wf(),
            !old(self)@.contains_key(name@),
        ensures
            final(self).wf(),
            fetched is None ==> r == Err::<(), ConfigError>(ConfigError::SourceUnavailable)
                && final(self)@ == old(self)@,
            fetched matches Some(t) ==> (parsed_doc(t@) is None ==> r == Err::<(), ConfigError>(
                ConfigError::MalformedSource,
            ) && final(self)@ == old(self)@),
            fetched matches Some(t) ==> (parsed_doc(t@) matches Some(d) ==> r is Ok
                && final(self)@ == old(self)@.insert(name@, d)),
    {
        match fetched {
            None => Err(ConfigError::SourceUnavailable),
            Some(text) => match parse_document(text.as_str()) {
                None => Err(ConfigError::MalformedSource),
                Some(v) => {
                    self.insert(name, v);
                    Ok(())
                },
            },
        }
    }

    /// Make sure a document for `name` is cached, fetching and parsing its
    /// source only when none is. A name already cached is answered without
    /// consulting the reader, and keeps its document; on failure the table is
    /// exactly what it was, with still no entry for `name`; names other than
    /// `name` are never affected.
    pub fn ensure<S: SourceReader>(&mut self, name: &str, source: &S) -> (r: Result<
        (),
        ConfigError,
    >)
        requires
            old(self).wf(),
        ensures
            final(self).wf(),
            old(self)@.contains_key(name@) ==> r is Ok && final(self)@ == old(self)@,
            r is Ok ==> final(self)@.contains_key(name@),
            r is Ok && !old(self)@.contains_key(name@) ==> final(self)@ == old(self)@.insert(
                name@,
                final(self)@[name@],
            ) && (exists|c: Seq<char>| parsed_doc(c) == Some(final(self)@[name@])),
            r is Err ==> final(self)@ == old(self)@ && !final(self)@.contains_key(name@),
            forall|k: Seq<char>|
                k != name@ ==> #[trigger] final(self)@.contains_key(k) == old(self)@.contains_key(
                    k,
                ),
            forall|k: Seq<char>|
                k != name@ && old(self)@.contains_key(k) ==> #[trigger] final(self)@[k] == old(
                    self,
                )@[k],
    {
        if self.contains(name) {
            return Ok(());
        }
        let fetched = source.fetch(name);
        let ghost snapshot = fetched;
        let r = self.load_fetched(name, fetched);
        proof {
            if r is Ok && !old(self)@.contains_key(name@) {
                let t = snapshot->0;
                assert(parsed_doc(t@) == Some(self@[name@]));
                assert(self@ == old(self)@.insert(name@, self@[name@]));
            }
        }
        r
    }

    /// Answer a typed query against the cached documents: resolve `name`,
    /// descend along the dot-path, and extract a `T`; absent names, failed
    /// descents and mismatched shapes all yield `None`.
    pub fn get<T: FromDocument>(&self, name: &str, path: &str) -> (r: Option<T>)
        requires
            self.wf(),
        ensures
            typed_answer::<T>(self@, name@, path@, r),
    {
        let root = match self.find(name) {
            Some(v) => v,
            None => {
                return None;
            },
        };
        let segs = split_path(path);
        let node = match walk(root, &segs) {
            Some(c) => c,
            None => {
                return None;
            },
        };
        T::extract(node)
    }
}

/// Independence across names: caching a document under one name never
/// changes what any query for a different name answers.
pub proof fn lemma_query_independent(
    m: Map<Seq<char>, Node>,
    loaded: Seq<char>,
    d: Node,
    name: Seq<char>,
    path: Seq<char>,
)
    requires
        loaded != name,
    ensures
        query_node(m.insert(loaded, d), name, path) == query_node(m, name, path),
{
}

/// Cache stability: a load only ever inserts a document under a name that
/// holds none, so every query against an already-cached name keeps its
/// answer, whatever the underlying source does afterwards.
pub proof fn lemma_cache_stability(
    m: Map<Seq<char>, Node>,
    loaded: Seq<char>,
    d: Node,
    name: Seq<char>,
    path: Seq<char>,
)
    requires
        m.contains_key(name),
        !m.contains_key(loaded),
    ensures
        query_node(m.insert(loaded, d), name, path) == query_node(m, name, path),
{
    lemma_query_independent(m, loaded, d, name, path);
}

/// Descend from `root` along `segs`, one object-key step per segment.
fn walk<'a>(root: &'a serde_json::Value, segs: &Vec<String>) -> (r: Option<
    &'a serde_json::Value,
>)
    ensures
        r is Some <==> lookup(value_model(*root), seg_models(segs@)) is Some,
        r matches Some(c) ==> lookup(value_model(*root), seg_models(segs@)) == Some(
            value_model(*c),
        ),
{
    let ghost all = seg_models(segs@);
    let mut cur = root;
    let mut i: usize = 0;
    proof {
        assert(all.skip(0) =~= all);
    }
    while i < segs.len()
        invariant
            i <= segs@.len(),
            all == seg_models(segs@),
            lookup(value_model(*root), all) == lookup(value_model(*cur), all.skip(i as int)),
        decreases segs@.len() - i,
    {
        proof {
            assert(all.skip(i as int).drop_first() =~= all.skip(i + 1));
        }
        cur = match value_get(cur, segs[i].as_str()) {
            Some(c) => c,
            None => {
                return None;
            },
        };
        i = i + 1;
    }
    proof {
        assert(all.skip(i as int) =~= Seq::<Seq<char>>::empty());
    }
    Some(cur)
}

} // verus!
