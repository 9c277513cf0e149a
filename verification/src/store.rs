//! The metadata store: what earlier builds left behind, by layer name.

use crate::layer::LayerTypes;
use crate::layer_env::{LayerEnv, Modification};
use crate::layer_name::LayerName;
use crate::layers::{LayerMetadata, MetadataView};
use crate::string_map::{has_key, lemma_entries_map, StringMap};
use vstd::prelude::*;

verus! {

/// What is kept for one layer: its types, its metadata, and the
/// environment modifications it produced.
#[derive(Debug)]
pub struct LayerRecord {
    pub types: LayerTypes,
    /// The metadata; `None` where something is kept that cannot be read as
    /// metadata.
    pub metadata: Option<LayerMetadata>,
    pub env: LayerEnv,
}

/// A record, as contracts speak of it.
pub struct RecordView {
    pub types: LayerTypes,
    pub metadata: Option<MetadataView>,
    pub env: Seq<Modification>,
}

impl View for LayerRecord {
    type V = RecordView;

    open spec fn view(&self) -> RecordView {
        RecordView {
            types: self.types,
            metadata: match self.metadata {
                Some(metadata) => Some(metadata@),
                None => None,
            },
            env: self.env@,
        }
    }
}

/// The records of the layers, each under the name of its layer. A layer
/// without a record is absent.
#[derive(Debug)]
pub struct MetadataStore {
    records: StringMap<LayerRecord>,
}

impl View for MetadataStore {
    type V = Map<Seq<char>, RecordView>;

    closed spec fn view(&self) -> Map<Seq<char>, RecordView> {
        self.records@
    }
}

impl MetadataStore {
    /// The store without records.
    pub fn new() -> (r: Self)
        ensures
            r@ == Map::<Seq<char>, RecordView>::empty(),
    {
        MetadataStore { records: StringMap::new() }
    }

    /// The number of records.
    pub fn len(&self) -> (r: usize)
        ensures
            self@.dom().finite(),
            r == self@.dom().len(),
    {
        self.records.len()
    }

    /// The record of the layer `name`, if there is one.
    pub fn load(&self, name: &LayerName) -> (r: Option<&LayerRecord>)
        ensures
            match r {
                Some(record) => self@.contains_key(name@) && record@ == self@[name@],
                None => !self@.contains_key(name@),
            },
    {
        self.records.get(name.as_str())
    }

    /// Keeps `record` for the layer `name`, in place of the record it had,
    /// if any.
    pub fn store(&mut self, name: &LayerName, record: LayerRecord)
        ensures
            final(self)@ == old(self)@.insert(name@, record@),
    {
        self.records.insert(name.as_str().to_owned(), record);
    }

    /// Drops the record of the layer `name`, and returns it if there was
    /// one.
    pub fn remove(&mut self, name: &LayerName) -> (r: Option<LayerRecord>)
        ensures
            final(self)@ == old(self)@.remove(name@),
            match r {
                Some(record) => old(self)@.contains_key(name@) && record@ == old(self)@[name@],
                None => !old(self)@.contains_key(name@),
            },
    {
        self.records.remove(name.as_str())
    }

    /// The names of the layers that have a record, each once.
    pub fn names(&self) -> (r: Vec<String>)
        ensures
            r@.len() == self@.dom().len(),
            forall|i: int| 0 <= i < r@.len() ==> self@.contains_key(#[trigger] r@[i]@),
            forall|i: int, j: int| 0 <= i < j < r@.len() ==> r@[i]@ != r@[j]@,
            forall|name: Seq<char>|
                self@.contains_key(name) ==> exists|i: int|
                    0 <= i < r@.len() && #[trigger] r@[i]@ == name,
    {
        let n = self.records.len();
        let mut names: Vec<String> = Vec::new();
        let mut i: usize = 0;
        while i < n
            invariant
                n == self.records.entries().len(),
                i <= n,
                names@.len() == i,
                forall|k: int| 0 <= k < i ==> (#[trigger] names@[k])@ == self.records.entries()[k].0@,
                forall|k: int| 0 <= k < i ==> self@.contains_key(#[trigger] names@[k]@),
            decreases n - i,
        {
            let (name, _) = self.records.entry(i);
            names.push(name.clone());
            i += 1;
        }
        proof {
            lemma_entries_map(self.records.entries());
            assert forall|name: Seq<char>| self@.contains_key(name) implies exists|i: int|
                0 <= i < names@.len() && #[trigger] names@[i]@ == name by {
                assert(has_key(self.records.entries(), name));
                let k = choose|k: int|
                    0 <= k < self.records.entries().len() && #[trigger] self.records.entries()[k].0@
                        == name;
                assert(names@[k]@ == name);
            }
        }
        names
    }
}

} // verus!
