//! The store: the one live document and the operations that read and change
//! it.
//!
//! The store owns its document, and nothing else can reach it. An operation
//! that changes the document takes the store by `&mut`, so it runs alone from
//! beginning to end: no other operation sees the document between its bound
//! check and its change, or half changed. What an operation hands out is a
//! copy, which later changes to the store do not touch.

use crate::collection::{append, appended, index_check, remove_at, removed_at, replace_at, replaced_at};
use crate::error::Error;
use crate::rasa::{
    CommonExample, EntitySynonym, RasaNLUData, RasaNLUDataView, RegexFeature,
};
use vstd::prelude::*;

verus! {

/// The owner of the live document. Its model is the model of that document.
pub struct Store {
    data: RasaNLUData,
}

impl View for Store {
    type V = RasaNLUDataView;

    closed spec fn view(&self) -> RasaNLUDataView {
        self.data@
    }
}

/// The models of the records of `after` are those of `before` with the model
/// of `record` appended.
proof fn lemma_models_appended<T: DeepView>(before: Vec<T>, after: Vec<T>, record: T)
    requires
        after@ == appended(before@, record),
    ensures
        after.deep_view() == appended(before.deep_view(), record.deep_view()),
{
    assert(after.deep_view() =~= before.deep_view().push(record.deep_view()));
}

/// Replacing a record replaces its model, at the same position.
proof fn lemma_models_replaced_at<T: DeepView>(
    before: Vec<T>,
    after: Vec<T>,
    index: int,
    record: T,
)
    requires
        after@ == replaced_at(before@, index, record),
    ensures
        after.deep_view() == replaced_at(before.deep_view(), index, record.deep_view()),
{
    assert(after.deep_view() =~= replaced_at(before.deep_view(), index, record.deep_view()));
}

/// Removing a record removes its model, at the same position.
proof fn lemma_models_removed_at<T: DeepView>(before: Vec<T>, after: Vec<T>, index: int)
    requires
        after@ == removed_at(before@, index),
    ensures
        after.deep_view() == removed_at(before.deep_view(), index),
{
    assert(after.deep_view() =~= removed_at(before.deep_view(), index));
}

impl Store {
    /// A store whose document is empty.
    pub fn new() -> (store: Store)
        ensures
            store@ == RasaNLUDataView::empty(),
    {
        Store { data: RasaNLUData::new() }
    }

    /// A copy of the whole document as it is now.
    pub fn snapshot(&self) -> (document: RasaNLUData)
        ensures
            document@ == self@,
    {
        self.data.clone()
    }

    /// Puts `document` in the place of the live document, which is dropped.
    pub fn replace_document(&mut self, document: RasaNLUData)
        ensures
            final(self)@ == document@,
    {
        self.data = document;
    }

    /// A copy of the examples, in their order.
    pub fn list_examples(&self) -> (records: Vec<CommonExample>)
        ensures
            records.deep_view() == self@.common_examples,
    {
        let records = self.data.common_examples.clone();
        assert(records.deep_view() =~= self.data.common_examples.deep_view());
        records
    }

    /// Adds `record` behind the last example.
    pub fn append_example(&mut self, record: CommonExample)
        ensures
            final(self)@ == (RasaNLUDataView {
                common_examples: appended(old(self)@.common_examples, record@),
                ..old(self)@
            }),
    {
        let ghost before = self.data.common_examples;
        append(&mut self.data.common_examples, record);
        proof {
            lemma_models_appended(before, self.data.common_examples, record);
        }
    }

    /// Puts `record` in the place of the example at `index`. Where `index`
    /// holds no example the store stays as it was.
    pub fn replace_example_at(&mut self, index: usize, record: CommonExample) -> (res: Result<(), Error>)
        ensures
            res == index_check(old(self)@.common_examples, index as int),
            final(self)@ == (RasaNLUDataView {
                common_examples: replaced_at(old(self)@.common_examples, index as int, record@),
                ..old(self)@
            }),
    {
        let ghost before = self.data.common_examples;
        let res = replace_at(&mut self.data.common_examples, index, record);
        proof {
            lemma_models_replaced_at(before, self.data.common_examples, index as int, record);
        }
        res
    }

    /// Takes the example at `index` out; the examples behind it move one
    /// position forward. Where `index` holds no example the store stays as it
    /// was.
    pub fn remove_example_at(&mut self, index: usize) -> (res: Result<(), Error>)
        ensures
            res == index_check(old(self)@.common_examples, index as int),
            final(self)@ == (RasaNLUDataView {
                common_examples: removed_at(old(self)@.common_examples, index as int),
                ..old(self)@
            }),
    {
        let ghost before = self.data.common_examples;
        let res = remove_at(&mut self.data.common_examples, index);
        proof {
            lemma_models_removed_at(before, self.data.common_examples, index as int);
        }
        res
    }

    /// A copy of the regex features, in their order.
    pub fn list_regex_features(&self) -> (records: Vec<RegexFeature>)
        ensures
            records.deep_view() == self@.regex_features,
    {
        let records = self.data.regex_features.clone();
        assert(records.deep_view() =~= self.data.regex_features.deep_view());
        records
    }

    /// Adds `record` behind the last regex feature.
    pub fn append_regex_feature(&mut self, record: RegexFeature)
        ensures
            final(self)@ == (RasaNLUDataView {
                regex_features: appended(old(self)@.regex_features, record@),
                ..old(self)@
            }),
    {
        let ghost before = self.data.regex_features;
        append(&mut self.data.regex_features, record);
        proof {
            lemma_models_appended(before, self.data.regex_features, record);
        }
    }

    /// Puts `record` in the place of the regex feature at `index`. Where `index`
    /// holds no regex feature the store stays as it was.
    pub fn replace_regex_feature_at(&mut self, index: usize, record: RegexFeature) -> (res: Result<(), Error>)
        ensures
            res == index_check(old(self)@.regex_features, index as int),
            final(self)@ == (RasaNLUDataView {
                regex_features: replaced_at(old(self)@.regex_features, index as int, record@),
                ..old(self)@
            }),
    {
        let ghost before = self.data.regex_features;
        let res = replace_at(&mut self.data.regex_features, index, record);
        proof {
            lemma_models_replaced_at(before, self.data.regex_features, index as int, record);
        }
        res
    }

    /// Takes the regex feature at `index` out; the regex features behind it move one
    /// position forward. Where `index` holds no regex feature the store stays as it
    /// was.
    pub fn remove_regex_feature_at(&mut self, index: usize) -> (res: Result<(), Error>)
        ensures
            res == index_check(old(self)@.regex_features, index as int),
            final(self)@ == (RasaNLUDataView {
                regex_features: removed_at(old(self)@.regex_features, index as int),
                ..old(self)@
            }),
    {
        let ghost before = self.data.regex_features;
        let res = remove_at(&mut self.data.regex_features, index);
        proof {
            lemma_models_removed_at(before, self.data.regex_features, index as int);
        }
        res
    }

    /// A copy of the synonyms, in their order.
    pub fn list_synonyms(&self) -> (records: Vec<EntitySynonym>)
        ensures
            records.deep_view() == self@.entity_synonyms,
    {
        let records = self.data.entity_synonyms.clone();
        assert(records.deep_view() =~= self.data.entity_synonyms.deep_view());
        records
    }

    /// Adds `record` behind the last synonym.
    pub fn append_synonym(&mut self, record: EntitySynonym)
        ensures
            final(self)@ == (RasaNLUDataView {
                entity_synonyms: appended(old(self)@.entity_synonyms, record@),
                ..old(self)@
            }),
    {
        let ghost before = self.data.entity_synonyms;
        append(&mut self.data.entity_synonyms, record);
        proof {
            lemma_models_appended(before, self.data.entity_synonyms, record);
        }
    }

    /// Puts `record` in the place of the synonym at `index`. Where `index`
    /// holds no synonym the store stays as it was.
    pub fn replace_synonym_at(&mut self, index: usize, record: EntitySynonym) -> (res: Result<(), Error>)
        ensures
            res == index_check(old(self)@.entity_synonyms, index as int),
            final(self)@ == (RasaNLUDataView {
                entity_synonyms: replaced_at(old(self)@.entity_synonyms, index as int, record@),
                ..old(self)@
            }),
    {
        let ghost before = self.data.entity_synonyms;
        let res = replace_at(&mut self.data.entity_synonyms, index, record);
        proof {
            lemma_models_replaced_at(before, self.data.entity_synonyms, index as int, record);
        }
        res
    }

    /// Takes the synonym at `index` out; the synonyms behind it move one
    /// position forward. Where `index` holds no synonym the store stays as it
    /// was.
    pub fn remove_synonym_at(&mut self, index: usize) -> (res: Result<(), Error>)
        ensures
            res == index_check(old(self)@.entity_synonyms, index as int),
            final(self)@ == (RasaNLUDataView {
                entity_synonyms: removed_at(old(self)@.entity_synonyms, index as int),
                ..old(self)@
            }),
    {
        let ghost before = self.data.entity_synonyms;
        let res = remove_at(&mut self.data.entity_synonyms, index);
        proof {
            lemma_models_removed_at(before, self.data.entity_synonyms, index as int);
        }
        res
    }
}

} // verus!
