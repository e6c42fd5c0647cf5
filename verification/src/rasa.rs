//! The records of a training-data document, the document itself and the
//! envelope it is saved in, each with its mathematical model.

use crate::error::Error;
use vstd::prelude::*;

verus! {

/// Model of an [`Entity`]: a labelled span `start..end` of an example's text.
pub struct EntityView {
    pub start: int,
    pub end: int,
    pub value: Seq<char>,
    pub entity: Seq<char>,
}

impl EntityView {
    /// The offsets that a span may have: it starts at or after the beginning
    /// of the text and does not end before it starts.
    pub open spec fn valid_span(start: int, end: int) -> bool {
        0 <= start <= end
    }
}

/// A labelled span inside the text of a [`CommonExample`].
///
/// Every value satisfies `0 <= start <= end`; [`Entity::new`] is the only way
/// to make one.
#[derive(Debug, PartialEq, Eq)]
pub struct Entity {
    start: i32,
    end: i32,
    value: String,
    entity: String,
}

impl View for Entity {
    type V = EntityView;

    closed spec fn view(&self) -> EntityView {
        EntityView {
            start: self.start as int,
            end: self.end as int,
            value: self.value@,
            entity: self.entity@,
        }
    }
}

impl DeepView for Entity {
    type V = EntityView;

    open spec fn deep_view(&self) -> EntityView {
        self@
    }
}

impl Entity {
    #[verifier::type_invariant]
    spec fn well_formed(self) -> bool {
        EntityView::valid_span(self.start as int, self.end as int)
    }

    /// Makes the span `start..end` labelled `entity`, whose text is `value`.
    /// Offsets that are no valid span are refused.
    pub fn new(start: i32, end: i32, value: String, entity: String) -> (res: Result<Entity, Error>)
        ensures
            EntityView::valid_span(start as int, end as int) ==> res is Ok && res->Ok_0@ == (EntityView {
                start: start as int,
                end: end as int,
                value: value@,
                entity: entity@,
            }),
            !EntityView::valid_span(start as int, end as int) ==> res == Err::<Entity, Error>(
                Error::Decode,
            ),
    {
        if 0 <= start && start <= end {
            Ok(Entity { start, end, value, entity })
        } else {
            Err(Error::Decode)
        }
    }

    /// The offset at which the span starts.
    pub fn start(&self) -> (r: i32)
        ensures
            r == self@.start,
            EntityView::valid_span(self@.start, self@.end),
    {
        proof {
            use_type_invariant(self);
        }
        self.start
    }

    /// The offset at which the span ends.
    pub fn end(&self) -> (r: i32)
        ensures
            r == self@.end,
            EntityView::valid_span(self@.start, self@.end),
    {
        proof {
            use_type_invariant(self);
        }
        self.end
    }

    /// The text that the span covers.
    pub fn value(&self) -> (r: &String)
        ensures
            r@ == self@.value,
    {
        &self.value
    }

    /// The label of the span.
    pub fn entity(&self) -> (r: &String)
        ensures
            r@ == self@.entity,
    {
        &self.entity
    }
}

impl Clone for Entity {
    fn clone(&self) -> (res: Self)
        ensures
            res@ == self@,
    {
        proof {
            use_type_invariant(self);
        }
        Entity {
            start: self.start,
            end: self.end,
            value: self.value.clone(),
            entity: self.entity.clone(),
        }
    }
}

/// Model of a [`CommonExample`].
pub struct CommonExampleView {
    pub text: Seq<char>,
    pub intent: Seq<char>,
    pub entities: Seq<EntityView>,
}

/// A sentence with the intent it expresses and the entity spans marked in it.
#[derive(Debug, PartialEq, Eq)]
pub struct CommonExample {
    pub text: String,
    pub intent: String,
    pub entities: Vec<Entity>,
}

impl View for CommonExample {
    type V = CommonExampleView;

    open spec fn view(&self) -> CommonExampleView {
        CommonExampleView {
            text: self.text@,
            intent: self.intent@,
            entities: self.entities.deep_view(),
        }
    }
}

impl DeepView for CommonExample {
    type V = CommonExampleView;

    open spec fn deep_view(&self) -> CommonExampleView {
        self@
    }
}

impl Clone for CommonExample {
    fn clone(&self) -> (res: Self)
        ensures
            res@ == self@,
    {
        let res = CommonExample {
            text: self.text.clone(),
            intent: self.intent.clone(),
            entities: self.entities.clone(),
        };
        assert(res.entities.deep_view() =~= self.entities.deep_view());
        res
    }
}

/// Model of a [`RegexFeature`].
pub struct RegexFeatureView {
    pub name: Seq<char>,
    pub pattern: Seq<char>,
}

/// A named pattern. The pattern is kept as text and never compiled.
#[derive(Debug, PartialEq, Eq)]
pub struct RegexFeature {
    pub name: String,
    pub pattern: String,
}

impl View for RegexFeature {
    type V = RegexFeatureView;

    open spec fn view(&self) -> RegexFeatureView {
        RegexFeatureView { name: self.name@, pattern: self.pattern@ }
    }
}

impl DeepView for RegexFeature {
    type V = RegexFeatureView;

    open spec fn deep_view(&self) -> RegexFeatureView {
        self@
    }
}

impl Clone for RegexFeature {
    fn clone(&self) -> (res: Self)
        ensures
            res@ == self@,
    {
        RegexFeature { name: self.name.clone(), pattern: self.pattern.clone() }
    }
}

/// Model of an [`EntitySynonym`].
pub struct EntitySynonymView {
    pub value: Seq<char>,
    pub synonyms: Seq<Seq<char>>,
}

/// A canonical value and the other surface forms that stand for it. Several
/// records may carry the same value.
#[derive(Debug, PartialEq, Eq)]
pub struct EntitySynonym {
    pub value: String,
    pub synonyms: Vec<String>,
}

impl View for EntitySynonym {
    type V = EntitySynonymView;

    open spec fn view(&self) -> EntitySynonymView {
        EntitySynonymView { value: self.value@, synonyms: self.synonyms.deep_view() }
    }
}

impl DeepView for EntitySynonym {
    type V = EntitySynonymView;

    open spec fn deep_view(&self) -> EntitySynonymView {
        self@
    }
}

impl Clone for EntitySynonym {
    fn clone(&self) -> (res: Self)
        ensures
            res@ == self@,
    {
        let res = EntitySynonym { value: self.value.clone(), synonyms: self.synonyms.clone() };
        assert(res.synonyms.deep_view() =~= self.synonyms.deep_view());
        res
    }
}

/// Model of a [`RasaNLUData`]: three sequences that do not refer to each
/// other.
pub struct RasaNLUDataView {
    pub common_examples: Seq<CommonExampleView>,
    pub regex_features: Seq<RegexFeatureView>,
    pub entity_synonyms: Seq<EntitySynonymView>,
}

impl RasaNLUDataView {
    /// The document that holds no record.
    pub open spec fn empty() -> RasaNLUDataView {
        RasaNLUDataView {
            common_examples: Seq::empty(),
            regex_features: Seq::empty(),
            entity_synonyms: Seq::empty(),
        }
    }
}

/// The training-data document: examples, regex features and entity synonyms,
/// each in the order in which its records were added.
#[derive(Debug, PartialEq, Eq)]
pub struct RasaNLUData {
    pub common_examples: Vec<CommonExample>,
    pub regex_features: Vec<RegexFeature>,
    pub entity_synonyms: Vec<EntitySynonym>,
}

impl View for RasaNLUData {
    type V = RasaNLUDataView;

    open spec fn view(&self) -> RasaNLUDataView {
        RasaNLUDataView {
            common_examples: self.common_examples.deep_view(),
            regex_features: self.regex_features.deep_view(),
            entity_synonyms: self.entity_synonyms.deep_view(),
        }
    }
}

impl DeepView for RasaNLUData {
    type V = RasaNLUDataView;

    open spec fn deep_view(&self) -> RasaNLUDataView {
        self@
    }
}

impl RasaNLUData {
    /// The empty document.
    pub fn new() -> (res: Self)
        ensures
            res@ == RasaNLUDataView::empty(),
    {
        let res = Self {
            common_examples: Vec::new(),
            regex_features: Vec::new(),
            entity_synonyms: Vec::new(),
        };
        assert(res.common_examples.deep_view() =~= Seq::empty());
        assert(res.regex_features.deep_view() =~= Seq::empty());
        assert(res.entity_synonyms.deep_view() =~= Seq::empty());
        res
    }
}

impl Clone for RasaNLUData {
    fn clone(&self) -> (res: Self)
        ensures
            res@ == self@,
    {
        let res = RasaNLUData {
            common_examples: self.common_examples.clone(),
            regex_features: self.regex_features.clone(),
            entity_synonyms: self.entity_synonyms.clone(),
        };
        assert(res.common_examples.deep_view() =~= self.common_examples.deep_view());
        assert(res.regex_features.deep_view() =~= self.regex_features.deep_view());
        assert(res.entity_synonyms.deep_view() =~= self.entity_synonyms.deep_view());
        res
    }
}

/// Model of a [`RasaNLU`].
pub struct RasaNLUView {
    pub rasa_nlu_data: RasaNLUDataView,
}

/// The envelope in which a document is saved: one field, the document.
#[derive(Debug, PartialEq, Eq)]
pub struct RasaNLU {
    pub rasa_nlu_data: RasaNLUData,
}

impl View for RasaNLU {
    type V = RasaNLUView;

    open spec fn view(&self) -> RasaNLUView {
        RasaNLUView { rasa_nlu_data: self.rasa_nlu_data@ }
    }
}

impl RasaNLUView {
    /// The envelope of the empty document.
    pub open spec fn empty() -> RasaNLUView {
        RasaNLUView { rasa_nlu_data: RasaNLUDataView::empty() }
    }
}

impl RasaNLU {
    /// The envelope of the empty document.
    pub fn new() -> (res: Self)
        ensures
            res@ == RasaNLUView::empty(),
    {
        Self { rasa_nlu_data: RasaNLUData::new() }
    }

    /// The envelope to start from. `loaded` is what the saved file gave:
    /// `None` where it is missing, cannot be read or does not decode. Starting
    /// never fails: without a loaded envelope it begins with the empty one.
    pub fn loaded_or_empty(loaded: Option<RasaNLU>) -> (res: Self)
        ensures
            res@ == (match loaded {
                Some(envelope) => envelope@,
                None => RasaNLUView::empty(),
            }),
    {
        match loaded {
            Some(envelope) => envelope,
            None => RasaNLU::new(),
        }
    }
}

} // verus!
