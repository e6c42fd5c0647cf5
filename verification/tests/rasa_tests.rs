use rasa_nlu_api::error::Error;
use rasa_nlu_api::rasa::{CommonExample, Entity, EntitySynonym, RasaNLU, RasaNLUData, RegexFeature};

#[test]
fn entity_new_keeps_its_parts() {
    let span = Entity::new(3, 9, "flight".to_string(), "product".to_string()).unwrap();
    assert_eq!(span.start(), 3);
    assert_eq!(span.end(), 9);
    assert_eq!(span.value(), "flight");
    assert_eq!(span.entity(), "product");
}

#[test]
fn entity_new_accepts_an_empty_span_at_zero() {
    let span = Entity::new(0, 0, String::new(), String::new()).unwrap();
    assert_eq!(span.start(), 0);
    assert_eq!(span.end(), 0);
}

#[test]
fn entity_new_accepts_the_largest_offsets() {
    let span = Entity::new(i32::MAX, i32::MAX, "x".to_string(), "y".to_string()).unwrap();
    assert_eq!(span.start(), i32::MAX);
    assert_eq!(span.end(), i32::MAX);
}

#[test]
fn entity_new_refuses_a_negative_start() {
    assert_eq!(Entity::new(-1, 4, "x".to_string(), "y".to_string()), Err(Error::Decode));
    assert_eq!(Entity::new(i32::MIN, 0, "x".to_string(), "y".to_string()), Err(Error::Decode));
}

#[test]
fn entity_new_refuses_an_end_before_the_start() {
    assert_eq!(Entity::new(5, 4, "x".to_string(), "y".to_string()), Err(Error::Decode));
    assert_eq!(Entity::new(0, -1, "x".to_string(), "y".to_string()), Err(Error::Decode));
}

#[test]
fn entity_clone_is_equal() {
    let span = Entity::new(1, 2, "a".to_string(), "b".to_string()).unwrap();
    assert_eq!(span.clone(), span);
}

#[test]
fn record_clones_are_equal_and_independent() {
    let mut example = CommonExample {
        text: "hello".to_string(),
        intent: "greet".to_string(),
        entities: vec![Entity::new(0, 5, "hello".to_string(), "greeting".to_string()).unwrap()],
    };
    let copy = example.clone();
    assert_eq!(copy, example);
    example.entities.clear();
    example.text.push('!');
    assert_eq!(copy.text, "hello");
    assert_eq!(copy.entities.len(), 1);

    let feature = RegexFeature { name: "zip".to_string(), pattern: "[0-9]{5}".to_string() };
    assert_eq!(feature.clone(), feature);

    let mut synonym =
        EntitySynonym { value: "NY".to_string(), synonyms: vec!["nyc".to_string()] };
    let copy = synonym.clone();
    synonym.synonyms.push("big apple".to_string());
    assert_eq!(copy.synonyms, vec!["nyc".to_string()]);
}

#[test]
fn new_document_has_three_empty_collections() {
    let document = RasaNLUData::new();
    assert!(document.common_examples.is_empty());
    assert!(document.regex_features.is_empty());
    assert!(document.entity_synonyms.is_empty());
}

#[test]
fn new_envelope_holds_the_empty_document() {
    assert_eq!(RasaNLU::new().rasa_nlu_data, RasaNLUData::new());
}

#[test]
fn nothing_loaded_starts_from_the_empty_document() {
    let envelope = RasaNLU::loaded_or_empty(None);
    assert!(envelope.rasa_nlu_data.common_examples.is_empty());
    assert!(envelope.rasa_nlu_data.regex_features.is_empty());
    assert!(envelope.rasa_nlu_data.entity_synonyms.is_empty());
}

#[test]
fn what_was_loaded_is_what_starts() {
    let document = RasaNLUData {
        common_examples: Vec::new(),
        regex_features: vec![RegexFeature { name: "n".to_string(), pattern: "p".to_string() }],
        entity_synonyms: Vec::new(),
    };
    let envelope = RasaNLU::loaded_or_empty(Some(RasaNLU { rasa_nlu_data: document.clone() }));
    assert_eq!(envelope.rasa_nlu_data, document);
}
