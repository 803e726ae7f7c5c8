use circuit_gen::document::{document, render, Document};
use circuit_gen::error::{ConfigError, Parameter};
use circuit_gen::field::FieldElement;
use circuit_gen::hash::HashFunction;
use circuit_gen::witness::{encode, encode_leaf, WitnessValue};

fn scalar(value: u64) -> WitnessValue {
    WitnessValue::Scalar(FieldElement::new(value))
}

fn text_of(value: u64) -> String {
    format!("0x{:064x}", value)
}

fn field(value: u64) -> Document {
    Document::Tagged("field".to_string(), Box::new(Document::Text(text_of(value))))
}

fn tagged_list(key: &str, items: Vec<Document>) -> Document {
    Document::Tagged(key.to_string(), Box::new(Document::List(items)))
}

fn to_json(node: &Document) -> serde_json::Value {
    match node {
        Document::Text(text) => serde_json::Value::String(text.clone()),
        Document::List(items) => serde_json::Value::Array(items.iter().map(to_json).collect()),
        Document::Tagged(key, content) => {
            let mut object = serde_json::Map::new();
            object.insert(key.clone(), to_json(content));
            serde_json::Value::Object(object)
        }
    }
}

#[test]
fn sha2_256_three_leaves() {
    let (private, public) = encode(3, HashFunction::Sha2_256).unwrap();
    let expected = WitnessValue::Array(vec![WitnessValue::Vector(vec![
        WitnessValue::Vector(vec![scalar(0), scalar(1)]),
        WitnessValue::Vector(vec![scalar(0), scalar(2)]),
        WitnessValue::Vector(vec![scalar(0), scalar(3)]),
    ])]);
    assert_eq!(private, expected);
    assert_eq!(public, WitnessValue::Array(vec![]));
}

#[test]
fn sha2_512_uses_the_same_layout() {
    let (private, public) = encode(2, HashFunction::Sha2_512).unwrap();
    let expected = WitnessValue::Array(vec![WitnessValue::Vector(vec![
        WitnessValue::Vector(vec![scalar(0), scalar(1)]),
        WitnessValue::Vector(vec![scalar(0), scalar(2)]),
    ])]);
    assert_eq!(private, expected);
    assert_eq!(public, WitnessValue::Array(vec![]));
}

#[test]
fn poseidon_five_leaves() {
    let (private, public) = encode(5, HashFunction::Poseidon).unwrap();
    let expected = WitnessValue::Array(vec![WitnessValue::Vector(vec![
        scalar(1),
        scalar(2),
        scalar(3),
        scalar(4),
        scalar(5),
    ])]);
    assert_eq!(private, expected);
    assert_eq!(public, WitnessValue::Array(vec![]));
}

#[test]
fn poseidon_single_leaf() {
    let (private, _) = encode(1, HashFunction::Poseidon).unwrap();
    assert_eq!(private, WitnessValue::Array(vec![WitnessValue::Vector(vec![scalar(1)])]));
}

#[test]
fn encoding_no_leaves_is_rejected() {
    for hash in [HashFunction::Poseidon, HashFunction::Sha2_256, HashFunction::Sha2_512] {
        assert_eq!(
            encode(0, hash),
            Err(ConfigError::InvalidConfiguration { parameter: Parameter::Leaves, value: 0 })
        );
    }
}

#[test]
fn encoding_twice_gives_the_same_inputs() {
    for hash in [HashFunction::Poseidon, HashFunction::Sha2_256, HashFunction::Sha2_512] {
        let first = encode(40, hash).unwrap();
        let second = encode(40, hash).unwrap();
        assert_eq!(first, second);
        let first_text = serde_json::to_string_pretty(&to_json(&document(&first.0))).unwrap();
        let second_text = serde_json::to_string_pretty(&to_json(&document(&second.0))).unwrap();
        assert_eq!(first_text, second_text);
    }
}

#[test]
fn leaf_entries() {
    assert_eq!(encode_leaf(HashFunction::Poseidon, 7), scalar(7));
    assert_eq!(
        encode_leaf(HashFunction::Sha2_256, 7),
        WitnessValue::Vector(vec![scalar(0), scalar(7)])
    );
    assert_eq!(
        encode_leaf(HashFunction::Sha2_512, 9),
        WitnessValue::Vector(vec![scalar(0), scalar(9)])
    );
}

#[test]
fn field_text_is_fixed_width_hexadecimal() {
    assert_eq!(
        FieldElement::new(0).text(),
        "0x0000000000000000000000000000000000000000000000000000000000000000"
    );
    assert_eq!(
        FieldElement::new(1).text(),
        "0x0000000000000000000000000000000000000000000000000000000000000001"
    );
    assert_eq!(
        FieldElement::new(255).text(),
        "0x00000000000000000000000000000000000000000000000000000000000000ff"
    );
    assert_eq!(
        FieldElement::new(0x1234_5678_9abc_def0).text(),
        format!("0x{}{}", "0".repeat(48), "123456789abcdef0")
    );
    assert_eq!(
        FieldElement::new(u64::MAX).text(),
        "0x000000000000000000000000000000000000000000000000ffffffffffffffff"
    );
}

#[test]
fn field_text_matches_the_formula() {
    for value in [0u64, 1, 9, 10, 15, 16, 17, 4095, 4096, 65535, 1 << 32, u64::MAX - 1] {
        let text = FieldElement::new(value).text();
        assert_eq!(text.len(), 66);
        assert_eq!(text, text_of(value));
    }
}

#[test]
fn field_text_is_what_the_field_prints() {
    for value in [0u64, 3, 1 << 40, u64::MAX] {
        let element = pasta_curves::Fp::from(value);
        assert_eq!(FieldElement::new(value).text(), format!("{:?}", element));
    }
}

#[test]
fn field_text_reads_back_to_the_value() {
    for value in [1u64, 2, 3, 1000, 123_456_789, u64::MAX] {
        let text = FieldElement::new(value).text();
        let digits = text.strip_prefix("0x").unwrap();
        assert_eq!(u128::from_str_radix(&digits[32..], 16).unwrap(), value as u128);
        assert_eq!(u128::from_str_radix(&digits[..32], 16).unwrap(), 0);
    }
}

#[test]
fn distinct_elements_have_distinct_text() {
    let texts: Vec<String> = (0..300u64).map(|v| FieldElement::new(v).text()).collect();
    for i in 0..texts.len() {
        for j in 0..i {
            assert_ne!(texts[i], texts[j]);
        }
    }
}

#[test]
fn poseidon_document() {
    let (private, public) = encode(2, HashFunction::Poseidon).unwrap();
    assert_eq!(
        document(&private),
        Document::List(vec![tagged_list("array", vec![field(1), field(2)])])
    );
    assert_eq!(document(&public), Document::List(vec![]));
}

#[test]
fn sha2_document() {
    let (private, public) = encode(2, HashFunction::Sha2_256).unwrap();
    assert_eq!(
        document(&private),
        Document::List(vec![tagged_list(
            "array",
            vec![
                tagged_list("vector", vec![field(0), field(1)]),
                tagged_list("vector", vec![field(0), field(2)]),
            ]
        )])
    );
    assert_eq!(document(&public), Document::List(vec![]));
}

#[test]
fn vector_key_depends_on_the_place() {
    let group = WitnessValue::Vector(vec![scalar(4)]);
    assert_eq!(render(&group, true), tagged_list("array", vec![field(4)]));
    assert_eq!(render(&group, false), tagged_list("vector", vec![field(4)]));
    assert_eq!(document(&group), tagged_list("vector", vec![field(4)]));
    assert_eq!(render(&scalar(4), true), field(4));
    assert_eq!(render(&scalar(4), false), field(4));
    let nested = WitnessValue::Array(vec![WitnessValue::Array(vec![]), scalar(1)]);
    assert_eq!(
        render(&nested, true),
        Document::List(vec![Document::List(vec![]), field(1)])
    );
}

#[test]
fn poseidon_private_input_as_pretty_text() {
    let (private, public) = encode(2, HashFunction::Poseidon).unwrap();
    let text = serde_json::to_string_pretty(&to_json(&document(&private))).unwrap();
    let expected = [
        "[",
        "  {",
        "    \"array\": [",
        "      {",
        "        \"field\": \"0x0000000000000000000000000000000000000000000000000000000000000001\"",
        "      },",
        "      {",
        "        \"field\": \"0x0000000000000000000000000000000000000000000000000000000000000002\"",
        "      }",
        "    ]",
        "  }",
        "]",
    ]
    .join("\n");
    assert_eq!(text, expected);
    let text = serde_json::to_string_pretty(&to_json(&document(&public))).unwrap();
    assert_eq!(text, "[]");
}

#[test]
fn poseidon_private_input_round_trip() {
    let leaf_count = 25usize;
    let (private, _) = encode(leaf_count, HashFunction::Poseidon).unwrap();
    let text = serde_json::to_string_pretty(&to_json(&document(&private))).unwrap();
    let parsed: serde_json::Value = serde_json::from_str(&text).unwrap();
    let outer = parsed.as_array().unwrap();
    assert_eq!(outer.len(), 1);
    let entries = outer[0].as_object().unwrap().get("array").unwrap().as_array().unwrap();
    assert_eq!(entries.len(), leaf_count);
    for (index, entry) in entries.iter().enumerate() {
        let object = entry.as_object().unwrap();
        assert_eq!(object.len(), 1);
        let digits = object.get("field").unwrap().as_str().unwrap();
        let digits = digits.strip_prefix("0x").unwrap();
        assert_eq!(digits.len(), 64);
        assert_eq!(u128::from_str_radix(&digits[..32], 16).unwrap(), 0);
        assert_eq!(u128::from_str_radix(&digits[32..], 16).unwrap(), index as u128 + 1);
    }
}

#[test]
fn sha2_private_input_round_trip() {
    let (private, _) = encode(3, HashFunction::Sha2_256).unwrap();
    let text = serde_json::to_string_pretty(&to_json(&document(&private))).unwrap();
    let parsed: serde_json::Value = serde_json::from_str(&text).unwrap();
    let entries = parsed[0]["array"].as_array().unwrap();
    assert_eq!(entries.len(), 3);
    for (index, entry) in entries.iter().enumerate() {
        let block = entry["vector"].as_array().unwrap();
        assert_eq!(block.len(), 2);
        assert_eq!(block[0]["field"].as_str().unwrap(), text_of(0));
        assert_eq!(block[1]["field"].as_str().unwrap(), text_of(index as u64 + 1));
    }
}
