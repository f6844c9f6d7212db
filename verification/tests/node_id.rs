use radix_engine_toolkit::error::Error;
use radix_engine_toolkit::node_id::NodeId;

fn sample() -> NodeId {
    let mut hash = [0u8; 32];
    for (i, byte) in hash.iter_mut().enumerate() {
        *byte = (i as u8) * 8 + 1;
    }
    NodeId((hash, 0x0403_0201))
}

#[test]
fn a_node_id_is_written_as_its_hash_and_its_index_lowest_byte_first() {
    assert_eq!(
        sample().to_string(),
        "0109111921293139414951596169717981899199a1a9b1b9c1c9d1d9e1e9f1f901020304"
    );
    assert_eq!(NodeId(([0; 32], 0)).to_string(), "0".repeat(72));
    assert_eq!(NodeId(([255; 32], u32::MAX)).to_string(), "f".repeat(72));
    assert_eq!(NodeId(([0; 32], 1)).to_string(), format!("{}01000000", "0".repeat(64)));
    assert_eq!(NodeId(([0; 32], 0xab00_0000)).to_string(), format!("{}000000ab", "0".repeat(64)));
}

#[test]
fn a_node_id_is_read_back_from_its_text() {
    for node_id in [sample(), NodeId(([0; 32], 0)), NodeId(([255; 32], u32::MAX)), NodeId(([7; 32], 256))] {
        assert_eq!(NodeId::from_str(&node_id.to_string()), Ok(node_id));
    }
}

#[test]
fn a_node_id_is_read_in_either_case() {
    let text = sample().to_string().to_uppercase();
    assert_ne!(text, sample().to_string());
    assert_eq!(NodeId::from_str(&text), Ok(sample()));
}

#[test]
fn a_text_of_another_length_or_with_other_characters_is_no_node_id() {
    let text = sample().to_string();
    assert_eq!(NodeId::from_str(""), Err(Error::DeserializationError));
    assert_eq!(NodeId::from_str(&text[..70]), Err(Error::DeserializationError));
    assert_eq!(NodeId::from_str(&text[..71]), Err(Error::DeserializationError));
    assert_eq!(NodeId::from_str(&format!("{}00", text)), Err(Error::DeserializationError));
    assert_eq!(NodeId::from_str(&format!("{}g", &text[..71])), Err(Error::DeserializationError));
    assert_eq!(NodeId::from_str(&format!("{}é", &text[..70])), Err(Error::DeserializationError));
    assert_eq!(NodeId::from_str(&"é".repeat(36)), Err(Error::DeserializationError));
    assert_eq!(NodeId::from_str(&" ".repeat(72)), Err(Error::DeserializationError));
}

#[test]
fn the_text_is_that_of_the_hex_crate() {
    let node_id = sample();
    let mut bytes = node_id.0 .0.to_vec();
    bytes.extend(node_id.0 .1.to_le_bytes());
    assert_eq!(node_id.to_string(), hex::encode(&bytes));
    assert_eq!(hex::decode(node_id.to_string()).unwrap(), bytes);
}
