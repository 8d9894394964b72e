use blockchain::canonical::{encode_block, push_json_number, push_json_string};
use blockchain::{Block, Blockchain};
use serde::ser::{Serialize, SerializeStruct, Serializer};

fn block(index: usize, timestamp: &str, proof: u64, previous_hash: &str) -> Block {
    Block {
        index,
        timestamp: timestamp.to_string(),
        proof,
        previous_hash: previous_hash.to_string(),
    }
}

fn quoted(text: &str) -> String {
    let mut out = Vec::new();
    push_json_string(&mut out, text);
    String::from_utf8(out).unwrap()
}

/// The four fields of a block, serialised member by member in their order.
struct Members<'a>(&'a Block);

impl Serialize for Members<'_> {
    fn serialize<S: Serializer>(&self, serializer: S) -> Result<S::Ok, S::Error> {
        let mut members = serializer.serialize_struct("Block", 4)?;
        members.serialize_field("index", &self.0.index)?;
        members.serialize_field("timestamp", &self.0.timestamp)?;
        members.serialize_field("proof", &self.0.proof)?;
        members.serialize_field("previous_hash", &self.0.previous_hash)?;
        members.end()
    }
}

#[test]
fn push_json_string_quotes_plain_text() {
    assert_eq!(quoted(""), "\"\"");
    assert_eq!(quoted("0"), "\"0\"");
    assert_eq!(quoted("1700000000000"), "\"1700000000000\"");
}

#[test]
fn push_json_string_escapes_quote_and_backslash() {
    assert_eq!(quoted("a\"b"), "\"a\\\"b\"");
    assert_eq!(quoted("a\\b"), "\"a\\\\b\"");
}

#[test]
fn push_json_string_uses_short_escapes() {
    assert_eq!(quoted("\u{8}\t\n\u{c}\r"), "\"\\b\\t\\n\\f\\r\"");
}

#[test]
fn push_json_string_escapes_other_control_characters() {
    assert_eq!(quoted("\u{0}"), "\"\\u0000\"");
    assert_eq!(quoted("\u{1}\u{b}\u{e}"), "\"\\u0001\\u000b\\u000e\"");
    assert_eq!(quoted("\u{1f}"), "\"\\u001f\"");
}

#[test]
fn push_json_string_keeps_other_bytes() {
    assert_eq!(quoted(" /\u{7f}"), "\" /\u{7f}\"");
    assert_eq!(quoted("h\u{e9}llo \u{4e16}\u{754c} \u{1f600}"), "\"h\u{e9}llo \u{4e16}\u{754c} \u{1f600}\"");
}

#[test]
fn push_json_string_agrees_with_serde_json() {
    let mut every_ascii = String::new();
    for code in 0u8..128 {
        every_ascii.push(code as char);
    }
    for text in ["", "0", "plain", "a\"b\\c", "\u{0}\u{1f} \u{7f}", "\u{e9}\u{4e16}\u{1f600}", every_ascii.as_str()] {
        assert_eq!(quoted(text), serde_json::to_string(text).unwrap());
    }
}

#[test]
fn push_json_string_appends_to_what_is_there() {
    let mut out = b"x:".to_vec();
    push_json_string(&mut out, "y");
    assert_eq!(out, b"x:\"y\"");
}

#[test]
fn push_json_number_writes_decimal() {
    let mut out = Vec::new();
    push_json_number(&mut out, 0);
    out.push(b',');
    push_json_number(&mut out, 18_446_744_073_709_551_615);
    assert_eq!(out, b"0,18446744073709551615");
}

#[test]
fn encode_block_of_genesis() {
    let genesis = block(1, "1700000000000", 1, "0");
    assert_eq!(
        encode_block(&genesis),
        b"{\"index\":1,\"timestamp\":\"1700000000000\",\"proof\":1,\"previous_hash\":\"0\"}"
    );
}

#[test]
fn encode_block_keeps_member_order() {
    let text = String::from_utf8(encode_block(&block(2, "5", 3, "ab"))).unwrap();
    let index = text.find("\"index\"").unwrap();
    let timestamp = text.find("\"timestamp\"").unwrap();
    let proof = text.find("\"proof\"").unwrap();
    let previous_hash = text.find("\"previous_hash\"").unwrap();
    assert!(index < timestamp && timestamp < proof && proof < previous_hash);
    assert_eq!(text, "{\"index\":2,\"timestamp\":\"5\",\"proof\":3,\"previous_hash\":\"ab\"}");
}

#[test]
fn encode_block_escapes_its_strings() {
    let odd = block(7, "a\"b", u64::MAX, "c\\d\n");
    assert_eq!(
        encode_block(&odd),
        b"{\"index\":7,\"timestamp\":\"a\\\"b\",\"proof\":18446744073709551615,\"previous_hash\":\"c\\\\d\\n\"}"
    );
}

#[test]
fn encode_block_agrees_with_serde_json() {
    let blocks = [
        block(1, "1700000000000", 1, "0"),
        block(2, "1700000000001", 56_330, "407ece2ca01b4fd9bc35a684426dd0367542a6cae442b2f9ff5f5a0176983029"),
        block(usize::MAX, "", 0, ""),
        block(3, "t\"\\\u{1}\u{e9}", u64::MAX, "\u{1f600}\r\n"),
    ];
    for block in &blocks {
        let expected = serde_json::to_string(&Members(block)).unwrap();
        assert_eq!(String::from_utf8(encode_block(block)).unwrap(), expected);
    }
}

#[test]
fn hash_of_genesis_is_the_known_digest() {
    let chain = Blockchain::new();
    let genesis = block(1, "1700000000000", 1, "0");
    assert_eq!(
        chain.hash(&genesis),
        "407ece2ca01b4fd9bc35a684426dd0367542a6cae442b2f9ff5f5a0176983029"
    );
}

#[test]
fn hash_is_sixty_four_lowercase_hex_digits() {
    let chain = Blockchain::new();
    let digest = chain.hash(&block(9, "123", 456, "abc"));
    assert_eq!(digest.len(), 64);
    assert!(digest.chars().all(|c| c.is_ascii_digit() || ('a'..='f').contains(&c)));
}

#[test]
fn hash_is_the_same_on_every_call() {
    let chain = Blockchain::new();
    let some_block = block(4, "1700000000123", 84_464, "00ff");
    let first = chain.hash(&some_block);
    let second = chain.hash(&some_block);
    assert_eq!(first, second);
    assert_eq!(first, Blockchain::new().hash(&some_block.clone()));
}

#[test]
fn hash_depends_on_every_field() {
    let chain = Blockchain::new();
    let base = chain.hash(&block(1, "1700000000000", 1, "0"));
    assert_ne!(chain.hash(&block(2, "1700000000000", 1, "0")), base);
    assert_ne!(chain.hash(&block(1, "1700000000001", 1, "0")), base);
    assert_ne!(chain.hash(&block(1, "1700000000000", 2, "0")), base);
    assert_ne!(chain.hash(&block(1, "1700000000000", 1, "1")), base);
}
