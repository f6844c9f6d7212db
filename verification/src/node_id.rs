//! Identifiers of nodes, and how they are written as text: the hash and the
//! index, in hexadecimal digits. The digits are written and read by the
//! crate `hex`.

use crate::error::Error;
use vstd::prelude::*;

verus! {

/// The sixteen digits, in their order.
pub open spec fn hex_digits() -> Seq<char> {
    seq!['0', '1', '2', '3', '4', '5', '6', '7', '8', '9', 'a', 'b', 'c', 'd', 'e', 'f']
}

/// The number that a hexadecimal digit stands for, in either case.
pub open spec fn hex_value(c: char) -> Option<int> {
    if c == '0' {
        Some(0)
    } else if c == '1' {
        Some(1)
    } else if c == '2' {
        Some(2)
    } else if c == '3' {
        Some(3)
    } else if c == '4' {
        Some(4)
    } else if c == '5' {
        Some(5)
    } else if c == '6' {
        Some(6)
    } else if c == '7' {
        Some(7)
    } else if c == '8' {
        Some(8)
    } else if c == '9' {
        Some(9)
    } else if c == 'a' || c == 'A' {
        Some(10)
    } else if c == 'b' || c == 'B' {
        Some(11)
    } else if c == 'c' || c == 'C' {
        Some(12)
    } else if c == 'd' || c == 'D' {
        Some(13)
    } else if c == 'e' || c == 'E' {
        Some(14)
    } else if c == 'f' || c == 'F' {
        Some(15)
    } else {
        None
    }
}

/// The bytes written in hexadecimal: two digits a byte, the high one first,
/// in lower case.
pub open spec fn hex_text(bytes: Seq<u8>) -> Seq<char> {
    Seq::new(
        2 * bytes.len(),
        |i: int|
            if i % 2 == 0 {
                hex_digits()[bytes[i / 2] as int / 16]
            } else {
                hex_digits()[bytes[i / 2] as int % 16]
            },
    )
}

/// Whether the text is an even number of hexadecimal digits.
pub open spec fn is_hex_text(text: Seq<char>) -> bool {
    text.len() % 2 == 0 && forall|i: int| 0 <= i < text.len() ==> hex_value(#[trigger] text[i]) is Some
}

/// The bytes that a text in hexadecimal stands for, where it is one.
pub open spec fn hex_bytes(text: Seq<char>) -> Option<Seq<u8>> {
    if is_hex_text(text) {
        Some(
            Seq::new(
                (text.len() / 2) as nat,
                |i: int| (16 * hex_value(text[2 * i])->0 + hex_value(text[2 * i + 1])->0) as u8,
            ),
        )
    } else {
        None
    }
}

/// What is written in hexadecimal is read back as it was.
pub proof fn lemma_hex_round_trip(bytes: Seq<u8>)
    ensures
        hex_bytes(hex_text(bytes)) == Some(bytes),
{
    let text = hex_text(bytes);
    assert forall|n: int| 0 <= n < 16 implies hex_value(#[trigger] hex_digits()[n]) == Some(n) by {
        if n == 0 {
        } else if n == 1 {
        } else if n == 2 {
        } else if n == 3 {
        } else if n == 4 {
        } else if n == 5 {
        } else if n == 6 {
        } else if n == 7 {
        } else if n == 8 {
        } else if n == 9 {
        } else if n == 10 {
        } else if n == 11 {
        } else if n == 12 {
        } else if n == 13 {
        } else if n == 14 {
        } else {
        }
    }
    assert forall|i: int| 0 <= i < text.len() implies hex_value(#[trigger] text[i]) is Some by {
        let byte = bytes[i / 2] as int;
        if i % 2 == 0 {
            assert(text[i] == hex_digits()[byte / 16]);
        } else {
            assert(text[i] == hex_digits()[byte % 16]);
        }
    }
    assert(is_hex_text(text));
    let read = hex_bytes(text)->0;
    assert(read.len() == bytes.len());
    assert forall|i: int| 0 <= i < bytes.len() implies read[i] == bytes[i] by {
        let byte = bytes[i] as int;
        assert((2 * i) / 2 == i && (2 * i + 1) / 2 == i);
        assert(text[2 * i] == hex_digits()[byte / 16]);
        assert(text[2 * i + 1] == hex_digits()[byte % 16]);
        assert(16 * (byte / 16) + byte % 16 == byte);
    }
    assert(read =~= bytes);
}

/// Calls `hex::encode` on the bytes. The contract claims what the
/// documentation of the function says: each byte is written as two digits
/// out of `0123456789abcdef`, the high half first.
#[verifier::external_body]
fn native_hex_encode(bytes: &Vec<u8>) -> (text: String)
    ensures
        text@ == hex_text(bytes@),
{
    hex::encode(bytes)
}

/// Calls `hex::decode` on the text, and gives the bytes where it succeeds.
/// The contract claims what the source of the function shows: it succeeds
/// on an even number of characters that are all digits out of `0` to `9`,
/// `a` to `f` and `A` to `F`, and then every two of them make a byte, the
/// first digit its high half.
#[verifier::external_body]
fn native_hex_decode(text: &str) -> (bytes: Option<Vec<u8>>)
    ensures
        bytes is Some <==> is_hex_text(text@),
        bytes matches Some(b) ==> hex_bytes(text@) == Some(b@),
{
    match hex::decode(text) {
        Ok(bytes) => Some(bytes),
        Err(_) => None,
    }
}

/// The four bytes of a number, the lowest first.
pub open spec fn le_bytes(index: u32) -> Seq<u8> {
    seq![
        (index & 0xff) as u8,
        ((index >> 8) & 0xff) as u8,
        ((index >> 16) & 0xff) as u8,
        ((index >> 24) & 0xff) as u8,
    ]
}

/// The number whose four bytes, the lowest first, are these.
pub open spec fn from_le_bytes(b0: u8, b1: u8, b2: u8, b3: u8) -> u32 {
    (b0 as u32) | ((b1 as u32) << 8) | ((b2 as u32) << 16) | ((b3 as u32) << 24)
}

/// The identifier of a node: the hash of the transaction that made it, and
/// its index among the nodes of that transaction.
#[derive(Clone, Copy, Debug, PartialEq, Eq, Hash)]
pub struct NodeId(pub ([u8; 32], u32));

impl NodeId {
    /// The 36 bytes of the identifier: the hash, then the index, its lowest
    /// byte first.
    pub open spec fn bytes(self) -> Seq<u8> {
        self.0.0@ + le_bytes(self.0.1)
    }

    /// The identifier as text.
    pub open spec fn text(self) -> Seq<char> {
        hex_text(self.bytes())
    }

    /// The identifier as text: its 36 bytes in hexadecimal.
    pub fn to_string(&self) -> (text: String)
        ensures
            text@ == self.text(),
    {
        let mut node_id_bytes: Vec<u8> = Vec::new();
        let mut i: usize = 0;
        while i < 32
            invariant
                0 <= i <= 32,
                node_id_bytes@ == self.0.0@.take(i as int),
            decreases 32 - i,
        {
            node_id_bytes.push(self.0.0[i]);
            assert(self.0.0@.take(i + 1) =~= self.0.0@.take(i as int).push(self.0.0@[i as int]));
            i += 1;
        }
        assert(self.0.0@.take(32) =~= self.0.0@);
        let index: u32 = self.0.1;
        assert((index & 0xff) < 256 && ((index >> 8) & 0xff) < 256 && ((index >> 16) & 0xff) < 256
            && ((index >> 24) & 0xff) < 256) by (bit_vector);
        node_id_bytes.push((index & 0xff) as u8);
        node_id_bytes.push(((index >> 8) & 0xff) as u8);
        node_id_bytes.push(((index >> 16) & 0xff) as u8);
        node_id_bytes.push(((index >> 24) & 0xff) as u8);
        assert(node_id_bytes@ =~= self.bytes());
        native_hex_encode(&node_id_bytes)
    }

    /// The identifier that a text stands for: 72 hexadecimal digits. Any
    /// other text stands for none.
    pub fn from_str(s: &str) -> (node_id: Result<NodeId, Error>)
        ensures
            node_id is Ok <==> (hex_bytes(s@) matches Some(bytes) && bytes.len() == 36),
            node_id matches Ok(n) ==> hex_bytes(s@) == Some(n.bytes()),
            node_id matches Err(e) ==> e == Error::DeserializationError,
    {
        let node_id_bytes = match native_hex_decode(s) {
            Some(bytes) => bytes,
            None => {
                return Err(Error::DeserializationError);
            },
        };
        if node_id_bytes.len() != 36 {
            return Err(Error::DeserializationError);
        }
        let mut hash: [u8; 32] = [0u8; 32];
        let mut i: usize = 0;
        while i < 32
            invariant
                0 <= i <= 32,
                node_id_bytes@.len() == 36,
                forall|j: int| 0 <= j < i ==> hash@[j] == node_id_bytes@[j],
            decreases 32 - i,
        {
            hash[i] = node_id_bytes[i];
            i += 1;
        }
        let b0: u8 = node_id_bytes[32];
        let b1: u8 = node_id_bytes[33];
        let b2: u8 = node_id_bytes[34];
        let b3: u8 = node_id_bytes[35];
        let index: u32 = (b0 as u32) | ((b1 as u32) << 8) | ((b2 as u32) << 16) | ((b3 as u32)
            << 24);
        proof {
            lemma_le_bytes_of_from_le_bytes(b0, b1, b2, b3);
        }
        let node_id = NodeId((hash, index));
        assert(node_id.bytes() =~= node_id_bytes@);
        Ok(node_id)
    }
}

/// The four bytes of the number that four bytes make are those four.
pub proof fn lemma_le_bytes_of_from_le_bytes(b0: u8, b1: u8, b2: u8, b3: u8)
    ensures
        le_bytes(from_le_bytes(b0, b1, b2, b3)) == seq![b0, b1, b2, b3],
{
    let index = from_le_bytes(b0, b1, b2, b3);
    assert((index & 0xff) as u8 == b0 && ((index >> 8) & 0xff) as u8 == b1 && ((index >> 16)
        & 0xff) as u8 == b2 && ((index >> 24) & 0xff) as u8 == b3) by (bit_vector)
        requires
            index == (b0 as u32) | ((b1 as u32) << 8) | ((b2 as u32) << 16) | ((b3 as u32) << 24),
    ;
    assert(le_bytes(index) =~= seq![b0, b1, b2, b3]);
}

/// The number that its own four bytes make is the number.
pub proof fn lemma_from_le_bytes_of_le_bytes(index: u32)
    ensures
        from_le_bytes(
            le_bytes(index)[0],
            le_bytes(index)[1],
            le_bytes(index)[2],
            le_bytes(index)[3],
        ) == index,
{
    assert((((index & 0xff) as u8) as u32) | ((((index >> 8) & 0xff) as u8) as u32) << 8 | ((((index
        >> 16) & 0xff) as u8) as u32) << 16 | ((((index >> 24) & 0xff) as u8) as u32) << 24
        == index) by (bit_vector);
}

/// An identifier written as text is read back as it was: the text of an
/// identifier stands for that identifier and for no other.
pub proof fn law_node_id_text_round_trip(node_id: NodeId, other: NodeId)
    ensures
        hex_bytes(node_id.text()) == Some(node_id.bytes()),
        node_id.bytes().len() == 36,
        other.bytes() == node_id.bytes() ==> other == node_id,
{
    lemma_hex_round_trip(node_id.bytes());
    if other.bytes() == node_id.bytes() {
        assert(other.0.0@ =~= node_id.0.0@) by {
            assert forall|i: int| 0 <= i < 32 implies other.0.0@[i] == node_id.0.0@[i] by {
                assert(other.bytes()[i] == other.0.0@[i]);
                assert(node_id.bytes()[i] == node_id.0.0@[i]);
            }
        }
        assert(le_bytes(other.0.1) =~= le_bytes(node_id.0.1)) by {
            assert forall|i: int| 0 <= i < 4 implies le_bytes(other.0.1)[i] == le_bytes(
                node_id.0.1,
            )[i] by {
                assert(other.bytes()[32 + i] == le_bytes(other.0.1)[i]);
                assert(node_id.bytes()[32 + i] == le_bytes(node_id.0.1)[i]);
            }
        }
        lemma_from_le_bytes_of_le_bytes(other.0.1);
        lemma_from_le_bytes_of_le_bytes(node_id.0.1);
        assert(other.0.1 == node_id.0.1);
        assert(other.0.0 == node_id.0.0);
    }
}

} // verus!
