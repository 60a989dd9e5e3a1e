use vstd::prelude::*;
use crate::error::WorldError;
use crate::text::{hex_char, hex_digits, push_char};

verus! {

/// The value of a hexadecimal digit, upper or lower case; -1 for any other
/// character.
pub open spec fn hex_value(c: char) -> int {
    let v = c as int;
    if 48 <= v <= 57 {
        v - 48
    } else if 97 <= v <= 102 {
        v - 87
    } else if 65 <= v <= 70 {
        v - 55
    } else {
        -1
    }
}

/// Text that names a commit: one to forty hexadecimal digits.
pub open spec fn is_commit_text(s: Seq<char>) -> bool {
    &&& 0 < s.len() <= 40
    &&& forall|i: int| 0 <= i < s.len() ==> hex_value(#[trigger] s[i]) >= 0
}

/// The value of the digit at position `p`, zero past the end of `s`.
pub open spec fn nibble_at(s: Seq<char>, p: int) -> int {
    if p < s.len() {
        hex_value(s[p])
    } else {
        0
    }
}

/// The twenty bytes that commit text names: the digits read two to a byte,
/// high half first, and the missing digits taken as zero.
pub open spec fn commit_text_bytes(s: Seq<char>) -> Seq<u8> {
    Seq::new(20, |k: int| (nibble_at(s, 2 * k) * 16 + nibble_at(s, 2 * k + 1)) as u8)
}

/// Lower-case hexadecimal notation of bytes, two digits per byte.
pub open spec fn hex_of(bytes: Seq<u8>) -> Seq<char> {
    Seq::new(
        2 * bytes.len(),
        |i: int|
            if i % 2 == 0 {
                hex_digits()[(bytes[i / 2] / 16) as int]
            } else {
                hex_digits()[(bytes[i / 2] % 16) as int]
            },
    )
}

/// Parses commit text with `git2::Oid::from_str`, handing back the raw bytes
/// of the id. Its documentation and libgit2's `git_oid_fromstrn` show that
/// it fails on empty text, on more than forty characters and on any
/// character that is not a hexadecimal digit, and reads the digits two to a
/// byte otherwise, padding with zeros.
#[verifier::external_body]
fn oid_from_str(s: &str) -> (r: Result<Vec<u8>, git2::Error>)
    ensures
        r is Ok <==> is_commit_text(s@),
        r matches Ok(b) ==> b@ == commit_text_bytes(s@),
{
    match git2::Oid::from_str(s) {
        Ok(oid) => Ok(oid.as_bytes().to_vec()),
        Err(e) => Err(e),
    }
}

/// The id of a commit: twenty bytes.
pub struct CommitId {
    bytes: Vec<u8>,
}

impl View for CommitId {
    type V = Seq<u8>;

    closed spec fn view(&self) -> Seq<u8> {
        self.bytes@
    }
}

impl CommitId {
    /// Every id holds exactly twenty bytes.
    #[verifier::type_invariant]
    spec fn holds_twenty_bytes(self) -> bool {
        self.bytes@.len() == 20
    }

    /// The id with these bytes: `Some` exactly when there are twenty.
    pub fn from_bytes(bytes: &[u8]) -> (r: Option<CommitId>)
        ensures
            r is Some <==> bytes@.len() == 20,
            r matches Some(id) ==> id@ == bytes@,
    {
        if bytes.len() == 20 {
            let mut v: Vec<u8> = Vec::new();
            for i in 0..bytes.len()
                invariant
                    v@ == bytes@.take(i as int),
            {
                v.push(bytes[i]);
                assert(v@ =~= bytes@.take(i + 1));
            }
            assert(v@ =~= bytes@);
            Some(CommitId { bytes: v })
        } else {
            None
        }
    }

    /// The bytes of the id.
    pub fn as_bytes(&self) -> (b: &[u8])
        ensures
            b@ == self@,
            b@.len() == 20,
    {
        proof {
            use_type_invariant(self);
        }
        self.bytes.as_slice()
    }

    /// The id in lower-case hexadecimal, as git writes commit hashes.
    pub fn to_hex(&self) -> (s: String)
        ensures
            s@ == hex_of(self@),
            s@.len() == 40,
    {
        proof {
            use_type_invariant(self);
        }
        let mut s = String::new();
        for i in 0..self.bytes.len()
            invariant
                s@ == hex_of(self@.take(i as int)),
        {
            let b: u8 = self.bytes[i];
            let ghost before = s@;
            push_char(&mut s, hex_char(b / 16));
            push_char(&mut s, hex_char(b % 16));
            assert(s@ =~= hex_of(self@.take(i + 1))) by {
                assert(before =~= hex_of(self@.take(i as int)));
                assert forall|j: int| 0 <= j < 2 * i implies #[trigger] hex_of(self@.take(i + 1))[j]
                    == before[j] by {
                    assert(self@.take(i + 1)[j / 2] == self@.take(i as int)[j / 2]);
                }
            }
        }
        assert(self@.take(self@.len() as int) =~= self@);
        s
    }
}

/// Reads commit text into an id: `Ok` exactly for one to forty hexadecimal
/// digits, the error from `git2` otherwise.
pub fn parse_commit_id(s: &str) -> (r: Result<CommitId, WorldError>)
    ensures
        r is Ok <==> is_commit_text(s@),
        r matches Ok(id) ==> id@ == commit_text_bytes(s@),
        r matches Err(e) ==> e is Git,
{
    match oid_from_str(s) {
        Ok(bytes) => Ok(CommitId { bytes }),
        Err(e) => Err(WorldError::Git(e)),
    }
}

proof fn lemma_hex_digit_value(d: int)
    requires
        0 <= d < 16,
    ensures
        hex_value(hex_digits()[d]) == d,
{
}

/// Writing the twenty bytes of an id in hexadecimal and reading the text
/// back gives the same id: the text is valid commit text and names exactly
/// those bytes.
pub proof fn lemma_hex_parse_roundtrip(bytes: Seq<u8>)
    requires
        bytes.len() == 20,
    ensures
        is_commit_text(hex_of(bytes)),
        commit_text_bytes(hex_of(bytes)) == bytes,
{
    let id = bytes;
    let h = hex_of(bytes);
    assert forall|i: int| 0 <= i < h.len() implies hex_value(#[trigger] h[i]) >= 0 by {
        if i % 2 == 0 {
            lemma_hex_digit_value((id[i / 2] / 16) as int);
        } else {
            lemma_hex_digit_value((id[i / 2] % 16) as int);
        }
    }
    assert forall|k: int| 0 <= k < 20 implies #[trigger] commit_text_bytes(h)[k] == id[k] by {
        let b = id[k];
        assert((2 * k) / 2 == k);
        assert((2 * k + 1) / 2 == k);
        assert((2 * k) % 2 == 0);
        assert((2 * k + 1) % 2 == 1);
        lemma_hex_digit_value((b / 16) as int);
        lemma_hex_digit_value((b % 16) as int);
        assert(nibble_at(h, 2 * k) == b / 16);
        assert(nibble_at(h, 2 * k + 1) == b % 16);
    }
    assert(commit_text_bytes(h) =~= id);
}

} // verus!
