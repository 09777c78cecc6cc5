//! JSON text as bytes: string encoding by the encoder crate, object framing by
//! this library.

use vstd::prelude::*;

verus! {

/// `{`
pub const OPEN: u8 = 0x7b;

/// `}`
pub const CLOSE: u8 = 0x7d;

/// `:`
pub const COLON: u8 = 0x3a;

/// `,`
pub const COMMA: u8 = 0x2c;

/// One member of an object: the JSON text of its key and of its value.
pub type Member = (Seq<u8>, Seq<u8>);

/// The JSON text that the encoder writes for a string, as bytes, or `None` where
/// it reports an error for the string. Nothing is stated of what the bytes are.
pub uninterp spec fn json_string(s: Seq<char>) -> Option<Seq<u8>>;

/// Encodes a string as JSON text by calling `serde_json::to_vec` on it.
///
/// Taken on trust: the outcome depends on the string alone, so that
/// `json_string` can name it, the bytes written on success, `None` where the
/// encoder returned its error.
#[verifier::external_body]
pub(crate) fn encode_str(s: &str) -> (r: Result<Vec<u8>, serde_json::Error>)
    ensures
        match r {
            Ok(bytes) => json_string(s@) == Some(bytes@),
            Err(_) => json_string(s@).is_none(),
        },
{
    serde_json::to_vec(s)
}

/// The text of one member: key, colon, value.
pub open spec fn member_text(m: Member) -> Seq<u8> {
    m.0 + seq![COLON] + m.1
}

/// The members of an object in order, separated by commas.
pub open spec fn members_text(ms: Seq<Member>) -> Seq<u8>
    decreases ms.len(),
{
    if ms.len() == 0 {
        Seq::empty()
    } else if ms.len() == 1 {
        member_text(ms[0])
    } else {
        members_text(ms.drop_last()) + seq![COMMA] + member_text(ms.last())
    }
}

/// The compact text of an object with the given members, in the given order.
pub open spec fn object_text(ms: Seq<Member>) -> Seq<u8> {
    seq![OPEN] + members_text(ms) + seq![CLOSE]
}

/// Appends `bytes` to `out`.
pub fn append_bytes(out: &mut Vec<u8>, bytes: &[u8])
    ensures
        final(out)@ == old(out)@ + bytes@,
{
    let mut i: usize = 0;
    while i < bytes.len()
        invariant
            i <= bytes.len(),
            out@ == old(out)@ + bytes@.subrange(0, i as int),
        decreases bytes.len() - i,
    {
        out.push(bytes[i]);
        i += 1;
    }
    assert(bytes@.subrange(0, i as int) == bytes@);
}

/// Writes one object, member by member, in the order of the calls.
pub struct ObjectWriter {
    out: Vec<u8>,
    written: Ghost<Seq<Member>>,
}

impl View for ObjectWriter {
    type V = Seq<Member>;

    /// The members written so far.
    closed spec fn view(&self) -> Seq<Member> {
        self.written@
    }
}

impl ObjectWriter {
    #[verifier::type_invariant]
    spec fn opened(&self) -> bool {
        self.out@ == seq![OPEN] + members_text(self.written@)
    }

    /// Opens an object.
    pub fn new() -> (w: ObjectWriter)
        ensures
            w@ == Seq::<Member>::empty(),
    {
        let mut out: Vec<u8> = Vec::new();
        out.push(OPEN);
        ObjectWriter { out, written: Ghost(Seq::empty()) }
    }

    /// Writes one more member, given the JSON text of its key and of its value.
    pub fn member(self, key: &[u8], value: &[u8]) -> (w: ObjectWriter)
        ensures
            w@ == self@.push((key@, value@)),
    {
        proof {
            use_type_invariant(&self);
        }
        let ghost before = self.written@;
        let ghost after = before.push((key@, value@));
        let mut out = self.out;
        if out.len() > 1 {
            out.push(COMMA);
        }
        append_bytes(&mut out, key);
        out.push(COLON);
        append_bytes(&mut out, value);
        proof {
            lemma_members_nonempty(before);
            assert(after.drop_last() == before);
            assert(out@ == seq![OPEN] + members_text(after));
        }
        ObjectWriter { out, written: Ghost(after) }
    }

    /// Closes the object and hands out its text.
    pub fn end(self) -> (out: Vec<u8>)
        ensures
            out@ == object_text(self@),
    {
        proof {
            use_type_invariant(&self);
        }
        let mut out = self.out;
        out.push(CLOSE);
        out
    }
}

/// Members take up room: only the empty list has an empty text.
proof fn lemma_members_nonempty(ms: Seq<Member>)
    ensures
        (members_text(ms).len() == 0) == (ms.len() == 0),
    decreases ms.len(),
{
    if ms.len() > 1 {
        lemma_members_nonempty(ms.drop_last());
    }
}

} // verus!
