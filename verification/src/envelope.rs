//! The envelope: the sealed secret as it is stored and sent.
//!
//! On the wire an envelope is a fixed header followed by the ciphertext:
//!
//! | bytes  | field                                   |
//! |--------|-----------------------------------------|
//! | 1      | format version                          |
//! | 1      | passphrase marker, 0 or 1               |
//! | 4      | key-stretching cost, big-endian         |
//! | 16     | salt                                    |
//! | 12     | nonce                                   |
//! | 16 ..  | ciphertext, the tag in its last 16 bytes|
//!
//! The version comes first, so a later format is told apart by its first byte.

use vstd::prelude::*;
use crate::bytes::{append_bytes, copy_bytes, copy_range};
use crate::error::EnvelopeError;

verus! {

/// The one format version this library writes and reads.
pub const FORMAT_VERSION: u8 = 1;

/// Length of the key-derivation salt.
pub const SALT_LEN: usize = 16;

/// Length of the cipher's nonce.
pub const NONCE_LEN: usize = 12;

/// Length of the authentication tag that ends the ciphertext.
pub const TAG_LEN: usize = 16;

/// Length of the wire header: version, marker, cost, salt, nonce.
pub const HEADER_LEN: usize = 34;

/// A sealed secret.
#[derive(Clone, Debug, PartialEq, Eq)]
pub struct Envelope {
    /// Format version.
    pub version: u8,
    /// Whether opening takes a non-empty passphrase.
    pub passphrase_required: bool,
    /// Rounds of passphrase stretching; zero where no passphrase is used.
    pub kdf_cost: u32,
    /// Salt of the key derivation.
    pub salt: Vec<u8>,
    /// Nonce of the cipher.
    pub nonce: Vec<u8>,
    /// Ciphertext followed by the authentication tag.
    pub ciphertext: Vec<u8>,
}

/// An envelope as a mathematical value.
pub struct EnvelopeView {
    pub version: u8,
    pub passphrase_required: bool,
    pub kdf_cost: u32,
    pub salt: Seq<u8>,
    pub nonce: Seq<u8>,
    pub ciphertext: Seq<u8>,
}

impl View for Envelope {
    type V = EnvelopeView;

    open spec fn view(&self) -> EnvelopeView {
        EnvelopeView {
            version: self.version,
            passphrase_required: self.passphrase_required,
            kdf_cost: self.kdf_cost,
            salt: self.salt@,
            nonce: self.nonce@,
            ciphertext: self.ciphertext@,
        }
    }
}

impl EnvelopeView {
    /// The envelope has the version, the lengths and the cost parameters of a
    /// sealed envelope: stretching is switched on exactly where a passphrase
    /// is required.
    pub open spec fn wf(self) -> bool {
        &&& self.version == FORMAT_VERSION
        &&& self.salt.len() == SALT_LEN
        &&& self.nonce.len() == NONCE_LEN
        &&& self.ciphertext.len() >= TAG_LEN
        &&& self.passphrase_required == (self.kdf_cost > 0)
    }
}

/// The four bytes of `v`, most significant first.
pub open spec fn be32(v: u32) -> Seq<u8> {
    seq![
        (v / 0x100_0000) as u8,
        ((v / 0x1_0000) % 0x100) as u8,
        ((v / 0x100) % 0x100) as u8,
        (v % 0x100) as u8,
    ]
}

/// The number that four bytes spell, most significant first.
pub open spec fn from_be32(b: Seq<u8>) -> int {
    b[0] * 0x100_0000 + b[1] * 0x1_0000 + b[2] * 0x100 + b[3]
}

/// The byte that stands for the passphrase marker.
pub open spec fn marker_byte(required: bool) -> u8 {
    if required {
        1
    } else {
        0
    }
}

/// Version, marker and cost as they stand at the head of the wire form. The
/// cipher authenticates these bytes together with the ciphertext.
pub open spec fn preamble_spec(version: u8, required: bool, cost: u32) -> Seq<u8> {
    seq![version, marker_byte(required)] + be32(cost)
}

/// The wire form of an envelope.
pub open spec fn wire_spec(e: EnvelopeView) -> Seq<u8> {
    preamble_spec(e.version, e.passphrase_required, e.kdf_cost) + e.salt + e.nonce + e.ciphertext
}

/// The envelope that `b` is the wire form of; `None` where it is the wire
/// form of none.
pub open spec fn from_wire_spec(b: Seq<u8>) -> Option<EnvelopeView> {
    let cost = from_be32(b.subrange(2, 6));
    if b.len() < HEADER_LEN + TAG_LEN {
        None
    } else if b[0] != FORMAT_VERSION || (b[1] != 0 && b[1] != 1) || (b[1] == 1) != (cost > 0) {
        None
    } else {
        Some(
            EnvelopeView {
                version: b[0],
                passphrase_required: b[1] == 1,
                kdf_cost: cost as u32,
                salt: b.subrange(6, 22),
                nonce: b.subrange(22, 34),
                ciphertext: b.subrange(34, b.len() as int),
            },
        )
    }
}

/// Four bytes written from a number spell that number.
proof fn lemma_be32(v: u32)
    ensures
        be32(v).len() == 4,
        from_be32(be32(v)) == v,
{
}

/// The number that four bytes spell is written as those four bytes.
proof fn lemma_from_be32(b: Seq<u8>)
    requires
        b.len() == 4,
    ensures
        0 <= from_be32(b) <= u32::MAX,
        be32(from_be32(b) as u32) == b,
{
    let v = from_be32(b);
    assert(v / 0x100_0000 == b[0]);
    assert((v / 0x1_0000) % 0x100 == b[1]);
    assert((v / 0x100) % 0x100 == b[2]);
    assert(v % 0x100 == b[3]);
    assert(be32(v as u32) =~= b);
}

/// Reading undoes writing: a well-formed envelope comes back from its wire
/// form unchanged.
pub proof fn lemma_read_after_write(e: EnvelopeView)
    requires
        e.wf(),
    ensures
        from_wire_spec(wire_spec(e)) == Some(e),
{
    let b = wire_spec(e);
    lemma_be32(e.kdf_cost);
    assert(b.subrange(2, 6) =~= be32(e.kdf_cost));
    assert(b.subrange(6, 22) =~= e.salt);
    assert(b.subrange(22, 34) =~= e.nonce);
    assert(b.subrange(34, b.len() as int) =~= e.ciphertext);
    assert(b[0] == e.version);
    assert(b[1] == marker_byte(e.passphrase_required));
}

/// Writing undoes reading: bytes that read as an envelope are the wire form
/// of that envelope and of no other, and the envelope is well-formed.
pub proof fn lemma_write_after_read(b: Seq<u8>)
    requires
        from_wire_spec(b) is Some,
    ensures
        from_wire_spec(b).unwrap().wf(),
        wire_spec(from_wire_spec(b).unwrap()) == b,
{
    let e = from_wire_spec(b).unwrap();
    lemma_from_be32(b.subrange(2, 6));
    assert(wire_spec(e) =~= b);
}

/// Writes `v` as four bytes, most significant first.
fn push_be32(out: &mut Vec<u8>, v: u32)
    ensures
        final(out)@ == old(out)@ + be32(v),
{
    out.push((v / 0x100_0000) as u8);
    out.push(((v / 0x1_0000) % 0x100) as u8);
    out.push(((v / 0x100) % 0x100) as u8);
    out.push((v % 0x100) as u8);
    assert(out@ =~= old(out)@ + be32(v));
}

/// Reads four bytes at `at`, most significant first.
fn read_be32(bytes: &[u8], at: usize) -> (v: u32)
    requires
        at + 4 <= bytes.len(),
    ensures
        v == from_be32(bytes@.subrange(at as int, at + 4)),
{
    let a = bytes[at] as u32;
    let b = bytes[at + 1] as u32;
    let c = bytes[at + 2] as u32;
    let d = bytes[at + 3] as u32;
    a * 0x100_0000 + b * 0x1_0000 + c * 0x100 + d
}

/// Version, marker and cost as the bytes that head the wire form.
pub fn preamble(version: u8, required: bool, cost: u32) -> (out: Vec<u8>)
    ensures
        out@ == preamble_spec(version, required, cost),
{
    let mut out: Vec<u8> = Vec::new();
    out.push(version);
    out.push(if required { 1 } else { 0 });
    push_be32(&mut out, cost);
    assert(out@ =~= preamble_spec(version, required, cost));
    out
}

impl Envelope {
    /// Whether the envelope has the structure of a sealed envelope.
    pub fn is_well_formed(&self) -> (r: bool)
        ensures
            r == self@.wf(),
    {
        let marked = self.kdf_cost > 0;
        self.version == FORMAT_VERSION && self.salt.len() == SALT_LEN && self.nonce.len() == NONCE_LEN
            && self.ciphertext.len() >= TAG_LEN && self.passphrase_required == marked
    }

    /// The wire form of the envelope.
    ///
    /// Fails with `MalformedEnvelope` exactly where the envelope is not
    /// well-formed.
    pub fn to_bytes(&self) -> (r: Result<Vec<u8>, EnvelopeError>)
        ensures
            match r {
                Ok(bytes) => self@.wf() && bytes@ == wire_spec(self@),
                Err(e) => !self@.wf() && e == EnvelopeError::MalformedEnvelope,
            },
    {
        if !self.is_well_formed() {
            return Err(EnvelopeError::MalformedEnvelope);
        }
        let mut out = preamble(self.version, self.passphrase_required, self.kdf_cost);
        append_bytes(&mut out, self.salt.as_slice());
        append_bytes(&mut out, self.nonce.as_slice());
        append_bytes(&mut out, self.ciphertext.as_slice());
        Ok(out)
    }

    /// Reads an envelope from its wire form.
    ///
    /// Fails with `MalformedEnvelope` where the bytes are too short for a
    /// header and a tag, the version is not this one, the marker is neither
    /// 0 nor 1, or marker and cost disagree.
    pub fn from_bytes(bytes: &[u8]) -> (r: Result<Envelope, EnvelopeError>)
        ensures
            match r {
                Ok(envelope) => from_wire_spec(bytes@) == Some(envelope@) && envelope@.wf(),
                Err(e) => from_wire_spec(bytes@) is None && e == EnvelopeError::MalformedEnvelope,
            },
    {
        if bytes.len() < HEADER_LEN + TAG_LEN {
            return Err(EnvelopeError::MalformedEnvelope);
        }
        if bytes[0] != FORMAT_VERSION {
            return Err(EnvelopeError::MalformedEnvelope);
        }
        let marker = bytes[1];
        if marker != 0 && marker != 1 {
            return Err(EnvelopeError::MalformedEnvelope);
        }
        let cost = read_be32(bytes, 2);
        if (marker == 1) != (cost > 0) {
            return Err(EnvelopeError::MalformedEnvelope);
        }
        let envelope = Envelope {
            version: bytes[0],
            passphrase_required: marker == 1,
            kdf_cost: cost,
            salt: copy_range(bytes, 6, 22),
            nonce: copy_range(bytes, 22, 34),
            ciphertext: copy_range(bytes, 34, bytes.len()),
        };
        proof {
            lemma_write_after_read(bytes@);
        }
        Ok(envelope)
    }

    /// A copy of the envelope.
    pub fn duplicate(&self) -> (r: Envelope)
        ensures
            r@ == self@,
    {
        Envelope {
            version: self.version,
            passphrase_required: self.passphrase_required,
            kdf_cost: self.kdf_cost,
            salt: copy_bytes(self.salt.as_slice()),
            nonce: copy_bytes(self.nonce.as_slice()),
            ciphertext: copy_bytes(self.ciphertext.as_slice()),
        }
    }
}

} // verus!
