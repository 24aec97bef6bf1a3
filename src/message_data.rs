use vstd::prelude::*;

verus! {

/// Number of bytes a data identifier takes on the wire.
pub const DATA_IDENTIFIER_LEN: usize = 2;

/// Number of bytes a data message takes on the wire.
pub const DATA_MESSAGE_LEN: usize = 6;

/// Big-endian bytes of a 16-bit value.
pub open spec fn be16(v: u16) -> Seq<u8> {
    seq![(v >> 8u16) as u8, v as u8]
}

/// The 16-bit value of two big-endian bytes.
pub open spec fn from_be16(hi: u8, lo: u8) -> u16 {
    ((hi as u16) << 8u16) | (lo as u16)
}

/// Big-endian bytes of a 32-bit value.
pub open spec fn be32(v: u32) -> Seq<u8> {
    seq![(v >> 24u32) as u8, (v >> 16u32) as u8, (v >> 8u32) as u8, v as u8]
}

/// The 32-bit value of four big-endian bytes.
pub open spec fn from_be32(b0: u8, b1: u8, b2: u8, b3: u8) -> u32 {
    ((b0 as u32) << 24u32) | ((b1 as u32) << 16u32) | ((b2 as u32) << 8u32) | (b3 as u32)
}

/// Reading back the big-endian bytes of a 16-bit value gives the value.
pub proof fn lemma_be16_round_trip(v: u16)
    ensures
        from_be16(be16(v)[0], be16(v)[1]) == v,
{
    assert((((v >> 8u16) as u8 as u16) << 8u16) | ((v as u8) as u16) == v) by (bit_vector);
}

/// Reading back the big-endian bytes of a 32-bit value gives the value.
pub proof fn lemma_be32_round_trip(v: u32)
    ensures
        from_be32(be32(v)[0], be32(v)[1], be32(v)[2], be32(v)[3]) == v,
{
    assert((((v >> 24u32) as u8 as u32) << 24u32) | (((v >> 16u32) as u8 as u32) << 16u32) | (((
    v >> 8u32) as u8 as u32) << 8u32) | ((v as u8) as u32) == v) by (bit_vector);
}

/// Identifies a data item of a node.
#[derive(Clone, Copy, Debug, PartialEq, Eq, Structural)]
pub struct DataIdentifier(pub u16);

impl DataIdentifier {
    /// Wire form: the identifier big-endian.
    pub open spec fn encoding(self) -> Seq<u8> {
        be16(self.0)
    }

    /// Parses exactly two bytes.
    pub open spec fn parse_spec(b: Seq<u8>) -> Option<DataIdentifier> {
        if b.len() == DATA_IDENTIFIER_LEN {
            Some(DataIdentifier(from_be16(b[0], b[1])))
        } else {
            None
        }
    }

    pub fn len(&self) -> (r: usize)
        ensures
            r == self.encoding().len(),
    {
        DATA_IDENTIFIER_LEN
    }

    /// Writes the wire form to the front of `buf`, leaving the rest.
    pub fn write(&self, buf: &mut [u8; 8])
        ensures
            final(buf)@ == self.encoding() + old(buf)@.skip(DATA_IDENTIFIER_LEN as int),
    {
        buf[0] = (self.0 >> 8u16) as u8;
        buf[1] = self.0 as u8;
        assert(final(buf)@ =~= self.encoding() + old(buf)@.skip(DATA_IDENTIFIER_LEN as int));
    }

    pub fn from_bytes(b: &[u8]) -> (r: Option<DataIdentifier>)
        ensures
            r == Self::parse_spec(b@),
    {
        if b.len() == DATA_IDENTIFIER_LEN {
            Some(DataIdentifier(((b[0] as u16) << 8u16) | (b[1] as u16)))
        } else {
            None
        }
    }
}

/// A value of a data item, tagged with its identifier.
#[derive(Clone, Copy, Debug, PartialEq, Eq, Structural)]
pub struct DataMessage {
    pub id: DataIdentifier,
    pub value: u32,
}

impl DataMessage {
    /// Wire form: the identifier, then the value, both big-endian.
    pub open spec fn encoding(self) -> Seq<u8> {
        self.id.encoding() + be32(self.value)
    }

    /// Parses the first six bytes; shorter input is refused.
    pub open spec fn parse_spec(b: Seq<u8>) -> Option<DataMessage> {
        if b.len() >= DATA_MESSAGE_LEN {
            Some(
                DataMessage {
                    id: DataIdentifier(from_be16(b[0], b[1])),
                    value: from_be32(b[2], b[3], b[4], b[5]),
                },
            )
        } else {
            None
        }
    }

    pub fn len(&self) -> (r: usize)
        ensures
            r == self.encoding().len(),
    {
        DATA_MESSAGE_LEN
    }

    /// Writes the wire form to the front of `buf`, leaving the rest.
    pub fn write(&self, buf: &mut [u8; 8])
        ensures
            final(buf)@ == self.encoding() + old(buf)@.skip(DATA_MESSAGE_LEN as int),
    {
        self.id.write(buf);
        buf[2] = (self.value >> 24u32) as u8;
        buf[3] = (self.value >> 16u32) as u8;
        buf[4] = (self.value >> 8u32) as u8;
        buf[5] = self.value as u8;
        assert(final(buf)@ =~= self.encoding() + old(buf)@.skip(DATA_MESSAGE_LEN as int));
    }

    pub fn from_bytes(b: &[u8]) -> (r: Option<DataMessage>)
        ensures
            r == Self::parse_spec(b@),
    {
        if b.len() >= DATA_MESSAGE_LEN {
            let id = DataIdentifier(((b[0] as u16) << 8u16) | (b[1] as u16));
            let value = ((b[2] as u32) << 24u32) | ((b[3] as u32) << 16u32) | ((b[4] as u32)
                << 8u32) | (b[5] as u32);
            Some(DataMessage { id, value })
        } else {
            None
        }
    }
}

} // verus!
