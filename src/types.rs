//! Length-prefixed blobs and bound values.
use vstd::prelude::*;
use crate::bytes::{be16, be32, push_u16, push_u32, push_all};

verus! {

/// Largest length that a four-byte signed prefix can state.
pub const MAX_LONG_LEN: usize = 0x7fff_ffff;

/// Largest length that a two-byte signed prefix can state.
pub const MAX_SHORT_LEN: usize = 0x7fff;

/// Prefix that marks an absent blob or a null value.
pub const NULL_LEN: i32 = -1;

/// Prefix that marks a value that is not set.
pub const NOT_SET_LEN: i32 = -2;

/// A blob with a four-byte length prefix; `bytes == None` is the absent blob.
#[derive(Clone, Debug)]
pub struct CBytes {
    pub bytes: Option<Vec<u8>>,
}

/// A blob with a two-byte length prefix; `bytes == None` is the absent blob.
#[derive(Clone, Debug)]
pub struct CBytesShort {
    pub bytes: Option<Vec<u8>>,
}

/// A bound parameter of a request.
#[derive(Clone, Debug)]
pub enum Value {
    /// A value with its serialized bytes.
    Bytes(Vec<u8>),
    /// An explicit null.
    Null,
    /// No value: the server keeps what it has.
    NotSet,
}

/// A four-byte signed length followed by `b`.
pub open spec fn long_bytes(b: Seq<u8>) -> Seq<u8> {
    be32(b.len() as u32) + b
}

/// A two-byte signed length followed by `b`.
pub open spec fn short_bytes(b: Seq<u8>) -> Seq<u8> {
    be16(b.len() as u16) + b
}

impl CBytes {
    pub open spec fn wf(&self) -> bool {
        self.bytes is Some ==> self.bytes->0@.len() <= MAX_LONG_LEN
    }

    /// The wire form: the length prefix, `-1` when absent, then the bytes.
    pub open spec fn spec_bytes(&self) -> Seq<u8> {
        match self.bytes {
            Some(b) => long_bytes(b@),
            None => be32(NULL_LEN as u32),
        }
    }

    pub fn new(bytes: Vec<u8>) -> (r: CBytes)
        ensures
            r.bytes == Some(bytes),
    {
        CBytes { bytes: Some(bytes) }
    }

    pub fn new_empty() -> (r: CBytes)
        ensures
            r.bytes is None,
    {
        CBytes { bytes: None }
    }

    /// Whether the length fits the prefix.
    pub fn is_valid(&self) -> (r: bool)
        ensures
            r == self.wf(),
    {
        match &self.bytes {
            Some(b) => b.len() <= MAX_LONG_LEN,
            None => true,
        }
    }

    /// Appends the wire form.
    pub fn serialize(&self, out: &mut Vec<u8>)
        requires
            self.wf(),
        ensures
            final(out)@ == old(out)@ + self.spec_bytes(),
    {
        match &self.bytes {
            Some(b) => {
                push_u32(out, b.len() as u32);
                push_all(out, b);
                assert(final(out)@ =~= old(out)@ + self.spec_bytes());
            },
            None => push_u32(out, NULL_LEN as u32),
        }
    }
}

impl CBytesShort {
    pub open spec fn wf(&self) -> bool {
        self.bytes is Some ==> self.bytes->0@.len() <= MAX_SHORT_LEN
    }

    /// The wire form: the length prefix, `-1` when absent, then the bytes.
    pub open spec fn spec_bytes(&self) -> Seq<u8> {
        match self.bytes {
            Some(b) => short_bytes(b@),
            None => be16(-1i16 as u16),
        }
    }

    pub fn new(bytes: Vec<u8>) -> (r: CBytesShort)
        ensures
            r.bytes == Some(bytes),
    {
        CBytesShort { bytes: Some(bytes) }
    }

    /// Whether the length fits the prefix.
    pub fn is_valid(&self) -> (r: bool)
        ensures
            r == self.wf(),
    {
        match &self.bytes {
            Some(b) => b.len() <= MAX_SHORT_LEN,
            None => true,
        }
    }

    /// Appends the wire form.
    pub fn serialize(&self, out: &mut Vec<u8>)
        requires
            self.wf(),
        ensures
            final(out)@ == old(out)@ + self.spec_bytes(),
    {
        match &self.bytes {
            Some(b) => {
                push_u16(out, b.len() as u16);
                push_all(out, b);
                assert(final(out)@ =~= old(out)@ + self.spec_bytes());
            },
            None => push_u16(out, -1i16 as u16),
        }
    }
}

impl Value {
    pub open spec fn wf(&self) -> bool {
        self is Bytes ==> self->Bytes_0@.len() <= MAX_LONG_LEN
    }

    /// The wire form: a four-byte length (`-1` null, `-2` not set), then the bytes.
    pub open spec fn spec_bytes(&self) -> Seq<u8> {
        match self {
            Value::Bytes(b) => long_bytes(b@),
            Value::Null => be32(NULL_LEN as u32),
            Value::NotSet => be32(NOT_SET_LEN as u32),
        }
    }

    /// Whether the length fits the prefix.
    pub fn is_valid(&self) -> (r: bool)
        ensures
            r == self.wf(),
    {
        match self {
            Value::Bytes(b) => b.len() <= MAX_LONG_LEN,
            _ => true,
        }
    }

    /// Appends the wire form.
    pub fn serialize(&self, out: &mut Vec<u8>)
        requires
            self.wf(),
        ensures
            final(out)@ == old(out)@ + self.spec_bytes(),
    {
        match self {
            Value::Bytes(b) => {
                push_u32(out, b.len() as u32);
                push_all(out, b);
                assert(final(out)@ =~= old(out)@ + self.spec_bytes());
            },
            Value::Null => push_u32(out, NULL_LEN as u32),
            Value::NotSet => push_u32(out, NOT_SET_LEN as u32),
        }
    }
}

/// The wire form of a list of values, without its count.
pub open spec fn values_bytes(vs: Seq<Value>) -> Seq<u8>
    decreases vs.len(),
{
    if vs.len() == 0 {
        Seq::empty()
    } else {
        values_bytes(vs.drop_last()) + vs.last().spec_bytes()
    }
}

/// Appends the wire form of each value in order.
pub fn serialize_values(values: &Vec<Value>, out: &mut Vec<u8>)
    requires
        forall|i: int| 0 <= i < values@.len() ==> (#[trigger] values@[i]).wf(),
    ensures
        final(out)@ == old(out)@ + values_bytes(values@),
{
    let mut i: usize = 0;
    while i < values.len()
        invariant
            i <= values@.len(),
            forall|k: int| 0 <= k < values@.len() ==> (#[trigger] values@[k]).wf(),
            out@ == old(out)@ + values_bytes(values@.subrange(0, i as int)),
        decreases values@.len() - i,
    {
        let ghost before = out@;
        values[i].serialize(out);
        let ghost s = values@.subrange(0, i as int + 1);
        assert(s.drop_last() =~= values@.subrange(0, i as int));
        i = i + 1;
        assert(out@ =~= old(out)@ + values_bytes(values@.subrange(0, i as int)));
    }
    assert(values@.subrange(0, values@.len() as int) =~= values@);
}

} // verus!
