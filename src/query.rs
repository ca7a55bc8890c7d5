//! The parameter bundle shared by QUERY and EXECUTE requests.
use vstd::prelude::*;
use crate::bytes::{be16, be32, be64, push_u16, push_u32, push_u64};
use crate::consistency::{Consistency, consistency_code};
use crate::types::{CBytes, Value, values_bytes, serialize_values};

verus! {

pub const FLAG_VALUES: u8 = 0x01;
pub const FLAG_SKIP_METADATA: u8 = 0x02;
pub const FLAG_PAGE_SIZE: u8 = 0x04;
pub const FLAG_PAGING_STATE: u8 = 0x08;
pub const FLAG_SERIAL_CONSISTENCY: u8 = 0x10;
pub const FLAG_TIMESTAMP: u8 = 0x20;
pub const FLAG_WITH_NAMES: u8 = 0x40;

/// Largest number of values a request can carry (a two-byte count).
pub const MAX_VALUES: usize = 0x7fff;

/// Parameters of a QUERY or EXECUTE request. Every optional field that is
/// `None` is left to the server and takes no room on the wire.
#[derive(Clone, Debug)]
pub struct ParamsReqQuery {
    pub consistency: Consistency,
    pub values: Option<Vec<Value>>,
    pub with_names: Option<bool>,
    pub skip_metadata: bool,
    pub page_size: Option<i32>,
    pub paging_state: Option<CBytes>,
    pub serial_consistency: Option<Consistency>,
    pub timestamp: Option<i64>,
}

/// Which optional parts a parameter bundle holds, one field per flag bit.
#[derive(Clone, Copy, Debug, PartialEq, Eq, Structural)]
pub struct QueryFlags {
    pub values: bool,
    pub skip_metadata: bool,
    pub page_size: bool,
    pub paging_state: bool,
    pub serial_consistency: bool,
    pub timestamp: bool,
    pub with_names: bool,
}

/// `m` when `b` holds, else no bit.
pub open spec fn bit_if(b: bool, m: u8) -> u8 {
    if b { m } else { 0 }
}

impl QueryFlags {
    /// The flags byte with exactly the bits of the present parts set.
    pub open spec fn spec_byte(self) -> u8 {
        bit_if(self.values, FLAG_VALUES) | bit_if(self.skip_metadata, FLAG_SKIP_METADATA)
            | bit_if(self.page_size, FLAG_PAGE_SIZE) | bit_if(self.paging_state, FLAG_PAGING_STATE)
            | bit_if(self.serial_consistency, FLAG_SERIAL_CONSISTENCY)
            | bit_if(self.timestamp, FLAG_TIMESTAMP) | bit_if(self.with_names, FLAG_WITH_NAMES)
    }

    /// What a peer reads from a flags byte.
    pub open spec fn spec_from_byte(b: u8) -> QueryFlags {
        QueryFlags {
            values: b & FLAG_VALUES != 0,
            skip_metadata: b & FLAG_SKIP_METADATA != 0,
            page_size: b & FLAG_PAGE_SIZE != 0,
            paging_state: b & FLAG_PAGING_STATE != 0,
            serial_consistency: b & FLAG_SERIAL_CONSISTENCY != 0,
            timestamp: b & FLAG_TIMESTAMP != 0,
            with_names: b & FLAG_WITH_NAMES != 0,
        }
    }

    /// Reads the parts that a flags byte announces.
    pub fn from_byte(b: u8) -> (r: QueryFlags)
        ensures
            r == QueryFlags::spec_from_byte(b),
    {
        QueryFlags {
            values: b & FLAG_VALUES != 0,
            skip_metadata: b & FLAG_SKIP_METADATA != 0,
            page_size: b & FLAG_PAGE_SIZE != 0,
            paging_state: b & FLAG_PAGING_STATE != 0,
            serial_consistency: b & FLAG_SERIAL_CONSISTENCY != 0,
            timestamp: b & FLAG_TIMESTAMP != 0,
            with_names: b & FLAG_WITH_NAMES != 0,
        }
    }

    /// The flags byte of these parts.
    pub fn to_byte(&self) -> (r: u8)
        ensures
            r == self.spec_byte(),
    {
        let a: u8 = if self.values { FLAG_VALUES } else { 0 };
        let b: u8 = if self.skip_metadata { FLAG_SKIP_METADATA } else { 0 };
        let c: u8 = if self.page_size { FLAG_PAGE_SIZE } else { 0 };
        let d: u8 = if self.paging_state { FLAG_PAGING_STATE } else { 0 };
        let e: u8 = if self.serial_consistency { FLAG_SERIAL_CONSISTENCY } else { 0 };
        let f: u8 = if self.timestamp { FLAG_TIMESTAMP } else { 0 };
        let g: u8 = if self.with_names { FLAG_WITH_NAMES } else { 0 };
        a | b | c | d | e | f | g
    }
}

/// The bits of seven distinct flags can be read back one by one from their union.
proof fn lemma_flag_bits(a: u8, b: u8, c: u8, d: u8, e: u8, f: u8, g: u8)
    by (bit_vector)
    requires
        a == 0 || a == 0x01,
        b == 0 || b == 0x02,
        c == 0 || c == 0x04,
        d == 0 || d == 0x08,
        e == 0 || e == 0x10,
        f == 0 || f == 0x20,
        g == 0 || g == 0x40,
    ensures
        ((a | b | c | d | e | f | g) & 0x01 != 0) == (a == 0x01),
        ((a | b | c | d | e | f | g) & 0x02 != 0) == (b == 0x02),
        ((a | b | c | d | e | f | g) & 0x04 != 0) == (c == 0x04),
        ((a | b | c | d | e | f | g) & 0x08 != 0) == (d == 0x08),
        ((a | b | c | d | e | f | g) & 0x10 != 0) == (e == 0x10),
        ((a | b | c | d | e | f | g) & 0x20 != 0) == (f == 0x20),
        ((a | b | c | d | e | f | g) & 0x40 != 0) == (g == 0x40),
{
}

/// Reading a flags byte gives back exactly the set of parts it was made from.
pub proof fn lemma_flags_round_trip(q: QueryFlags)
    ensures
        QueryFlags::spec_from_byte(q.spec_byte()) == q,
{
    lemma_flag_bits(
        bit_if(q.values, FLAG_VALUES),
        bit_if(q.skip_metadata, FLAG_SKIP_METADATA),
        bit_if(q.page_size, FLAG_PAGE_SIZE),
        bit_if(q.paging_state, FLAG_PAGING_STATE),
        bit_if(q.serial_consistency, FLAG_SERIAL_CONSISTENCY),
        bit_if(q.timestamp, FLAG_TIMESTAMP),
        bit_if(q.with_names, FLAG_WITH_NAMES),
    );
}

/// `b` when `present`, else nothing.
pub open spec fn opt_bytes(present: bool, b: Seq<u8>) -> Seq<u8> {
    if present { b } else { Seq::empty() }
}

impl ParamsReqQuery {
    /// Lengths fit their prefixes.
    pub open spec fn wf(&self) -> bool {
        &&& self.values is Some ==> {
            &&& self.values->0@.len() <= MAX_VALUES
            &&& forall|i: int| 0 <= i < self.values->0@.len() ==> (#[trigger] self.values->0@[i]).wf()
        }
        &&& self.paging_state is Some ==> self.paging_state->0.wf()
    }

    /// The parts present in this bundle.
    pub open spec fn spec_flags(&self) -> QueryFlags {
        QueryFlags {
            values: self.values is Some,
            skip_metadata: self.skip_metadata,
            page_size: self.page_size is Some,
            paging_state: self.paging_state is Some,
            serial_consistency: self.serial_consistency is Some,
            timestamp: self.timestamp is Some,
            with_names: self.with_names == Some(true),
        }
    }

    /// The consistency level and the flags byte that open the wire form.
    pub open spec fn spec_head(&self) -> Seq<u8> {
        be16(consistency_code(self.consistency)) + seq![self.spec_flags().spec_byte()]
    }

    /// Each present part in order, as it follows the flags byte.
    pub open spec fn spec_tail(&self) -> Seq<u8> {
        opt_bytes(self.values is Some,
            be16(self.values->0@.len() as u16) + values_bytes(self.values->0@))
            + opt_bytes(self.page_size is Some, be32(self.page_size->0 as u32))
            + opt_bytes(self.paging_state is Some, self.paging_state->0.spec_bytes())
            + opt_bytes(self.serial_consistency is Some,
                be16(consistency_code(self.serial_consistency->0)))
            + opt_bytes(self.timestamp is Some, be64(self.timestamp->0 as u64))
    }

    /// The wire form: consistency, flags byte, then each present part in order.
    pub open spec fn spec_bytes(&self) -> Seq<u8> {
        self.spec_head() + self.spec_tail()
    }

    /// The parts present in this bundle.
    pub fn flags(&self) -> (r: QueryFlags)
        ensures
            r == self.spec_flags(),
    {
        QueryFlags {
            values: self.values.is_some(),
            skip_metadata: self.skip_metadata,
            page_size: self.page_size.is_some(),
            paging_state: self.paging_state.is_some(),
            serial_consistency: self.serial_consistency.is_some(),
            timestamp: self.timestamp.is_some(),
            with_names: match self.with_names {
                Some(b) => b,
                None => false,
            },
        }
    }

    /// Appends the wire form.
    #[verifier::rlimit(40)]
    pub fn serialize(&self, out: &mut Vec<u8>)
        requires
            self.wf(),
        ensures
            final(out)@ == old(out)@ + self.spec_bytes(),
    {
        let ghost o = out@;
        push_u16(out, self.consistency.code());
        let fl = self.flags();
        out.push(fl.to_byte());
        let ghost s1 = out@;
        match &self.values {
            Some(vs) => {
                push_u16(out, vs.len() as u16);
                serialize_values(vs, out);
            },
            None => {},
        }
        let ghost s2 = out@;
        match self.page_size {
            Some(n) => push_u32(out, n as u32),
            None => {},
        }
        let ghost s3 = out@;
        match &self.paging_state {
            Some(p) => p.serialize(out),
            None => {},
        }
        let ghost s4 = out@;
        match self.serial_consistency {
            Some(c) => push_u16(out, c.code()),
            None => {},
        }
        let ghost s5 = out@;
        match self.timestamp {
            Some(t) => push_u64(out, t as u64),
            None => {},
        }
        assert(s1 =~= o + self.spec_head());
        assert(s2 =~= s1 + opt_bytes(self.values is Some,
                be16(self.values->0@.len() as u16) + values_bytes(self.values->0@)));
        assert(s3 =~= s2 + opt_bytes(self.page_size is Some, be32(self.page_size->0 as u32)));
        assert(s4 =~= s3 + opt_bytes(self.paging_state is Some, self.paging_state->0.spec_bytes()));
        assert(s5 =~= s4 + opt_bytes(self.serial_consistency is Some,
                be16(consistency_code(self.serial_consistency->0))));
        assert(out@ =~= s5 + opt_bytes(self.timestamp is Some, be64(self.timestamp->0 as u64)));
        assert(out@ =~= s1 + self.spec_tail());
        assert(out@ =~= o + self.spec_bytes());
    }
}

/// The flags byte that a bundle is written with announces exactly the parts
/// it holds: a peer reading that byte finds the same set of present parts.
pub proof fn lemma_params_flags_presence(p: ParamsReqQuery)
    ensures
        p.spec_bytes()[2] == p.spec_flags().spec_byte(),
        QueryFlags::spec_from_byte(p.spec_bytes()[2]) == p.spec_flags(),
{
    assert(p.spec_head().len() == 3);
    assert(p.spec_bytes()[2] == p.spec_head()[2]);
    lemma_flags_round_trip(p.spec_flags());
}

impl ParamsReqQuery {
    /// A bundle with the given parts; metadata is not skipped.
    pub fn new(
        consistency: Consistency,
        values: Option<Vec<Value>>,
        with_names: Option<bool>,
        page_size: Option<i32>,
        paging_state: Option<CBytes>,
        serial_consistency: Option<Consistency>,
        timestamp: Option<i64>,
    ) -> (r: ParamsReqQuery)
        ensures
            r == (ParamsReqQuery {
                consistency,
                values,
                with_names,
                skip_metadata: false,
                page_size,
                paging_state,
                serial_consistency,
                timestamp,
            }),
    {
        ParamsReqQuery {
            consistency,
            values,
            with_names,
            skip_metadata: false,
            page_size,
            paging_state,
            serial_consistency,
            timestamp,
        }
    }

    /// Whether every length fits its prefix, so that the bundle can be written.
    pub fn is_valid(&self) -> (r: bool)
        ensures
            r == self.wf(),
    {
        let paging_ok = match &self.paging_state {
            Some(p) => p.is_valid(),
            None => true,
        };
        let values_ok = match &self.values {
            Some(vs) => values_valid(vs),
            None => true,
        };
        paging_ok && values_ok
    }
}

/// Whether the list can be counted in two bytes and each value framed.
fn values_valid(vs: &Vec<Value>) -> (r: bool)
    ensures
        r == (vs@.len() <= MAX_VALUES && forall|i: int| 0 <= i < vs@.len() ==> (#[trigger] vs@[i]).wf()),
{
    if vs.len() > MAX_VALUES {
        return false;
    }
    let mut i: usize = 0;
    while i < vs.len()
        invariant
            i <= vs@.len(),
            forall|k: int| 0 <= k < i ==> (#[trigger] vs@[k]).wf(),
        decreases vs@.len() - i,
    {
        if !vs[i].is_valid() {
            return false;
        }
        i = i + 1;
    }
    true
}

} // verus!
