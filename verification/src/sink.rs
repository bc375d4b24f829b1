//! The durable output layout: one block of three labelled lines and a
//! separator line per match, as UTF-8 (here: ASCII) bytes.

use crate::address::TronAddress;
use crate::bytes::{decimal_of, push_decimal, push_range};
use vstd::prelude::*;

verus! {

/// `"addr: "`
pub open spec fn label_address() -> Seq<u8> {
    seq![0x61u8, 0x64u8, 0x64u8, 0x72u8, 0x3au8, 0x20u8]
}

/// `"key: "`
pub open spec fn label_key() -> Seq<u8> {
    seq![0x6bu8, 0x65u8, 0x79u8, 0x3au8, 0x20u8]
}

/// `"run: "`
pub open spec fn label_run() -> Seq<u8> {
    seq![0x72u8, 0x75u8, 0x6eu8, 0x3au8, 0x20u8]
}

/// `"---\n"`
pub open spec fn separator_line() -> Seq<u8> {
    seq![0x2du8, 0x2du8, 0x2du8, 0x0au8]
}

/// The block written for one match: address, private key and trailing-run
/// count, each on a labelled line, then the separator line.
pub open spec fn record_block_of(rec: TronAddress) -> Seq<u8> {
    label_address() + rec.address@ + seq![0x0au8] + label_key() + rec.private_key@ + seq![0x0au8]
        + label_run() + decimal_of(rec.same_chars_count as nat) + seq![0x0au8] + separator_line()
}

/// Renders one match as the exact bytes the sink appends for it.
pub fn format_record(rec: &TronAddress) -> (r: Vec<u8>)
    ensures
        r@ == record_block_of(*rec),
{
    let mut out: Vec<u8> = Vec::new();
    out.push(0x61);
    out.push(0x64);
    out.push(0x64);
    out.push(0x72);
    out.push(0x3a);
    out.push(0x20);
    push_range(&mut out, rec.address.as_slice(), 0, rec.address.len());
    out.push(0x0a);
    out.push(0x6b);
    out.push(0x65);
    out.push(0x79);
    out.push(0x3a);
    out.push(0x20);
    push_range(&mut out, rec.private_key.as_slice(), 0, rec.private_key.len());
    out.push(0x0a);
    out.push(0x72);
    out.push(0x75);
    out.push(0x6e);
    out.push(0x3a);
    out.push(0x20);
    push_decimal(&mut out, rec.same_chars_count);
    out.push(0x0a);
    out.push(0x2d);
    out.push(0x2d);
    out.push(0x2d);
    out.push(0x0a);
    proof {
        assert(rec.address@.subrange(0, rec.address@.len() as int) =~= rec.address@);
        assert(rec.private_key@.subrange(0, rec.private_key@.len() as int) =~= rec.private_key@);
        assert(out@ =~= record_block_of(*rec));
    }
    out
}

} // verus!
