use vstd::prelude::*;
use crate::text::{decimal, hex_of, push_decimal, push_hex};

verus! {

/// What the remote client reports of one block.
#[derive(Clone, Copy, Debug, PartialEq, Eq)]
pub struct BlockMetadata {
    pub hash: [u8; 32],
    /// Seconds since the epoch.
    pub timestamp: u64,
}

/// The result of one block query: exactly one of three.
#[derive(Clone, Debug, PartialEq, Eq)]
pub enum QueryOutcome {
    Found(BlockMetadata),
    NotFound,
    Failed(String),
}

/// The text shown for a block that was found, on both frontends.
pub open spec fn block_text(number: u64, meta: BlockMetadata) -> Seq<char> {
    "Block "@ + decimal(number as nat) + ": Hash: 0x"@ + hex_of(meta.hash@) + ", Timestamp: "@
        + decimal(meta.timestamp as nat)
}

/// Renders the block number, its hash in hexadecimal and its timestamp.
pub fn describe_block(number: u64, meta: &BlockMetadata) -> (r: String)
    ensures
        r@ == block_text(number, *meta),
{
    let mut out = String::new();
    out.append("Block ");
    push_decimal(&mut out, number);
    out.append(": Hash: 0x");
    push_hex(&mut out, &meta.hash);
    out.append(", Timestamp: ");
    push_decimal(&mut out, meta.timestamp);
    out
}

} // verus!
