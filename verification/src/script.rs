//! The two fixed script patterns that the two-party template pays to.

use vstd::prelude::*;

verus! {

/// The opcode that marks witness version 1.
pub const OP_WITNESS_V1: u8 = 0x51;

/// The opcode that pushes the next 32 bytes.
pub const OP_PUSHBYTES_32: u8 = 0x20;

/// The taproot pattern: the version marker, the push opcode, then the key.
pub open spec fn taproot_script(key: Seq<u8>) -> Seq<u8> {
    seq![OP_WITNESS_V1, OP_PUSHBYTES_32] + key
}

/// The anchor pattern: a constant script of four bytes.
pub open spec fn anchor_script() -> Seq<u8> {
    seq![0x51u8, 0x02u8, 0x4eu8, 0x73u8]
}

/// Builds the taproot script that pays to the x-only key `key`.
pub fn taproot_script_pubkey(key: &[u8; 32]) -> (script: Vec<u8>)
    ensures
        script@ == taproot_script(key@),
        script@.len() == 34,
{
    let mut script: Vec<u8> = Vec::new();
    script.push(OP_WITNESS_V1);
    script.push(OP_PUSHBYTES_32);
    let mut at: usize = 0;
    while at < 32
        invariant
            at <= 32,
            script@ == seq![OP_WITNESS_V1, OP_PUSHBYTES_32] + key@.take(at as int),
        decreases 32 - at,
    {
        script.push(key[at]);
        assert(key@.take(at + 1) =~= key@.take(at as int).push(key@[at as int]));
        at = at + 1;
    }
    assert(key@.take(32) =~= key@);
    script
}

/// Builds the anchor script.
pub fn anchor_script_pubkey() -> (script: Vec<u8>)
    ensures
        script@ == anchor_script(),
{
    let mut script: Vec<u8> = Vec::new();
    script.push(0x51);
    script.push(0x02);
    script.push(0x4e);
    script.push(0x73);
    assert(script@ =~= anchor_script());
    script
}

} // verus!
