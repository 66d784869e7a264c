use vstd::prelude::*;

use crate::patch::{ConstructionError, Patch, PatchView};

verus! {

/// The opcode of a direct relative call.
pub const CALL_OPCODE: u8 = 0xe8;

/// The length of a direct relative call: the opcode and a 32-bit displacement.
pub const CALL_LEN: usize = 5;

/// The displacement that a call at `call_site` encodes to reach `target`: it counts from
/// the end of the instruction.
pub open spec fn rel32(call_site: int, target: int) -> int {
    target - (call_site + 5)
}

/// `x` fits in a signed 32-bit field.
pub open spec fn fits_i32(x: int) -> bool {
    -0x8000_0000 <= x < 0x8000_0000
}

/// The two's complement pattern of `x` as an unsigned 32-bit number.
pub open spec fn twos_complement(x: int) -> int {
    if x < 0 {
        x + 0x1_0000_0000
    } else {
        x
    }
}

/// The four little-endian bytes of the unsigned 32-bit number `u`.
pub open spec fn le_bytes(u: int) -> Seq<u8> {
    seq![
        (u % 0x100) as u8,
        ((u / 0x100) % 0x100) as u8,
        ((u / 0x1_0000) % 0x100) as u8,
        ((u / 0x100_0000) % 0x100) as u8,
    ]
}

/// The signed 32-bit number held little-endian in the four bytes `b`.
pub open spec fn decode_i32(b: Seq<u8>) -> int {
    let u = b[0] as int + 0x100 * b[1] as int + 0x1_0000 * b[2] as int + 0x100_0000 * b[3] as int;
    if u >= 0x8000_0000 {
        u - 0x1_0000_0000
    } else {
        u
    }
}

/// The five bytes of a direct call at `call_site` to `target`.
pub open spec fn call_bytes(call_site: int, target: int) -> Seq<u8> {
    seq![CALL_OPCODE] + le_bytes(twos_complement(rel32(call_site, target)))
}

/// The target that the call instruction `b`, standing at `call_site`, reaches.
pub open spec fn call_target(call_site: int, b: Seq<u8>) -> int {
    call_site + 5 + decode_i32(b.subrange(1, 5))
}

proof fn lemma_le_digits(u: u32)
    ensures
        u as int == (u % 0x100) as int + 0x100 * ((u / 0x100) % 0x100) as int + 0x1_0000 * ((u
            / 0x1_0000) % 0x100) as int + 0x100_0000 * ((u / 0x100_0000) % 0x100) as int,
{
    assert(u == (u % 0x100) + 0x100 * ((u / 0x100) % 0x100) + 0x1_0000 * ((u / 0x1_0000) % 0x100)
        + 0x100_0000 * ((u / 0x100_0000) % 0x100)) by (bit_vector);
}

/// Decoding the bytes of a call gives back the target it was encoded for.
proof fn lemma_call_target(call_site: int, target: int)
    requires
        fits_i32(rel32(call_site, target)),
    ensures
        call_bytes(call_site, target).len() == 5,
        call_bytes(call_site, target)[0] == CALL_OPCODE,
        call_target(call_site, call_bytes(call_site, target)) == target,
{
    let u = twos_complement(rel32(call_site, target));
    let b = call_bytes(call_site, target);
    lemma_le_digits(u as u32);
    assert(b.subrange(1, 5) =~= le_bytes(u));
}

/// The five bytes of a direct call at `call_site` to `target`, or `None` where the
/// displacement does not fit in 32 bits.
fn encode_call(call_site: usize, target: usize) -> (r: Option<Vec<u8>>)
    ensures
        r is Some <==> fits_i32(rel32(call_site as int, target as int)),
        r matches Some(b) ==> b@ == call_bytes(call_site as int, target as int),
{
    let rel: i128 = target as i128 - (call_site as i128 + 5);
    if rel < -0x8000_0000 || rel >= 0x8000_0000 {
        return None;
    }
    let u: u32 = if rel < 0 {
        (rel + 0x1_0000_0000) as u32
    } else {
        rel as u32
    };
    let v = vec![
        CALL_OPCODE,
        (u % 0x100) as u8,
        ((u / 0x100) % 0x100) as u8,
        ((u / 0x1_0000) % 0x100) as u8,
        ((u / 0x100_0000) % 0x100) as u8,
    ];
    assert(v@ =~= call_bytes(call_site as int, target as int));
    Some(v)
}

/// A patch that redirects the direct call at `call_addr` from `old_fn_addr` to
/// `new_fn_addr`. All three addresses are in one address space. Fails where either
/// displacement does not fit in 32 bits, rather than truncate it.
pub fn call_patch(call_addr: usize, old_fn_addr: usize, new_fn_addr: usize) -> (r: Result<
    Patch,
    ConstructionError,
>)
    ensures
        r is Ok <==> fits_i32(rel32(call_addr as int, old_fn_addr as int)) && fits_i32(
            rel32(call_addr as int, new_fn_addr as int),
        ),
        r matches Ok(p) ==> p@ == (PatchView {
            addr: call_addr as int,
            old: call_bytes(call_addr as int, old_fn_addr as int),
            new: call_bytes(call_addr as int, new_fn_addr as int),
        }),
        r matches Ok(p) ==> p@.old.len() == 5 && p@.old[0] == CALL_OPCODE && call_target(
            call_addr as int,
            p@.old,
        ) == old_fn_addr,
        r matches Ok(p) ==> p@.new.len() == 5 && p@.new[0] == CALL_OPCODE && call_target(
            call_addr as int,
            p@.new,
        ) == new_fn_addr,
        r matches Err(e) ==> e == ConstructionError::DisplacementOutOfRange,
{
    let old_bytes = match encode_call(call_addr, old_fn_addr) {
        Some(b) => b,
        None => {
            return Err(ConstructionError::DisplacementOutOfRange);
        },
    };
    let new_bytes = match encode_call(call_addr, new_fn_addr) {
        Some(b) => b,
        None => {
            return Err(ConstructionError::DisplacementOutOfRange);
        },
    };
    proof {
        lemma_call_target(call_addr as int, old_fn_addr as int);
        lemma_call_target(call_addr as int, new_fn_addr as int);
    }
    match Patch::new(call_addr, old_bytes, new_bytes) {
        Ok(p) => Ok(p),
        Err(e) => Err(e),
    }
}

} // verus!
