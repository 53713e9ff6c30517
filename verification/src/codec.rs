use vstd::prelude::*;
use crate::account::AccountId;
use crate::status::ContractError;

verus! {

/// Why a buffer failed to decode.
#[derive(Clone, Copy, Debug, PartialEq, Eq, Structural)]
pub enum CodecError {
    /// The buffer is shorter than the target type requires.
    TruncatedInput,
    /// An enumeration discriminant that names no declared variant.
    UnknownVariant,
}

/// The four little-endian bytes of a 32-bit unsigned integer: the wire form
/// every 32-bit quantity of the bridge travels in.
pub open spec fn u32_le(v: u32) -> Seq<u8> {
    seq![
        (v % 0x100) as u8,
        ((v / 0x100) % 0x100) as u8,
        ((v / 0x10000) % 0x100) as u8,
        ((v / 0x1000000) % 0x100) as u8,
    ]
}

/// The 32-bit unsigned integer read back from four little-endian bytes.
pub open spec fn u32_of_le(b: Seq<u8>) -> u32
    recommends
        b.len() == 4,
{
    (b[0] + b[1] * 0x100 + b[2] * 0x10000 + b[3] * 0x1000000) as u32
}

/// What decoding a 32-bit unsigned integer from the front of a buffer
/// yields: the value and the untouched remainder, or a rejection of a buffer
/// shorter than four bytes.
pub open spec fn decoded_u32(b: Seq<u8>) -> Result<(u32, Seq<u8>), CodecError> {
    if b.len() >= 4 {
        Ok((u32_of_le(b.take(4)), b.skip(4)))
    } else {
        Err(CodecError::TruncatedInput)
    }
}

/// The wire form of an argument pair of a value and an account: the fields'
/// encodings concatenated in declaration order, with no length prefix.
pub open spec fn pair_le(v: u32, a: AccountId) -> Seq<u8> {
    u32_le(v) + u32_le(a.id)
}

/// What decoding a value-and-account argument pair from the front of a
/// buffer yields.
pub open spec fn decoded_pair(b: Seq<u8>) -> Result<((u32, AccountId), Seq<u8>), CodecError> {
    match decoded_u32(b) {
        Ok((v, r1)) => match decoded_u32(r1) {
            Ok((a, r2)) => Ok(((v, AccountId { id: a }), r2)),
            Err(e) => Err(e),
        },
        Err(e) => Err(e),
    }
}

/// The wire form of a contract entry point's `Result` of unit: a one-byte
/// discriminant in declaration order — `0` for success, `1` for an error —
/// followed by the variant's payload, here the error's own one-byte
/// discriminant.
pub open spec fn result_unit_bytes(r: Result<(), ContractError>) -> Seq<u8> {
    match r {
        Ok(_) => seq![0u8],
        Err(ContractError::FailToCallRuntime) => seq![1u8, 0u8],
    }
}

/// What decoding a `Result` of unit from the front of a buffer yields.  An
/// unrecognised discriminant, of the result or of the error payload, is
/// rejected as [`CodecError::UnknownVariant`].
pub open spec fn decoded_result_unit(b: Seq<u8>) -> Result<
    (Result<(), ContractError>, Seq<u8>),
    CodecError,
> {
    if b.len() == 0 {
        Err(CodecError::TruncatedInput)
    } else if b[0] == 0 {
        Ok((Ok(()), b.skip(1)))
    } else if b[0] == 1 {
        if b.len() < 2 {
            Err(CodecError::TruncatedInput)
        } else if b[1] == 0 {
            Ok((Err(ContractError::FailToCallRuntime), b.skip(2)))
        } else {
            Err(CodecError::UnknownVariant)
        }
    } else {
        Err(CodecError::UnknownVariant)
    }
}

/// Round-trip law of the 32-bit codec: decoding the encoding of any
/// representable value, whatever bytes follow it, yields the value and the
/// following bytes exactly.
pub proof fn lemma_u32_codec_round_trip(v: u32, rest: Seq<u8>)
    ensures
        decoded_u32(u32_le(v) + rest) == Ok::<(u32, Seq<u8>), CodecError>((v, rest)),
{
    let b = u32_le(v) + rest;
    assert(b.take(4) =~= u32_le(v));
    assert(b.skip(4) =~= rest);
    lemma_u32_recompose(v);
}

/// Decomposing a 32-bit value into little-endian bytes and recomposing them
/// yields the value back.
proof fn lemma_u32_recompose(v: u32)
    ensures
        u32_of_le(u32_le(v)) == v,
{
    let b0: u8 = (v % 0x100) as u8;
    let b1: u8 = ((v / 0x100) % 0x100) as u8;
    let b2: u8 = ((v / 0x10000) % 0x100) as u8;
    let b3: u8 = ((v / 0x1000000) % 0x100) as u8;
    assert(u32_le(v) =~= seq![b0, b1, b2, b3]);
    assert(b0 + b1 * 0x100 + b2 * 0x10000 + b3 * 0x1000000 == v) by (bit_vector)
        requires
            b0 == v % 0x100,
            b1 == (v / 0x100) % 0x100,
            b2 == (v / 0x10000) % 0x100,
            b3 == (v / 0x1000000) % 0x100,
    ;
}

/// Round-trip law of the pair codec: decoding the encoding of any
/// value-and-account pair, whatever bytes follow it, yields the pair and the
/// following bytes exactly.
pub proof fn lemma_pair_codec_round_trip(v: u32, a: AccountId, rest: Seq<u8>)
    ensures
        decoded_pair(pair_le(v, a) + rest) == Ok::<((u32, AccountId), Seq<u8>), CodecError>(
            ((v, a), rest),
        ),
{
    let b = pair_le(v, a) + rest;
    assert(b =~= u32_le(v) + (u32_le(a.id) + rest));
    lemma_u32_codec_round_trip(v, u32_le(a.id) + rest);
    lemma_u32_codec_round_trip(a.id, rest);
}

/// Round-trip law of the result codec: decoding the encoding of any
/// `Result` of unit, whatever bytes follow it, yields the result and the
/// following bytes exactly.
pub proof fn lemma_result_unit_codec_round_trip(r: Result<(), ContractError>, rest: Seq<u8>)
    ensures
        decoded_result_unit(result_unit_bytes(r) + rest) == Ok::<
            (Result<(), ContractError>, Seq<u8>),
            CodecError,
        >((r, rest)),
{
    let b = result_unit_bytes(r) + rest;
    if r is Ok {
        assert(r == Ok::<(), ContractError>(r->Ok_0));
        assert(b[0] == 0u8);
        assert(b.skip(1) =~= rest);
    } else {
        assert(r == Err::<(), ContractError>(r->Err_0));
        assert(b[0] == 1u8 && b[1] == 0u8);
        assert(b.skip(2) =~= rest);
    }
}

/// Copy the tail of a buffer from `start` on: the remainder a decoder hands
/// back beside the value it read.
fn tail_from(input: &Vec<u8>, start: usize) -> (r: Vec<u8>)
    requires
        start <= input@.len(),
    ensures
        r@ == input@.skip(start as int),
{
    let mut r: Vec<u8> = Vec::new();
    let mut i: usize = start;
    while i < input.len()
        invariant
            start <= i <= input@.len(),
            r@ == input@.subrange(start as int, i as int),
        decreases input@.len() - i,
    {
        r.push(input[i]);
        proof {
            assert(input@.subrange(start as int, i + 1) =~= input@.subrange(
                start as int,
                i as int,
            ).push(input@[i as int]));
        }
        i += 1;
    }
    proof {
        assert(input@.subrange(start as int, input@.len() as int) =~= input@.skip(start as int));
    }
    r
}

/// Encode a 32-bit unsigned integer as its four little-endian bytes.
pub fn encode_u32(v: u32) -> (r: Vec<u8>)
    ensures
        r@ == u32_le(v),
{
    let mut r: Vec<u8> = Vec::new();
    r.push((v % 0x100) as u8);
    r.push((v / 0x100 % 0x100) as u8);
    r.push((v / 0x10000 % 0x100) as u8);
    r.push((v / 0x1000000 % 0x100) as u8);
    proof {
        assert(r@ =~= u32_le(v));
    }
    r
}

/// Decode a 32-bit unsigned integer from the front of a buffer.  Decoding is
/// pure: the input is read, never mutated, and the bytes past the value come
/// back untouched as the remainder.
pub fn decode_u32(input: &Vec<u8>) -> (r: Result<(u32, Vec<u8>), CodecError>)
    ensures
        decoded_u32(input@) matches Ok(q) ==> (r matches Ok(p) && p.0 == q.0 && p.1@ == q.1),
        decoded_u32(input@) matches Err(e) ==> r == Err::<(u32, Vec<u8>), CodecError>(e),
{
    if input.len() < 4 {
        return Err(CodecError::TruncatedInput);
    }
    let b0 = input[0] as u32;
    let b1 = input[1] as u32;
    let b2 = input[2] as u32;
    let b3 = input[3] as u32;
    let v = b0 + b1 * 0x100 + b2 * 0x10000 + b3 * 0x1000000;
    proof {
        assert(input@.take(4) =~= seq![input@[0], input@[1], input@[2], input@[3]]);
    }
    let rest = tail_from(input, 4);
    Ok((v, rest))
}

/// Encode a value-and-account argument pair, each field in declaration
/// order.
pub fn encode_pair(v: u32, a: AccountId) -> (r: Vec<u8>)
    ensures
        r@ == pair_le(v, a),
{
    let mut r = encode_u32(v);
    let mut second = encode_u32(a.id);
    r.append(&mut second);
    r
}

/// Decode a value-and-account argument pair from the front of a buffer.
pub fn decode_pair(input: &Vec<u8>) -> (r: Result<((u32, AccountId), Vec<u8>), CodecError>)
    ensures
        decoded_pair(input@) matches Ok(q) ==> (r matches Ok(p) && p.0 == q.0 && p.1@ == q.1),
        decoded_pair(input@) matches Err(e) ==> r == Err::<((u32, AccountId), Vec<u8>), CodecError>(
            e,
        ),
{
    let (v, rest) = match decode_u32(input) {
        Ok(p) => p,
        Err(e) => {
            return Err(e);
        },
    };
    let (id, rest2) = match decode_u32(&rest) {
        Ok(p) => p,
        Err(e) => {
            return Err(e);
        },
    };
    Ok(((v, AccountId::new(id)), rest2))
}

/// Encode a contract entry point's `Result` of unit: the discriminant byte,
/// then the error payload if there is one.
pub fn encode_result_unit(r: Result<(), ContractError>) -> (out: Vec<u8>)
    ensures
        out@ == result_unit_bytes(r),
{
    let mut out: Vec<u8> = Vec::new();
    match r {
        Ok(_) => {
            out.push(0u8);
            proof {
                assert(out@ =~= result_unit_bytes(r));
            }
        },
        Err(ContractError::FailToCallRuntime) => {
            out.push(1u8);
            out.push(0u8);
            proof {
                assert(out@ =~= result_unit_bytes(r));
            }
        },
    }
    out
}

/// Decode a contract entry point's `Result` of unit from the front of a
/// buffer.
pub fn decode_result_unit(input: &Vec<u8>) -> (r: Result<
    (Result<(), ContractError>, Vec<u8>),
    CodecError,
>)
    ensures
        decoded_result_unit(input@) matches Ok(q) ==> (r matches Ok(p) && p.0 == q.0 && p.1@
            == q.1),
        decoded_result_unit(input@) matches Err(e) ==> r == Err::<
            (Result<(), ContractError>, Vec<u8>),
            CodecError,
        >(e),
{
    if input.len() == 0 {
        return Err(CodecError::TruncatedInput);
    }
    let d = input[0];
    if d == 0 {
        let rest = tail_from(input, 1);
        Ok((Ok(()), rest))
    } else if d == 1 {
        if input.len() < 2 {
            return Err(CodecError::TruncatedInput);
        }
        if input[1] == 0 {
            let rest = tail_from(input, 2);
            Ok((Err(ContractError::FailToCallRuntime), rest))
        } else {
            Err(CodecError::UnknownVariant)
        }
    } else {
        Err(CodecError::UnknownVariant)
    }
}

} // verus!
