use vstd::prelude::*;
use crate::codec::decode_u32;
use crate::codec::decoded_u32;
use crate::codec::encode_u32;
use crate::codec::lemma_u32_codec_round_trip;
use crate::codec::u32_le;
use crate::codec::u32_of_le;
use crate::codec::CodecError;

verus! {

/// One chain-extension invocation in transit: the function id naming the
/// handler and the raw argument buffer.  A frame is created for a single
/// call, owned by the dispatcher while it runs, and discarded with it.
pub struct CallFrame {
    /// Which registered handler the call is for.
    pub function_id: u32,
    /// The encoded argument tuple, opaque until the handler decodes it.
    pub input: Vec<u8>,
}

/// The wire form of a call crossing the sandbox boundary: the four
/// little-endian bytes of the function id, then the argument buffer.
pub open spec fn call_frame_bytes(function_id: u32, input: Seq<u8>) -> Seq<u8> {
    u32_le(function_id) + input
}

impl CallFrame {
    /// Put the frame on the wire.
    pub fn encode(&self) -> (r: Vec<u8>)
        ensures
            r@ == call_frame_bytes(self.function_id, self.input@),
    {
        let mut r = encode_u32(self.function_id);
        let mut input = Vec::new();
        let mut i: usize = 0;
        while i < self.input.len()
            invariant
                0 <= i <= self.input@.len(),
                input@ == self.input@.take(i as int),
            decreases self.input@.len() - i,
        {
            input.push(self.input[i]);
            proof {
                assert(self.input@.take(i + 1) =~= self.input@.take(i as int).push(
                    self.input@[i as int],
                ));
            }
            i += 1;
        }
        proof {
            assert(self.input@.take(self.input@.len() as int) =~= self.input@);
        }
        r.append(&mut input);
        r
    }
}

/// Read a frame back off the wire.  A buffer too short to carry a function
/// id is rejected; everything past the id is the argument buffer.
pub fn decode_call_frame(bytes: &Vec<u8>) -> (r: Result<CallFrame, CodecError>)
    ensures
        bytes@.len() >= 4 ==> (r matches Ok(f) && f.function_id == u32_of_le(bytes@.take(4))
            && f.input@ == bytes@.skip(4)),
        bytes@.len() < 4 ==> r == Err::<CallFrame, CodecError>(CodecError::TruncatedInput),
{
    match decode_u32(bytes) {
        Ok(p) => Ok(CallFrame { function_id: p.0, input: p.1 }),
        Err(e) => Err(e),
    }
}

/// Round-trip law of the frame codec: a frame put on the wire and read back
/// is the same frame.
pub proof fn lemma_call_frame_round_trip(function_id: u32, input: Seq<u8>)
    ensures
        decoded_u32(call_frame_bytes(function_id, input)) == Ok::<(u32, Seq<u8>), CodecError>(
            (function_id, input),
        ),
{
    lemma_u32_codec_round_trip(function_id, input);
}

} // verus!
