//! Outbound command frames: header, big-endian length field, payload and
//! an 8-bit CRC over the payload.

use vstd::prelude::*;

verus! {

/// First byte of every frame the meter sends or accepts.
pub const FRAME_HEADER: u8 = 0xAA;

/// Opcode asking a meter to start streaming telemetry.
pub const OPCODE_MONITORING: u8 = 0x08;

/// Checksum of a command payload under the meter's CRC-8 variant
/// (width 8, polynomial 0x85 applied MSB-first, initial value 0x00,
/// no input or output reflection, final xor 0x00). The checksum is a
/// function of the payload bytes alone.
pub uninterp spec fn crc8_of(payload: Seq<u8>) -> u8;

/// Relies on crc::Crc::<u8>::checksum, configured with width 8,
/// poly 0x85, init 0x00, refin false, refout false, xorout 0x00:
/// a pure checksum of the payload bytes.
#[verifier::external_body]
fn crc8(payload: &[u8]) -> (r: u8)
    ensures
        r == crc8_of(payload@),
{
    let alg = Box::new(crc::Algorithm::<u8> {
        width: 8,
        poly: 0x85,
        init: 0x00,
        refin: false,
        refout: false,
        xorout: 0x00,
        check: 0x00,
        residue: 0x00,
    });
    crc::Crc::<u8>::new(Box::leak(alg)).checksum(payload)
}

/// The command frame that carries `payload`: the header byte, the payload
/// length as a big-endian 16-bit field, the payload itself, and finally the
/// payload's CRC-8.
pub open spec fn command_frame(payload: Seq<u8>) -> Seq<u8>
    recommends
        payload.len() <= 0xFFFF,
{
    seq![FRAME_HEADER, (payload.len() / 256) as u8, (payload.len() % 256) as u8]
        + payload
        + seq![crc8_of(payload)]
}

/// Build the command frame around `payload`. A payload longer than the
/// 16-bit length field can describe is out of contract; `encode_command`
/// is the checked entry point.
pub fn gen_cmd(payload: &[u8]) -> (r: Vec<u8>)
    requires
        payload@.len() <= 0xFFFF,
    ensures
        r@ == command_frame(payload@),
        r@.len() == payload@.len() + 4,
{
    let n: usize = payload.len();
    let mut p: Vec<u8> = Vec::new();
    p.push(FRAME_HEADER);
    p.push((n / 256) as u8);
    p.push((n % 256) as u8);
    let mut i: usize = 0;
    while i < payload.len()
        invariant
            i <= payload@.len(),
            n == payload@.len(),
            n <= 0xFFFF,
            p@ == seq![FRAME_HEADER, (n / 256) as u8, (n % 256) as u8]
                + payload@.subrange(0, i as int),
        decreases payload@.len() - i,
    {
        p.push(payload[i]);
        assert(payload@.subrange(0, i as int).push(payload@[i as int])
            =~= payload@.subrange(0, i + 1));
        i = i + 1;
    }
    let c = crc8(payload);
    p.push(c);
    proof {
        assert(payload@.subrange(0, n as int) =~= payload@);
        assert(p@ =~= command_frame(payload@));
    }
    p
}

/// Why a command could not be encoded.
#[derive(Clone, Copy, PartialEq, Eq, Structural, Debug)]
pub enum EncodeError {
    /// The payload holds more bytes than the 16-bit length field can carry.
    PayloadTooLong,
}

/// Encode a command frame, rejecting a payload whose length does not fit
/// the 16-bit length field.
pub fn encode_command(payload: &[u8]) -> (r: Result<Vec<u8>, EncodeError>)
    ensures
        payload@.len() <= 0xFFFF ==> (r matches Ok(f) && f@ == command_frame(payload@)),
        payload@.len() > 0xFFFF ==> r == Result::<Vec<u8>, EncodeError>::Err(
            EncodeError::PayloadTooLong,
        ),
{
    if payload.len() <= 0xFFFF {
        Ok(gen_cmd(payload))
    } else {
        Err(EncodeError::PayloadTooLong)
    }
}

/// The pre-encoded "start monitoring" command frame that the polling loop
/// writes to every meter.
pub fn monitoring_command() -> (r: Vec<u8>)
    ensures
        r@ == command_frame(seq![OPCODE_MONITORING]),
        r@.len() == 5,
{
    let mut payload: Vec<u8> = Vec::new();
    payload.push(OPCODE_MONITORING);
    proof {
        assert(payload@ =~= seq![OPCODE_MONITORING]);
    }
    gen_cmd(payload.as_slice())
}

/// The length field of an encoded command big-endian-decodes to the payload
/// length, the payload is carried verbatim, and the final byte is the
/// payload's CRC-8.
pub proof fn lemma_command_frame_fields(payload: Seq<u8>)
    requires
        payload.len() <= 0xFFFF,
    ensures
        command_frame(payload).len() == payload.len() + 4,
        command_frame(payload)[0] == FRAME_HEADER,
        command_frame(payload)[1] * 256 + command_frame(payload)[2] == payload.len(),
        forall|i: int|
            0 <= i < payload.len() ==> command_frame(payload)[3 + i] == payload[i],
        command_frame(payload).last() == crc8_of(payload),
{
    assert(payload.len() / 256 * 256 + payload.len() % 256 == payload.len()) by (nonlinear_arith);
}

} // verus!
