use vstd::prelude::*;

use vstd::string::StringSliceAdditionalSpecFns;
use x32_osc_state::osc::{Buffer, Message, Packet};

verus! {

/// An OSC string field: the bytes followed by one to four zero bytes, so
/// that the length is a multiple of four.
pub open spec fn osc_string(bytes: Seq<u8>) -> Seq<u8> {
    let pad = 4 - bytes.len() % 4;
    bytes + Seq::new(pad as nat, |i: int| 0u8)
}

/// The bytes of an OSC message with one string argument: the address field,
/// the type tag field `,s` and the argument field.
pub open spec fn string_message_bytes(address: Seq<u8>, arg: Seq<u8>) -> Seq<u8> {
    osc_string(address) + osc_string(",s"@.map_values(|c: char| c as u8)) + osc_string(arg)
}

/// Builds the x32_osc_state message `Message::new(address)` with `arg` as
/// its single string argument, and encodes it with
/// `TryFrom<Packet> for Buffer`, taking the empty buffer where encoding
/// fails (`unwrap_or_default`). The contract restates that crate's
/// encoding: the message is refused exactly when the address is empty or
/// not ASCII, and otherwise is the address, `,s` and the argument, each as
/// UTF-8 padded with zeros to a multiple of four bytes.
#[verifier::external_body]
fn encode_string_message(address: &str, arg: &str) -> (r: Vec<u8>)
    ensures
        address@.len() > 0 && vstd::string::is_ascii(address) ==> r@ == string_message_bytes(
            address.spec_bytes(),
            arg.spec_bytes(),
        ),
        !(address@.len() > 0 && vstd::string::is_ascii(address)) ==> r@ == Seq::<u8>::empty(),
{
    let mut message = Message::new(address);
    message.add_item(arg.to_owned());
    let buffer: Buffer = Packet::Message(message).try_into().unwrap_or_default();
    buffer.as_vec()
}

/// The address under which VOR receives the current cue.
pub open spec fn cue_address() -> Seq<char> {
    "/currentCue"@
}

/// The OSC packet that tells VOR the name of the active cue: a
/// `/currentCue` message with the name as its string argument.
pub fn cue_packet(cue: &str) -> (r: Vec<u8>)
    ensures
        r@ == string_message_bytes(
            cue_address().map_values(|c: char| c as u8),
            cue.spec_bytes(),
        ),
{
    let address = "/currentCue";
    proof {
        reveal_strlit("/currentCue");
        assert(vstd::string::is_ascii(address));
        vstd::string::is_ascii_spec_bytes(address);
        assert(address.spec_bytes() =~= cue_address().map_values(|c: char| c as u8));
    }
    encode_string_message(address, cue)
}

/// Every OSC string field, and so every string message, fills whole
/// four-byte words.
pub proof fn lemma_string_message_aligned(address: Seq<u8>, arg: Seq<u8>)
    ensures
        osc_string(arg).len() % 4 == 0,
        osc_string(arg).len() > arg.len(),
        string_message_bytes(address, arg).len() % 4 == 0,
{
    let t = ",s"@.map_values(|c: char| c as u8);
    assert(osc_string(address).len() % 4 == 0);
    assert(osc_string(t).len() % 4 == 0);
    assert(osc_string(arg).len() % 4 == 0);
}

/// The `/currentCue` packet byte by byte: `/currentCue` and one zero, then
/// `,s` and two zeros, then the cue name's bytes and one to four zeros.
pub proof fn lemma_cue_packet_layout(arg: Seq<u8>)
    ensures
        ({
            let b = string_message_bytes(cue_address().map_values(|c: char| c as u8), arg);
            &&& b.subrange(0, 16) == seq![
                0x2fu8, 0x63u8, 0x75u8, 0x72u8, 0x72u8, 0x65u8, 0x6eu8, 0x74u8,
                0x43u8, 0x75u8, 0x65u8, 0x00u8, 0x2cu8, 0x73u8, 0x00u8, 0x00u8,
            ]
            &&& b.subrange(16, 16 + arg.len() as int) == arg
            &&& 16 + arg.len() < b.len() <= 20 + arg.len()
            &&& forall|i: int| 16 + arg.len() <= i < b.len() ==> b[i] == 0u8
            &&& b.len() % 4 == 0
        }),
{
    reveal_strlit("/currentCue");
    reveal_strlit(",s");
    let a = cue_address().map_values(|c: char| c as u8);
    let t = ",s"@.map_values(|c: char| c as u8);
    assert(a.len() == 11);
    assert(t.len() == 2);
    let b = string_message_bytes(a, arg);
    let oa = osc_string(a);
    let ot = osc_string(t);
    assert(oa.len() == 12);
    assert(ot.len() == 4);
    assert(b == oa + ot + osc_string(arg));
    assert(b.subrange(0, 16) =~= seq![
        0x2fu8, 0x63u8, 0x75u8, 0x72u8, 0x72u8, 0x65u8, 0x6eu8, 0x74u8,
        0x43u8, 0x75u8, 0x65u8, 0x00u8, 0x2cu8, 0x73u8, 0x00u8, 0x00u8,
    ]);
    assert(b.subrange(16, 16 + arg.len() as int) =~= arg);
    lemma_string_message_aligned(a, arg);
}

} // verus!
