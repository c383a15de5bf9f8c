//! Reading one key from the SMC user client.
//!
//! A read takes two calls on the same request record: first with command 9,
//! which answers the key's data size and type, then with command 5 and that
//! data size, which answers the key's bytes. The calls themselves go through
//! IOKit and are made by the caller; this module decides what to send and
//! what to keep.

use vstd::prelude::*;
use vstd::string::StringSliceAdditionalSpecFns;

verus! {

/// Command: read the key's info (data size and type).
pub const SMC_CMD_READ_KEYINFO: u8 = 9;

/// Command: read the key's bytes.
pub const SMC_CMD_READ_BYTES: u8 = 5;

/// The fields of the SMC request record that a read sets; every other field
/// of the record is zero.
#[derive(Clone, Copy, Debug, PartialEq, Eq, Structural)]
pub struct SmcRequest {
    /// The key, four characters packed big-endian.
    pub key: u32,
    /// The command byte.
    pub command: u8,
    /// The data size of the key (for reading its bytes).
    pub data_size: u32,
}

/// The fields of the SMC reply record that a read uses.
#[derive(Clone, Copy, Debug)]
pub struct SmcReply {
    /// The key's data size.
    pub data_size: u32,
    /// The key's data type, four characters packed big-endian.
    pub data_type: u32,
    /// The key's bytes.
    pub bytes: [u8; 32],
}

/// Four bytes packed big-endian into a `u32`; none unless there are exactly four.
pub open spec fn packed(b: Seq<u8>) -> Option<u32> {
    if b.len() == 4 {
        Some((16777216 * b[0] + 65536 * b[1] + 256 * b[2] + b[3]) as u32)
    } else {
        None
    }
}

/// The message for a key that is not four bytes long.
pub open spec fn key_length_message(key: Seq<char>) -> Seq<char> {
    "SMC 键必须 4 字符: "@ + key
}

/// Packs a four-byte key big-endian.
pub fn pack_key(key: &str) -> (r: Result<u32, String>)
    ensures
        match packed(key.spec_bytes()) {
            Some(k) => r == Ok::<u32, String>(k),
            None => r matches Err(e) && e@ == key_length_message(key@),
        },
{
    let b = key.as_bytes();
    if b.len() != 4 {
        let mut m = String::from_str("SMC 键必须 4 字符: ");
        m.append(key);
        return Err(m);
    }
    Ok(16777216 * b[0] as u32 + 65536 * b[1] as u32 + 256 * b[2] as u32 + b[3] as u32)
}

/// The first request of a read.
pub open spec fn info_request(key: u32) -> SmcRequest {
    SmcRequest { key, command: SMC_CMD_READ_KEYINFO, data_size: 0 }
}

/// The second request of a read, with the data size that the first one answered.
pub open spec fn bytes_request(key: u32, data_size: u32) -> SmcRequest {
    SmcRequest { key, command: SMC_CMD_READ_BYTES, data_size }
}

/// Reads one key through `call`, which performs one SMC call, and gives the
/// key's data type and bytes.
pub fn read_key(call: impl Fn(SmcRequest) -> Result<SmcReply, String>, key: &str) -> (r: Result<(u32, [u8; 32]), String>)
    requires
        forall|q: SmcRequest| call.requires((q,)),
    ensures
        packed(key.spec_bytes()) is None ==> (r matches Err(e) && e@ == key_length_message(key@)),
        packed(key.spec_bytes()) matches Some(k) ==> {
            &&& r matches Ok((t, b)) ==> exists|o1: SmcReply, o2: SmcReply|
                #[trigger] call.ensures((info_request(k),), Ok::<SmcReply, String>(o1)) && #[trigger] call.ensures(
                    (bytes_request(k, o1.data_size),),
                    Ok::<SmcReply, String>(o2),
                ) && t == o1.data_type && b == o2.bytes
            &&& r matches Err(e) ==> call.ensures((info_request(k),), Err::<SmcReply, String>(e))
                || exists|o1: SmcReply|
                #[trigger] call.ensures((info_request(k),), Ok::<SmcReply, String>(o1)) && call.ensures(
                    (bytes_request(k, o1.data_size),),
                    Err::<SmcReply, String>(e),
                )
        },
{
    let k = match pack_key(key) {
        Ok(k) => k,
        Err(e) => {
            return Err(e);
        },
    };
    let out1 = match call(SmcRequest { key: k, command: SMC_CMD_READ_KEYINFO, data_size: 0 }) {
        Ok(o) => o,
        Err(e) => {
            return Err(e);
        },
    };
    let out2 = match call(SmcRequest { key: k, command: SMC_CMD_READ_BYTES, data_size: out1.data_size }) {
        Ok(o) => o,
        Err(e) => {
            return Err(e);
        },
    };
    assert(call.ensures((info_request(k),), Ok::<SmcReply, String>(out1)));
    assert(call.ensures((bytes_request(k, out1.data_size),), Ok::<SmcReply, String>(out2)));
    Ok((out1.data_type, out2.bytes))
}

} // verus!
