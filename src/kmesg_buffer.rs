//! The kernel message buffer, as the native call copies it out.

use vstd::prelude::*;
use vstd::utf8::{valid_utf8, decode_utf8};
use crate::helpers::decode_utf8_bytes;

verus! {

/// The message bytes of a native buffer read that returned `ret`: the count
/// includes a trailing terminator, which is left out.
pub open spec fn kmsg_bytes(ret: int, buffer: Seq<u8>) -> Seq<u8> {
    if ret > 0 {
        buffer.take(
            if ret - 1 <= buffer.len() {
                ret - 1
            } else {
                buffer.len() as int
            },
        )
    } else {
        Seq::empty()
    }
}

/// Reads the kernel message buffer that a native call copied into `buffer`,
/// returning `ret`. No message bytes at all is an error, not an empty text.
pub fn kmsgbuf_result(ret: i32, buffer: Vec<u8>) -> (r: Result<String, String>)
    ensures
        kmsg_bytes(ret as int, buffer@).len() == 0 ==> r is Err && r->Err_0@
            == "Could not read kernel message buffer"@,
        kmsg_bytes(ret as int, buffer@).len() > 0 && valid_utf8(kmsg_bytes(ret as int, buffer@))
            ==> r is Ok && r->Ok_0@ == decode_utf8(kmsg_bytes(ret as int, buffer@)),
        kmsg_bytes(ret as int, buffer@).len() > 0 && !valid_utf8(kmsg_bytes(ret as int, buffer@))
            ==> r is Err && r->Err_0@ == "Could not convert kernel message buffer from utf8"@,
{
    let mut message = buffer;
    if ret > 0 {
        message.truncate((ret - 1) as usize);
    } else {
        message.clear();
    }
    assert(message@ =~= kmsg_bytes(ret as int, buffer@));
    if message.len() == 0 {
        return Err(String::from_str("Could not read kernel message buffer"));
    }
    match decode_utf8_bytes(message) {
        Ok(text) => Ok(text),
        Err(_) => Err(String::from_str("Could not convert kernel message buffer from utf8")),
    }
}

} // verus!
