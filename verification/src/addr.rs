//! Normalization of the transport session address.
//!
//! An address given without an explicit port gets the default transport port
//! `22` appended; an address that already names a port is left unchanged.

use vstd::prelude::*;
use vstd::string::StringExecFns;
use vstd::utf8::encode_utf8;

verus! {

/// Holds when the UTF-8 encoding of the address contains the ASCII colon
/// byte that separates host and port.
pub open spec fn names_port(encoded: Seq<u8>) -> bool {
    encoded.contains(58u8)
}

/// Reports whether the address already names a port, that is, whether its
/// byte encoding contains a colon separator.
pub fn contains_port_separator(address: &str) -> (found: bool)
    ensures
        found == names_port(encode_utf8(address@)),
{
    let bytes: &[u8] = address.as_bytes();
    let len: usize = bytes.len();
    let mut i: usize = 0;
    while i < len
        invariant
            len == bytes@.len(),
            bytes@ == encode_utf8(address@),
            i <= len,
            forall|j: int| 0 <= j < i ==> bytes@[j] != 58u8,
        decreases len - i,
    {
        if bytes[i] == 58u8 {
            assert(encode_utf8(address@)[i as int] == 58u8);
            return true;
        }
        i += 1;
    }
    false
}

/// Appends the default transport port to an address that names none: the
/// result is the address itself when it already contains a colon, and the
/// address followed by `":22"` otherwise.
pub fn with_default_port(address: String) -> (normalized: String)
    ensures
        names_port(encode_utf8(address@)) ==> normalized@ == address@,
        !names_port(encode_utf8(address@)) ==> normalized@ == address@ + ":22"@,
{
    if contains_port_separator(address.as_str()) {
        address
    } else {
        address.concat(":22")
    }
}

} // verus!
