//! The pack's description, and the trailer that locates it at the end of the
//! installer's own file.

use vstd::prelude::*;
use vstd::string::*;
use vstd::bytes::{spec_u64_from_le_bytes, u64_from_le_bytes};
use crate::text::{decimal, decimal_string};

verus! {

/// What the installer installs: the pack's name and description, where its
/// logo, its files and its bootstrap address are, and how the installer looks.
pub struct ModpackConfig {
    pub name: String,
    pub author: String,
    pub description: String,
    pub logo_url: String,
    pub packwiz_url: String,
    pub base_pack_url: String,
    pub theme: String,
    pub background: String,
}

/// The offset of the eight-byte trailer that ends a file of `file_size`
/// bytes; a shorter file holds none.
pub fn trailer_offset(file_size: u64) -> (r: Result<u64, String>)
    ensures
        file_size >= 8 ==> r == Ok::<u64, String>((file_size - 8) as u64),
        file_size < 8 ==> r is Err && r->Err_0@ == "Executable file is too small"@,
{
    if file_size < 8 {
        Err(String::from_str("Executable file is too small"))
    } else {
        Ok(file_size - 8)
    }
}

/// The length of the payload stored before the trailer: the trailer read as
/// a little-endian integer, which must be positive and fit in the file before
/// the trailer.
pub fn payload_length(file_size: u64, trailer: &[u8]) -> (r: Result<u64, String>)
    requires
        file_size >= 8,
        trailer@.len() == 8,
    ensures
        ({
            let len = spec_u64_from_le_bytes(trailer@);
            if len == 0 || len > file_size - 8 {
                r is Err && r->Err_0@ == "Invalid URL length: "@ + decimal(len as nat)
            } else {
                r == Ok::<u64, String>(len)
            }
        }),
{
    let len = u64_from_le_bytes(trailer);
    if len == 0 || len > file_size - 8 {
        let mut msg = String::from_str("Invalid URL length: ");
        let digits = decimal_string(len);
        msg.append(digits.as_str());
        Err(msg)
    } else {
        Ok(len)
    }
}

} // verus!
