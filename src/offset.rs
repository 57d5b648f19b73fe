use vstd::prelude::*;

use crate::decode::{FromData, SafeStream};

verus! {

/// A 32-bit byte offset into some buffer that the caller knows; in its
/// optional form the value 0 means that there is no offset.
#[derive(Clone, Copy, Debug, PartialEq, Eq, Structural)]
pub struct Offset32(pub u32);

impl FromData for Offset32 {
    open spec fn spec_raw_size() -> nat {
        4
    }

    open spec fn spec_decode(bytes: Seq<u8>) -> Offset32 {
        Offset32(crate::decode::be_u32(bytes[0], bytes[1], bytes[2], bytes[3]))
    }

    fn parse(s: &mut SafeStream) -> (r: Offset32) {
        Offset32(s.read::<u32>())
    }

    fn raw_size() -> (r: usize) {
        u32::raw_size()
    }
}

impl FromData for Option<Offset32> {
    open spec fn spec_raw_size() -> nat {
        4
    }

    open spec fn spec_decode(bytes: Seq<u8>) -> Option<Offset32> {
        let v = crate::decode::be_u32(bytes[0], bytes[1], bytes[2], bytes[3]);
        if v == 0 {
            None
        } else {
            Some(Offset32(v))
        }
    }

    fn parse(s: &mut SafeStream) -> (r: Option<Offset32>) {
        let offset: Offset32 = s.read();
        if offset.0 != 0 {
            Some(offset)
        } else {
            None
        }
    }

    fn raw_size() -> (r: usize) {
        Offset32::raw_size()
    }
}

} // verus!
