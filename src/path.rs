use vstd::prelude::*;
use crate::error::Error;
use vstd::string::StringSliceAdditionalSpecFns;

verus! {

/// The bytes of a text as a native string: the text followed by one zero byte.
pub open spec fn terminated(s: Seq<u8>) -> Seq<u8> {
    s.push(0u8)
}

/// Encodes a path or query string for the native library.
///
/// The native library reads a string up to its first zero byte, so a text
/// that holds a zero byte cannot be handed over and is refused.
pub fn native_string(text: &str) -> (r: Result<Vec<u8>, Error>)
    ensures
        r is Err <==> text.spec_bytes().contains(0u8),
        r matches Err(e) ==> e == Error::InvalidArgument,
        r matches Ok(v) ==> v@ == terminated(text.spec_bytes()),
{
    let bytes = text.as_bytes();
    let mut out: Vec<u8> = Vec::new();
    let mut i: usize = 0;
    while i < bytes.len()
        invariant
            bytes@ == text.spec_bytes(),
            0 <= i <= bytes@.len(),
            out@ == bytes@.subrange(0, i as int),
            forall|k: int| 0 <= k < i ==> bytes@[k] != 0u8,
        decreases bytes@.len() - i,
    {
        if bytes[i] == 0u8 {
            proof {
                assert(bytes@[i as int] == 0u8);
                assert(text.spec_bytes().contains(0u8));
            }
            return Err(Error::InvalidArgument);
        }
        out.push(bytes[i]);
        proof {
            assert(out@ =~= bytes@.subrange(0, i + 1));
        }
        i = i + 1;
    }
    out.push(0u8);
    proof {
        assert(bytes@.subrange(0, i as int) =~= bytes@);
        assert(!text.spec_bytes().contains(0u8)) by {
            if text.spec_bytes().contains(0u8) {
                let k = choose|k: int| 0 <= k < bytes@.len() && bytes@[k] == 0u8;
                assert(bytes@[k] != 0u8);
            }
        }
    }
    Ok(out)
}

} // verus!
