//! Platform selection: the bare-metal targets a build can be wired to, and
//! the case-insensitive parsing of a platform name.

use vstd::prelude::*;
use vstd::string::{is_ascii, StringSliceAdditionalSpecFns};

verus! {

/// A supported bare-metal target.
#[derive(Clone, Copy, Debug, PartialEq, Eq, Structural)]
pub enum Platform {
    Nemu,
    Qemu,
    Spike,
}

/// An ASCII byte folded to lower case (other bytes unchanged).
pub open spec fn lower_byte(b: u8) -> u8 {
    if 65 <= b <= 90 {
        (b + 32) as u8
    } else {
        b
    }
}

/// The bytes match the (lower-case) target byte for byte, ignoring ASCII
/// case.
pub open spec fn ci_match(s: Seq<u8>, t: Seq<u8>) -> bool {
    s.len() == t.len() && forall|k: int| 0 <= k < s.len() ==> lower_byte(#[trigger] s[k]) == t[k]
}

/// The lower-case name of each platform, as bytes.
pub open spec fn platform_name_bytes(p: Platform) -> Seq<u8> {
    match p {
        Platform::Nemu => seq![110u8, 101u8, 109u8, 117u8],
        Platform::Qemu => seq![113u8, 101u8, 109u8, 117u8],
        Platform::Spike => seq![115u8, 112u8, 105u8, 107u8, 101u8],
    }
}

/// Fold an ASCII byte to lower case.
fn lower_byte_exec(b: u8) -> (r: u8)
    ensures
        r == lower_byte(b),
{
    if 65 <= b && b <= 90 {
        b + 32
    } else {
        b
    }
}

/// Compare bytes against a lower-case target, ignoring ASCII case.
fn matches_ci(s: &[u8], t: &[u8]) -> (r: bool)
    ensures
        r == ci_match(s@, t@),
{
    if s.len() != t.len() {
        return false;
    }
    let mut k: usize = 0;
    while k < s.len()
        invariant
            k <= s@.len(),
            s@.len() == t@.len(),
            forall|j: int| 0 <= j < k ==> lower_byte(#[trigger] s@[j]) == t@[j],
        decreases s@.len() - k,
    {
        if lower_byte_exec(s[k]) != t[k] {
            return false;
        }
        k += 1;
    }
    true
}

impl Platform {
    /// The platform's lower-case name.
    pub fn fmt(&self) -> (r: &'static str)
        ensures
            r.spec_bytes() == platform_name_bytes(*self),
            is_ascii(r),
    {
        let r = match self {
            Platform::Nemu => "nemu",
            Platform::Qemu => "qemu",
            Platform::Spike => "spike",
        };
        proof {
            reveal_strlit("nemu");
            reveal_strlit("qemu");
            reveal_strlit("spike");
            broadcast use vstd::string::is_ascii_spec_bytes;

            assert(is_ascii(r));
            assert(r.spec_bytes() =~= platform_name_bytes(*self));
        }
        r
    }

    /// Parse a platform name, ignoring ASCII case: `Some` exactly when the
    /// bytes spell one of the three platform names.
    pub fn from_str(s: &str) -> (r: Option<Platform>)
        ensures
            r == Some(Platform::Nemu) <==> ci_match(
                s.spec_bytes(),
                platform_name_bytes(Platform::Nemu),
            ),
            r == Some(Platform::Qemu) <==> ci_match(
                s.spec_bytes(),
                platform_name_bytes(Platform::Qemu),
            ),
            r == Some(Platform::Spike) <==> ci_match(
                s.spec_bytes(),
                platform_name_bytes(Platform::Spike),
            ),
            r is None <==> !ci_match(s.spec_bytes(), platform_name_bytes(Platform::Nemu))
                && !ci_match(s.spec_bytes(), platform_name_bytes(Platform::Qemu)) && !ci_match(
                s.spec_bytes(),
                platform_name_bytes(Platform::Spike),
            ),
    {
        let b = s.as_bytes();
        let nemu: [u8; 4] = [110, 101, 109, 117];
        let qemu: [u8; 4] = [113, 101, 109, 117];
        let spike: [u8; 5] = [115, 112, 105, 107, 101];
        proof {
            assert(nemu@ =~= platform_name_bytes(Platform::Nemu));
            assert(qemu@ =~= platform_name_bytes(Platform::Qemu));
            assert(spike@ =~= platform_name_bytes(Platform::Spike));
        }
        // The first byte separates "nemu" from "qemu"; "spike" differs in
        // length from both.
        proof {
            if ci_match(s.spec_bytes(), platform_name_bytes(Platform::Nemu)) && ci_match(
                s.spec_bytes(),
                platform_name_bytes(Platform::Qemu),
            ) {
                assert(lower_byte(s.spec_bytes()[0]) == 110);
                assert(lower_byte(s.spec_bytes()[0]) == 113);
            }
        }
        if matches_ci(b, nemu.as_slice()) {
            Some(Platform::Nemu)
        } else if matches_ci(b, qemu.as_slice()) {
            Some(Platform::Qemu)
        } else if matches_ci(b, spike.as_slice()) {
            Some(Platform::Spike)
        } else {
            None
        }
    }
}

} // verus!
