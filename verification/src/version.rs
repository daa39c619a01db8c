//! The protocol-version gate: a claimed version string passes only if it
//! parses as `major.minor.patch` and is compatible with the backend's own
//! build version.
//!
//! The compatibility rule is deliberately literal: the major numbers must
//! match, and the minor and patch numbers must each lie within their own
//! closed range `[floor, backend's value]`, independently of one another
//! (the patch range is not nested inside the minor comparison).

use crate::decimal::{parse_u64_dec, u64_parses, u64_value};
use vstd::prelude::*;
use vstd::string::StringSliceAdditionalSpecFns;

verus! {

/// Oldest supported minor version within the backend's major line.
pub const EDAMAME_MINIMUM_MINOR: u64 = 3;

/// Oldest supported patch version within the backend's major line.
pub const EDAMAME_MINIMUM_PATCH: u64 = 3;

/// The backend's own build version, as a triple of constants.
pub const BACKEND_MAJOR: u64 = 0;

pub const BACKEND_MINOR: u64 = 3;

pub const BACKEND_PATCH: u64 = 4;

/// The backend's own build version, as the string used in error reports.
pub open spec fn backend_version_chars() -> Seq<char> {
    "0.3.4"@
}

pub fn backend_version_string() -> (s: String)
    ensures
        s@ == backend_version_chars(),
{
    "0.3.4".to_owned()
}

/// `i` and `j` are the positions of the only two dots in `s`, in order:
/// they split `s` into exactly three fields.
pub open spec fn splits_at_dots(s: Seq<u8>, i: int, j: int) -> bool {
    &&& 0 <= i < j < s.len()
    &&& s[i] == 46
    &&& s[j] == 46
    &&& forall|k: int| 0 <= k < s.len() && #[trigger] s[k] == 46 ==> k == i || k == j
}

/// The compatibility rule over the parsed triple.
pub open spec fn compatible_triple(major: nat, minor: nat, patch: nat) -> bool {
    &&& major == BACKEND_MAJOR
    &&& EDAMAME_MINIMUM_MINOR <= minor <= BACKEND_MINOR
    &&& EDAMAME_MINIMUM_PATCH <= patch <= BACKEND_PATCH
}

/// The three fields around the dots at `i` and `j` each parse as a `u64`
/// and the resulting triple passes the compatibility rule.
pub open spec fn version_fields_ok(s: Seq<u8>, i: int, j: int) -> bool {
    &&& u64_parses(s.subrange(0, i))
    &&& u64_parses(s.subrange(i + 1, j))
    &&& u64_parses(s.subrange(j + 1, s.len() as int))
    &&& compatible_triple(
        u64_value(s.subrange(0, i)),
        u64_value(s.subrange(i + 1, j)),
        u64_value(s.subrange(j + 1, s.len() as int)),
    )
}

/// A version string (as UTF-8 bytes) is acceptable: it has exactly three
/// dot-separated fields, each a `u64`, and the triple is compatible. A
/// malformed string is never acceptable; it is not read as version zero.
pub open spec fn version_compatible(s: Seq<u8>) -> bool {
    exists|i: int, j: int| splits_at_dots(s, i, j) && version_fields_ok(s, i, j)
}

/// Whether the claimed version string is compatible with the backend's
/// own build version.
pub fn verify_version(version: &str) -> (r: bool)
    ensures
        r == version_compatible(version.spec_bytes()),
{
    let bytes = version.as_bytes();
    let n = bytes.len();
    let mut ndots: usize = 0;
    let mut d1: usize = 0;
    let mut d2: usize = 0;
    let mut d3: usize = 0;
    let mut k: usize = 0;
    while k < n
        invariant
            k <= n,
            n == bytes@.len(),
            ndots <= k,
            ndots == 0 ==> forall|m: int| 0 <= m < k ==> #[trigger] bytes@[m] != 46,
            ndots == 1 ==> d1 < k && bytes@[d1 as int] == 46 && forall|m: int|
                0 <= m < k && #[trigger] bytes@[m] == 46 ==> m == d1,
            ndots == 2 ==> d1 < d2 < k && bytes@[d1 as int] == 46 && bytes@[d2 as int] == 46
                && forall|m: int| 0 <= m < k && #[trigger] bytes@[m] == 46 ==> m == d1 || m == d2,
            ndots >= 3 ==> d1 < d2 < d3 < k && bytes@[d1 as int] == 46 && bytes@[d2 as int] == 46
                && bytes@[d3 as int] == 46,
        decreases n - k,
    {
        if bytes[k] == 46 {
            if ndots == 0 {
                d1 = k;
            } else if ndots == 1 {
                d2 = k;
            } else if ndots == 2 {
                d3 = k;
            }
            ndots += 1;
        }
        k += 1;
    }
    if ndots != 2 {
        proof {
            if version_compatible(bytes@) {
                let (i, j) = choose|i: int, j: int|
                    splits_at_dots(bytes@, i, j) && version_fields_ok(bytes@, i, j);
                if ndots == 0 {
                    assert(bytes@[i] != 46);
                } else if ndots == 1 {
                    assert(i == d1 && j == d1);
                } else {
                    assert(d1 == i || d1 == j);
                    assert(d2 == i || d2 == j);
                    assert(d3 == i || d3 == j);
                }
                assert(false);
            }
        }
        return false;
    }
    let p1 = parse_u64_dec(&bytes[0..d1]);
    let p2 = parse_u64_dec(&bytes[d1 + 1..d2]);
    let p3 = parse_u64_dec(&bytes[d2 + 1..n]);
    let r = match (p1, p2, p3) {
        (Some(major), Some(minor), Some(patch)) => {
            major == BACKEND_MAJOR && minor >= EDAMAME_MINIMUM_MINOR && minor <= BACKEND_MINOR
                && patch >= EDAMAME_MINIMUM_PATCH && patch <= BACKEND_PATCH
        },
        _ => false,
    };
    proof {
        if r {
            assert(splits_at_dots(bytes@, d1 as int, d2 as int));
            assert(version_fields_ok(bytes@, d1 as int, d2 as int));
        } else {
            if version_compatible(bytes@) {
                let (i, j) = choose|i: int, j: int|
                    splits_at_dots(bytes@, i, j) && version_fields_ok(bytes@, i, j);
                assert(i == d1 && j == d2);
                assert(false);
            }
        }
    }
    r
}

} // verus!
