//! Deciding whether an advertised device is one of the meters this
//! protocol speaks to: its advertised name, when present, must contain
//! the marker string "BTWATTCH2". A device without an advertised name is
//! never matched.

use vstd::prelude::*;

verus! {

/// The ASCII bytes of the name marker "BTWATTCH2".
pub open spec fn meter_name_marker() -> Seq<u8> {
    seq![0x42u8, 0x54u8, 0x57u8, 0x41u8, 0x54u8, 0x54u8, 0x43u8, 0x48u8, 0x32u8]
}

/// Whether the marker occurs somewhere in `name`.
pub open spec fn contains_marker(name: Seq<u8>) -> bool {
    exists|k: int|
        0 <= k && k + meter_name_marker().len() <= name.len()
            && #[trigger] name.subrange(k, k + meter_name_marker().len() as int)
                == meter_name_marker()
}

/// The marker bytes as a vector, for the byte-by-byte comparison.
fn marker_bytes() -> (m: Vec<u8>)
    ensures
        m@ == meter_name_marker(),
{
    let mut m: Vec<u8> = Vec::new();
    m.push(0x42);
    m.push(0x54);
    m.push(0x57);
    m.push(0x41);
    m.push(0x54);
    m.push(0x54);
    m.push(0x43);
    m.push(0x48);
    m.push(0x32);
    proof {
        assert(m@ =~= meter_name_marker());
    }
    m
}

/// Whether the marker occurs in `name`, checked at every offset.
fn name_has_marker(name: &[u8]) -> (r: bool)
    ensures
        r == contains_marker(name@),
{
    let m = marker_bytes();
    let n: usize = name.len();
    if n < 9 {
        return false;
    }
    let mut start: usize = 0;
    loop
        invariant
            m@ == meter_name_marker(),
            n == name@.len(),
            9 <= n,
            start <= n - 9,
            forall|k: int|
                0 <= k < start
                    ==> #[trigger] name@.subrange(k, k + 9) != meter_name_marker(),
        decreases name@.len() - start,
    {
        let mut j: usize = 0;
        let mut mismatch = false;
        while j < 9
            invariant
                m@ == meter_name_marker(),
                n == name@.len(),
                9 <= n,
                start <= n - 9,
                j <= 9,
                !mismatch ==> forall|t: int| 0 <= t < j ==> name@[start + t] == m@[t],
                mismatch ==> name@.subrange(start as int, start as int + 9)
                    != meter_name_marker(),
            decreases 9 - j,
        {
            if name[start + j] != m[j] {
                proof {
                    let w = name@.subrange(start as int, start as int + 9);
                    assert(w[j as int] == name@[start + j]);
                }
                mismatch = true;
                j = 9;
            } else {
                j = j + 1;
            }
        }
        if !mismatch {
            proof {
                assert(name@.subrange(start as int, start as int + 9)
                    =~= meter_name_marker());
            }
            return true;
        }
        if start == n - 9 {
            proof {
                assert forall|k: int| 0 <= k && k + 9 <= name@.len() implies
                    #[trigger] name@.subrange(k, k + 9) != meter_name_marker() by {
                    assert(0 <= k <= start);
                }
            }
            return false;
        }
        start = start + 1;
    }
}

/// Whether an advertised name identifies one of these meters: the name is
/// present and contains the marker. An absent name never matches.
pub fn is_btwattch2(local_name: &Option<Vec<u8>>) -> (r: bool)
    ensures
        r == (match local_name {
            Some(n) => contains_marker(n@),
            None => false,
        }),
{
    match local_name {
        Some(n) => name_has_marker(n.as_slice()),
        None => false,
    }
}

} // verus!
