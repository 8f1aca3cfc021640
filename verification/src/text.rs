//! Byte-string helpers: exact equality, ASCII case-insensitive equality and
//! search.  Decoded names are byte strings; all name matching of the engine
//! goes through these.

use vstd::prelude::*;

verus! {

/// `b` with an ASCII capital letter turned into its small form.
pub open spec fn lower_byte(b: u8) -> u8 {
    if 65 <= b <= 90 {
        (b + 32) as u8
    } else {
        b
    }
}

/// Whether two byte strings are equal up to ASCII case.
pub open spec fn ascii_eq_ignore_case(a: Seq<u8>, b: Seq<u8>) -> bool {
    a.len() == b.len() && forall|i: int| 0 <= i < a.len() ==> lower_byte(a[i]) == lower_byte(b[i])
}

/// Whether `needle` occurs in `hay` up to ASCII case.
pub open spec fn contains_ignore_case(hay: Seq<u8>, needle: Seq<u8>) -> bool {
    exists|k: int|
        0 <= k && k + needle.len() <= hay.len() && #[trigger] ascii_eq_ignore_case(
            hay.subrange(k, k + needle.len()),
            needle,
        )
}

/// Turns an ASCII capital letter into its small form.
pub fn to_lower_byte(b: u8) -> (r: u8)
    ensures
        r == lower_byte(b),
{
    if 65 <= b && b <= 90 {
        b + 32
    } else {
        b
    }
}

/// Exact equality of two byte strings.
pub fn bytes_equal(a: &Vec<u8>, b: &Vec<u8>) -> (r: bool)
    ensures
        r == (a@ == b@),
{
    if a.len() != b.len() {
        return false;
    }
    let n = a.len();
    let mut i: usize = 0;
    while i < n
        invariant
            n == a@.len(),
            n == b@.len(),
            i <= n,
            forall|j: int| 0 <= j < i ==> a@[j] == b@[j],
        decreases n - i,
    {
        if a[i] != b[i] {
            return false;
        }
        i = i + 1;
    }
    proof {
        assert(a@ =~= b@);
    }
    true
}

/// Equality of two byte strings up to ASCII case.
pub fn eq_ignore_ascii_case(a: &Vec<u8>, b: &Vec<u8>) -> (r: bool)
    ensures
        r == ascii_eq_ignore_case(a@, b@),
{
    if a.len() != b.len() {
        return false;
    }
    let n = a.len();
    let mut i: usize = 0;
    while i < n
        invariant
            n == a@.len(),
            n == b@.len(),
            i <= n,
            forall|j: int| 0 <= j < i ==> lower_byte(a@[j]) == lower_byte(b@[j]),
        decreases n - i,
    {
        if to_lower_byte(a[i]) != to_lower_byte(b[i]) {
            return false;
        }
        i = i + 1;
    }
    true
}

/// Whether `needle` occurs in `hay` up to ASCII case.
pub fn contains_ignore_ascii_case(hay: &Vec<u8>, needle: &Vec<u8>) -> (r: bool)
    ensures
        r == contains_ignore_case(hay@, needle@),
{
    let h = hay.len();
    let m = needle.len();
    if m > h {
        return false;
    }
    let mut k: usize = 0;
    while k <= h - m
        invariant
            m <= h,
            h == hay@.len(),
            m == needle@.len(),
            k <= h - m + 1,
            forall|kk: int|
                0 <= kk < k ==> !(#[trigger] ascii_eq_ignore_case(
                    hay@.subrange(kk, kk + needle@.len()),
                    needle@,
                )),
        decreases h - m - k + 1,
    {
        let mut j: usize = 0;
        let mut all_match = true;
        while j < m
            invariant
                m <= h,
                h == hay@.len(),
                m == needle@.len(),
                k + m <= h,
                j <= m,
                all_match <==> forall|jj: int|
                    0 <= jj < j ==> lower_byte(hay@[k + jj]) == lower_byte(needle@[jj]),
            decreases m - j,
        {
            if to_lower_byte(hay[k + j]) != to_lower_byte(needle[j]) {
                all_match = false;
                proof {
                    assert(lower_byte(hay@[k + j]) != lower_byte(needle@[j as int]));
                }
                j = m;
            } else {
                j = j + 1;
            }
        }
        if all_match {
            proof {
                let sub = hay@.subrange(k as int, k + needle@.len());
                assert forall|jj: int| 0 <= jj < needle@.len() implies lower_byte(sub[jj])
                    == lower_byte(needle@[jj]) by {
                    assert(sub[jj] == hay@[k + jj]);
                }
                assert(ascii_eq_ignore_case(sub, needle@));
            }
            return true;
        }
        proof {
            let sub = hay@.subrange(k as int, k + needle@.len());
            let bad = choose|jj: int|
                0 <= jj < m && lower_byte(hay@[k + jj]) != lower_byte(needle@[jj]);
            assert(sub[bad] == hay@[k + bad]);
            assert(!ascii_eq_ignore_case(sub, needle@));
        }
        k = k + 1;
    }
    false
}

/// A copy of a byte string.
pub fn copy_bytes(v: &Vec<u8>) -> (r: Vec<u8>)
    ensures
        r@ == v@,
{
    let n = v.len();
    let mut out: Vec<u8> = Vec::new();
    let mut i: usize = 0;
    while i < n
        invariant
            n == v@.len(),
            i <= n,
            out@ =~= v@.subrange(0, i as int),
        decreases n - i,
    {
        out.push(v[i]);
        proof {
            assert(out@ =~= v@.subrange(0, i + 1));
        }
        i = i + 1;
    }
    proof {
        assert(out@ =~= v@);
    }
    out
}

} // verus!
