//! Runtime and path resolution.
//!
//! The gateway and the agent both need a JavaScript runtime of a
//! minimum major version. Resolution walks an ordered list of
//! candidates — the system installation first, then per-version
//! directories of a version manager — and the first usable candidate
//! wins. The directory scanning and the version-string gathering happen
//! in the runner; the selection itself is decided here, over plain
//! values, so it can be exercised with injected candidate lists.

use vstd::prelude::*;
use vstd::string::{StrSliceExecFns, StringSliceAdditionalSpecFns};
use crate::text::{
    is_ascii_whitespace, is_decimal_numeral, numeral_value, parse_numeral_range, trim_ascii,
    trim_bounds,
};

verus! {

/// The lowest runtime major version the gateway and agent support.
pub const MIN_NODE_MAJOR: u32 = 22;

/// The first usable candidate in an ordered list, if any.
pub fn first_available(available: &Vec<bool>) -> (r: Option<usize>)
    ensures
        match r {
            Some(i) => i < available@.len() && available@[i as int] && (forall|j: int|
                0 <= j < i ==> !available@[j]),
            None => forall|j: int| 0 <= j < available@.len() ==> !available@[j],
        },
{
    let n = available.len();
    let mut i: usize = 0;
    while i < n
        invariant
            0 <= i <= n,
            n == available@.len(),
            forall|j: int| 0 <= j < i ==> !available@[j],
        decreases n - i,
    {
        if available[i] {
            return Some(i);
        }
        i = i + 1;
    }
    None
}

/// The version's bytes after trimming, with every leading `'v'`
/// removed.
pub open spec fn strip_leading_v(s: Seq<u8>) -> Seq<u8>
    decreases s.len(),
{
    if s.len() > 0 && s[0] == 118 {
        strip_leading_v(s.drop_first())
    } else {
        s
    }
}

/// The bytes before the first `'.'`.
pub open spec fn major_segment(s: Seq<u8>) -> Seq<u8>
    decreases s.len(),
{
    if s.len() == 0 {
        s
    } else if s[0] == 46 {
        Seq::empty()
    } else {
        seq![s[0]] + major_segment(s.drop_first())
    }
}

/// The major version a name such as `v22.1.0` denotes: trim, strip the
/// `'v'` prefix, take what stands before the first dot, and read it as
/// a decimal number.
pub open spec fn spec_major_of(s: Seq<u8>) -> Option<u32> {
    let seg = major_segment(strip_leading_v(trim_ascii(s)));
    if is_decimal_numeral(seg) && numeral_value(seg) <= u32::MAX {
        Some(numeral_value(seg) as u32)
    } else {
        None
    }
}

proof fn lemma_strip_leading_v_at(s: Seq<u8>, k: int)
    requires
        0 <= k <= s.len(),
        forall|i: int| 0 <= i < k ==> s[i] == 118,
        k == s.len() || s[k] != 118,
    ensures
        strip_leading_v(s) =~= s.subrange(k, s.len() as int),
    decreases k,
{
    if k == 0 {
        assert(s.subrange(0, s.len() as int) =~= s);
    } else {
        let t = s.drop_first();
        assert(t =~= s.subrange(1, s.len() as int));
        lemma_strip_leading_v_at(t, k - 1);
        assert(t.subrange(k - 1, t.len() as int) =~= s.subrange(k, s.len() as int));
    }
}

proof fn lemma_major_segment_at(s: Seq<u8>, k: int)
    requires
        0 <= k <= s.len(),
        forall|i: int| 0 <= i < k ==> s[i] != 46,
        k == s.len() || s[k] == 46,
    ensures
        major_segment(s) =~= s.subrange(0, k),
    decreases k,
{
    if k == 0 {
        if s.len() == 0 {
            assert(major_segment(s) =~= s.subrange(0, 0));
        }
    } else {
        let t = s.drop_first();
        assert(t =~= s.subrange(1, s.len() as int));
        lemma_major_segment_at(t, k - 1);
        assert(major_segment(s) =~= seq![s[0]] + t.subrange(0, k - 1));
        assert(seq![s[0]] + t.subrange(0, k - 1) =~= s.subrange(0, k));
    }
}

/// Reads the major version out of a name such as `v22.1.0` or a version
/// report such as `v22.3.0` with trailing whitespace. `None` when no
/// number stands before the first dot.
pub fn parse_major_version(name: &str) -> (r: Option<u32>)
    ensures
        r == spec_major_of(name.spec_bytes()),
{
    let bytes: Vec<u8> = name.as_bytes_vec();
    let (lo, hi) = trim_bounds(&bytes);
    let ghost t = trim_ascii(bytes@);
    let mut start: usize = lo;
    while start < hi && bytes[start] == 118
        invariant
            lo <= start <= hi <= bytes@.len(),
            t == trim_ascii(bytes@),
            t =~= bytes@.subrange(lo as int, hi as int),
            forall|i: int| 0 <= i < start - lo ==> t[i] == 118,
        decreases hi - start,
    {
        start = start + 1;
    }
    let ghost core = strip_leading_v(t);
    proof {
        lemma_strip_leading_v_at(t, start - lo);
        assert(core =~= bytes@.subrange(start as int, hi as int));
    }
    let mut dot: usize = start;
    while dot < hi && bytes[dot] != 46
        invariant
            start <= dot <= hi <= bytes@.len(),
            core =~= bytes@.subrange(start as int, hi as int),
            forall|i: int| 0 <= i < dot - start ==> core[i] != 46,
        decreases hi - dot,
    {
        dot = dot + 1;
    }
    let ghost seg = major_segment(core);
    proof {
        lemma_major_segment_at(core, dot - start);
        assert(seg =~= bytes@.subrange(start as int, dot as int));
    }
    parse_numeral_range(&bytes, start, dot)
}

/// The candidate the version-manager fallback picks: the first entry
/// holding the highest major version, provided it meets the minimum.
pub fn best_supported_major(majors: &Vec<u32>) -> (r: Option<usize>)
    ensures
        match r {
            Some(i) => i < majors@.len() && majors@[i as int] >= MIN_NODE_MAJOR && (forall|j: int|
                0 <= j < majors@.len() ==> majors@[j] <= majors@[i as int]) && (forall|j: int|
                0 <= j < i ==> majors@[j] < majors@[i as int]),
            None => forall|j: int| 0 <= j < majors@.len() ==> majors@[j] < MIN_NODE_MAJOR,
        },
{
    let n = majors.len();
    let mut best: usize = 0;
    let mut found = false;
    let mut i: usize = 0;
    while i < n
        invariant
            0 <= i <= n,
            n == majors@.len(),
            found ==> best < i && (forall|j: int| 0 <= j < i ==> majors@[j]
                <= majors@[best as int]) && (forall|j: int| 0 <= j < best ==> majors@[j]
                < majors@[best as int]),
            !found ==> i == 0,
        decreases n - i,
    {
        if !found || majors[i] > majors[best] {
            best = i;
            found = true;
        }
        i = i + 1;
    }
    if found && majors[best] >= MIN_NODE_MAJOR {
        Some(best)
    } else {
        None
    }
}

/// Whether a version name is usable at all: it parses and meets the
/// minimum major version.
pub fn version_is_supported(name: &str) -> (r: bool)
    ensures
        r == match spec_major_of(name.spec_bytes()) {
            Some(m) => m >= MIN_NODE_MAJOR,
            None => false,
        },
{
    match parse_major_version(name) {
        Some(m) => m >= MIN_NODE_MAJOR,
        None => false,
    }
}

} // verus!
