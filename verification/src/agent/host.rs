//! Host samples: the disks the agent reports and how their usage is read.
use vstd::prelude::*;
use crate::agent::config::DiskMount;
use crate::agent::procfs::{sat_mul, sat_mul_i64, sat_sub, sat_sub_i64};

verus! {

/// Usage of one sampled mount.
#[derive(Debug, Clone)]
pub struct DiskSample {
    pub name: String,
    pub path: String,
    pub used_bytes: Option<i64>,
    pub total_bytes: Option<i64>,
}

/// The sample of a mount, with the usage read for it.
pub fn disk_sample(mount: &DiskMount, used: Option<i64>, total: Option<i64>) -> (r: DiskSample)
    ensures
        r.name@ == mount.name@,
        r.path@ == mount.path@,
        r.used_bytes == used,
        r.total_bytes == total,
{
    DiskSample { name: mount.name.clone(), path: mount.path.clone(), used_bytes: used, total_bytes: total }
}

/// Used and total bytes of a file system from `statvfs`: total is all blocks,
/// used is total less the blocks available to users, at the fragment size.
/// The counts are read as `i64` and the arithmetic saturates.
pub open spec fn spec_disk_usage(blocks: u64, available: u64, fragment: u64) -> (i64, i64) {
    let total = sat_mul_i64(blocks as i64, fragment as i64);
    let free = sat_mul_i64(available as i64, fragment as i64);
    (sat_sub_i64(total, free), total)
}

/// Works out `(used, total)` bytes from the `statvfs` block counts.
pub fn disk_usage(blocks: u64, available: u64, fragment: u64) -> (r: (i64, i64))
    ensures
        r == spec_disk_usage(blocks, available, fragment),
{
    let total = sat_mul(blocks as i64, fragment as i64);
    let free = sat_mul(available as i64, fragment as i64);
    (sat_sub(total, free), total)
}

/// Whether a sample's usage can be compared: both readings are there and the
/// total is positive.
pub open spec fn has_usage(d: DiskSample) -> bool {
    &&& d.used_bytes is Some
    &&& d.total_bytes is Some
    &&& d.total_bytes->0 > 0
}

/// Whether sample `d` is at least as full as the fullest seen so far (`best`,
/// an index into `s`): its used fraction is at least the other's, or, with
/// none seen yet, at least -1 %.
pub open spec fn at_least_as_full(s: Seq<DiskSample>, d: DiskSample, best: Option<int>) -> bool {
    let u = d.used_bytes->0 as int;
    let t = d.total_bytes->0 as int;
    match best {
        None => 100 * u + t >= 0,
        Some(j) => u * (s[j].total_bytes->0 as int) >= (s[j].used_bytes->0 as int) * t,
    }
}

/// The index of the fullest of the first `n` samples with a usage; the later
/// one where two are equally full.
pub open spec fn fullest_upto(s: Seq<DiskSample>, n: nat) -> Option<int>
    decreases n,
{
    if n == 0 {
        None
    } else {
        let prev = fullest_upto(s, (n - 1) as nat);
        let d = s[n - 1];
        if has_usage(d) && at_least_as_full(s, d, prev) {
            Some(n - 1)
        } else {
            prev
        }
    }
}

/// The usage reported for a host: that of its fullest disk, else that of its
/// first disk, else none.
pub open spec fn spec_primary_disk(s: Seq<DiskSample>) -> (Option<i64>, Option<i64>) {
    match fullest_upto(s, s.len()) {
        Some(j) => (s[j].used_bytes, s[j].total_bytes),
        None => if s.len() > 0 {
            (s[0].used_bytes, s[0].total_bytes)
        } else {
            (None, None)
        },
    }
}

/// The product of two `i64` values fits an `i128`.
proof fn lemma_i64_product(a: i64, b: i64)
    ensures
        i128::MIN <= (a as int) * (b as int) <= i128::MAX,
{
    let x = a as int;
    let y = b as int;
    let ax = if x < 0 { -x } else { x };
    let ay = if y < 0 { -y } else { y };
    assert(ax * ay <= 0x8000_0000_0000_0000 * 0x8000_0000_0000_0000) by (nonlinear_arith)
        requires
            0 <= ax <= 0x8000_0000_0000_0000,
            0 <= ay <= 0x8000_0000_0000_0000,
    ;
    assert(x * y == ax * ay || x * y == -(ax * ay)) by (nonlinear_arith)
        requires
            ax == x || ax == -x,
            ay == y || ay == -y,
    ;
}

proof fn lemma_fullest_upto_shape(s: Seq<DiskSample>, n: nat)
    requires
        n <= s.len(),
    ensures
        fullest_upto(s, n) matches Some(j) ==> 0 <= j < n && has_usage(s[j]),
    decreases n,
{
    if n > 0 {
        lemma_fullest_upto_shape(s, (n - 1) as nat);
    }
}

/// Picks the disk whose usage a host reports: the fullest one, comparing
/// used fractions exactly (`used * other_total` against `other_used *
/// total`); the first disk where none has a usage.
pub fn primary_disk(disks: &[DiskSample]) -> (r: (Option<i64>, Option<i64>))
    ensures
        r == spec_primary_disk(disks@),
{
    let mut best: Option<usize> = None;
    let mut i: usize = 0;
    while i < disks.len()
        invariant
            i <= disks@.len(),
            match best {
                Some(j) => fullest_upto(disks@, i as nat) == Some(j as int),
                None => fullest_upto(disks@, i as nat) is None,
            },
        decreases disks@.len() - i,
    {
        proof {
            lemma_fullest_upto_shape(disks@, i as nat);
        }
        let d = &disks[i];
        let take = match (d.used_bytes, d.total_bytes) {
            (Some(u), Some(t)) => if t > 0 {
                match best {
                    None => 100 * (u as i128) + (t as i128) >= 0,
                    Some(j) => {
                        let bu = disks[j].used_bytes.unwrap();
                        let bt = disks[j].total_bytes.unwrap();
                        proof {
                            lemma_i64_product(u, bt);
                            lemma_i64_product(bu, t);
                        }
                        (u as i128) * (bt as i128) >= (bu as i128) * (t as i128)
                    },
                }
            } else {
                false
            },
            _ => false,
        };
        if take {
            best = Some(i);
        }
        i = i + 1;
    }
    proof {
        lemma_fullest_upto_shape(disks@, disks@.len());
    }
    match best {
        Some(j) => (disks[j].used_bytes, disks[j].total_bytes),
        None => if disks.len() > 0 {
            (disks[0].used_bytes, disks[0].total_bytes)
        } else {
            (None, None)
        },
    }
}

} // verus!
