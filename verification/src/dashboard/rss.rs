//! The memory of a process as `/proc/<pid>/statm` gives it.
use vstd::prelude::*;

use crate::num::{parse_u64, parse_uint};
use crate::text::{fields, fields_of};

verus! {

/// Resident, virtual and shared memory, in bytes.
#[derive(Debug, Clone, Copy, Default)]
pub struct MemoryStats {
    pub rss: u64,
    pub virt: u64,
    pub shared: u64,
}

/// The number of pages that a field of `statm` gives; zero where it is no
/// number.
pub open spec fn pages(f: Seq<char>) -> nat {
    match parse_uint(f, u64::MAX as nat) {
        Some(v) => v,
        None => 0,
    }
}

/// Whether every page count of `statm` fits in a `u64` once made bytes
/// (4096 to the page).
pub open spec fn statm_fits(content: Seq<char>) -> bool {
    let f = fields(content);
    f.len() >= 3 ==> pages(f[0]) * 4096 <= u64::MAX && pages(f[1]) * 4096 <= u64::MAX && pages(f[2]) * 4096
        <= u64::MAX
}

/// The sizes that `statm` gives: its first three fields are the virtual,
/// resident and shared sizes in pages of 4096 bytes; with fewer fields,
/// everything is zero.
pub open spec fn statm_stats(content: Seq<char>) -> (nat, nat, nat) {
    let f = fields(content);
    if f.len() >= 3 {
        (pages(f[1]) * 4096, pages(f[0]) * 4096, pages(f[2]) * 4096)
    } else {
        (0, 0, 0)
    }
}

/// The page count of a field.
fn pages_of(f: &Vec<char>) -> (r: u64)
    ensures
        r == pages(f@),
{
    match parse_u64(f) {
        Some(v) => v,
        None => 0,
    }
}

/// Whether `content` can be read without overflow.
pub fn statm_in_range(content: &str) -> (r: bool)
    ensures
        r == statm_fits(content@),
{
    let f = fields_of(content);
    if f.len() < 3 {
        return true;
    }
    let limit: u64 = u64::MAX / 4096;
    pages_of(&f[0]) <= limit && pages_of(&f[1]) <= limit && pages_of(&f[2]) <= limit
}

/// Reads the contents of `statm`: resident, virtual and shared sizes.
pub fn get_process_memory(content: &str) -> (r: MemoryStats)
    requires
        statm_fits(content@),
    ensures
        (r.rss as nat, r.virt as nat, r.shared as nat) == statm_stats(content@),
{
    let f = fields_of(content);
    if f.len() >= 3 {
        let virt = pages_of(&f[0]) * 4096;
        let rss = pages_of(&f[1]) * 4096;
        let shared = pages_of(&f[2]) * 4096;
        MemoryStats { rss, virt, shared }
    } else {
        MemoryStats { rss: 0, virt: 0, shared: 0 }
    }
}

/// The resident size that `statm` gives.
pub fn get_rss(content: &str) -> (r: u64)
    requires
        statm_fits(content@),
    ensures
        r as nat == statm_stats(content@).0,
{
    get_process_memory(content).rss
}

} // verus!
