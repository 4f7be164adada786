//! What the host tells a plugin about the machine it runs on.

use vstd::prelude::*;
use crate::text::{fields, fields_of, lines, lines_of, occurs_at, parse_u32, starts_with, unsigned_of};

verus! {

/// `sysinfo::System`, which holds what was last sampled of the machine.
#[verifier::external_type_specification]
#[verifier::external_body]
pub struct ExSystem(sysinfo::System);

/// The bytes of memory in use, as `sys` last sampled them.
pub uninterp spec fn sampled_used_bytes(sys: sysinfo::System) -> u64;

/// The bytes of memory in all, as `sys` last sampled them.
pub uninterp spec fn sampled_total_bytes(sys: sysinfo::System) -> u64;

/// The bytes of memory that are available, as `sys` last sampled them.
pub uninterp spec fn sampled_available_bytes(sys: sysinfo::System) -> u64;

/// `System::new_all`: a sample of everything. What it holds depends on the
/// machine, and nothing is claimed of it.
pub assume_specification[ sysinfo::System::new_all ]() -> (sys: sysinfo::System)
;

/// `System::refresh_all`: samples everything anew. Nothing is claimed of
/// what the sample holds afterwards.
pub assume_specification[ sysinfo::System::refresh_all ](sys: &mut sysinfo::System)
;

/// `System::refresh_memory`: samples the memory anew. Nothing is claimed of
/// what the sample holds afterwards.
pub assume_specification[ sysinfo::System::refresh_memory ](sys: &mut sysinfo::System)
;

/// `System::used_memory`: reads the used bytes out of the sample, and
/// leaves the sample alone. On some machines it takes the available bytes
/// from the total, which fails on a sample that holds more available than
/// total: such a sample is left out.
pub assume_specification[ sysinfo::System::used_memory ](sys: &sysinfo::System) -> (bytes: u64)
    requires
        sampled_available_bytes(*sys) <= sampled_total_bytes(*sys),
    ensures
        bytes == sampled_used_bytes(*sys),
;

/// `System::available_memory`: reads the available bytes out of the sample,
/// and leaves the sample alone.
pub assume_specification[ sysinfo::System::available_memory ](sys: &sysinfo::System) -> (bytes:
    u64)
    ensures
        bytes == sampled_available_bytes(*sys),
;

/// `System::total_memory`: reads the total bytes out of the sample, and
/// leaves the sample alone.
pub assume_specification[ sysinfo::System::total_memory ](sys: &sysinfo::System) -> (bytes: u64)
    ensures
        bytes == sampled_total_bytes(*sys),
;

/// `System::uptime`: the seconds since the machine started, read anew on
/// every call. Nothing is claimed of the number.
pub assume_specification[ sysinfo::System::uptime ]() -> (seconds: u64)
;

/// Bytes in whole megabytes, as far as 32 bits hold them.
pub open spec fn megabytes(bytes: u64) -> u32 {
    ((bytes as int / 1048576) % 0x1_0000_0000) as u32
}

/// Turns bytes into whole megabytes. A count that 32 bits cannot hold
/// keeps its low 32 bits.
pub fn to_megabytes(bytes: u64) -> (mb: u32)
    ensures
        mb == megabytes(bytes),
        bytes / 1048576 <= u32::MAX ==> mb == bytes / 1048576,
{
    let whole: u64 = bytes / 1024 / 1024;
    assert(whole == bytes / 1048576) by (bit_vector)
        requires
            whole == bytes / 1024 / 1024,
    ;
    let mb: u32 = #[verifier::truncate]
    (whole as u32);
    assert(mb == whole % 0x1_0000_0000) by (bit_vector)
        requires
            mb == #[verifier::truncate]
            (whole as u32),
    ;
    mb
}

/// A first sample of the machine.
pub fn get_system() -> (sys: sysinfo::System) {
    let mut sys = sysinfo::System::new_all();
    sys.refresh_all();
    sys
}

/// The megabytes in use and in all, from the bytes in use and in all.
/// Where the bytes in use are not known, nothing counts as in use.
pub open spec fn usage_of(used_bytes: Option<u64>, total_bytes: u64) -> (u32, u32) {
    (
        match used_bytes {
            Some(bytes) => megabytes(bytes),
            None => 0,
        },
        megabytes(total_bytes),
    )
}

/// Turns the bytes in use and in all into megabytes.
pub fn memory_figures(used_bytes: Option<u64>, total_bytes: u64) -> (usage: (u32, u32))
    ensures
        usage == usage_of(used_bytes, total_bytes),
{
    let used_mb: u32 = match used_bytes {
        Some(bytes) => to_megabytes(bytes),
        None => 0,
    };
    let total_mb: u32 = to_megabytes(total_bytes);
    (used_mb, total_mb)
}

/// The bytes in use that a sample gives: those it holds, unless it holds
/// more available than total, where it gives none.
pub open spec fn sampled_use(sys: sysinfo::System) -> Option<u64> {
    if sampled_available_bytes(sys) <= sampled_total_bytes(sys) {
        Some(sampled_used_bytes(sys))
    } else {
        None
    }
}

/// Samples the memory anew and gives the megabytes in use and in all. A
/// sample that holds more available than total counts nothing as in use.
pub fn get_memory_usage(sys: &mut sysinfo::System) -> (usage: (u32, u32))
    ensures
        usage == usage_of(sampled_use(*final(sys)), sampled_total_bytes(*final(sys))),
{
    sys.refresh_memory();
    let total_bytes: u64 = sys.total_memory();
    let available_bytes: u64 = sys.available_memory();
    let used_bytes = if available_bytes <= total_bytes {
        Some(sys.used_memory())
    } else {
        None
    };
    memory_figures(used_bytes, total_bytes)
}

/// The seconds since the machine started.
pub fn get_uptime() -> (seconds: u64) {
    sysinfo::System::uptime()
}

/// The count that the fields of a line of the kernel's memory table give:
/// the second field, read as a decimal number, or zero where there is none
/// that 32 bits hold.
pub open spec fn count_among(parts: Seq<Seq<char>>) -> u32 {
    if parts.len() > 1 {
        match unsigned_of(parts[1], 10) {
            Some(n) => if n <= u32::MAX {
                n as u32
            } else {
                0
            },
            None => 0,
        }
    } else {
        0
    }
}

/// The count that a line of the kernel's memory table gives.
pub open spec fn count_in(line: Seq<char>) -> u32 {
    count_among(fields_of(line))
}

/// The fields as the contracts see them.
pub open spec fn texts(parts: Seq<&str>) -> Seq<Seq<char>> {
    parts.map_values(|part: &str| part@)
}

/// Reads the count out of the fields of one line of the memory table.
pub fn count_of_fields(parts: &Vec<&str>) -> (count: u32)
    ensures
        count == count_among(texts(parts@)),
{
    if parts.len() > 1 {
        assert(texts(parts@)[1] == parts@[1]@);
        match parse_u32(parts[1], 10) {
            Some(count) => count,
            None => 0,
        }
    } else {
        0
    }
}

/// The megabytes in all and the megabytes available that the lines of the
/// kernel's memory table give. The table counts in kilobytes. Where a key
/// stands on several lines the last one counts, and a key that is missing
/// counts zero.
pub open spec fn table_totals(lines: Seq<Seq<char>>) -> (u32, u32)
    decreases lines.len(),
{
    if lines.len() == 0 {
        (0u32, 0u32)
    } else {
        let before = table_totals(lines.drop_last());
        let line = lines.last();
        if occurs_at("MemTotal:"@, line, 0) {
            ((count_in(line) / 1024) as u32, before.1)
        } else if occurs_at("MemAvailable:"@, line, 0) {
            (before.0, (count_in(line) / 1024) as u32)
        } else {
            before
        }
    }
}

/// The megabytes in use and in all that the kernel's memory table gives.
/// What is in use is what is not available, and never less than nothing.
pub open spec fn memory_of(table: Seq<char>) -> (u32, u32) {
    let (total, available) = table_totals(lines_of(table));
    (
        if total >= available {
            (total - available) as u32
        } else {
            0
        },
        total,
    )
}

/// Reads the count of one line of the memory table.
fn line_count(line: &str) -> (count: u32)
    ensures
        count == count_in(line@),
{
    let parts = fields(line);
    assert(texts(parts@) =~= fields_of(line@));
    count_of_fields(&parts)
}

/// Reads the megabytes in use and in all out of the kernel's memory table.
pub fn memory_from_table(table: &str) -> (usage: (u32, u32))
    ensures
        usage == memory_of(table@),
{
    let rows = lines(table);
    let ghost all = lines_of(table@);
    let mut total: u32 = 0;
    let mut available: u32 = 0;
    let mut i: usize = 0;
    assert(all.take(0) =~= Seq::<Seq<char>>::empty());
    while i < rows.len()
        invariant
            i <= rows.len(),
            rows@.len() == all.len(),
            forall|k: int| 0 <= k < rows@.len() ==> (#[trigger] rows@[k])@ == all[k],
            (total, available) == table_totals(all.take(i as int)),
        decreases rows.len() - i,
    {
        let row = rows[i];
        proof {
            let next = all.take(i as int + 1);
            assert(next.drop_last() =~= all.take(i as int));
            assert(next.last() == row@);
        }
        if starts_with(row, "MemTotal:") {
            total = line_count(row) / 1024;
        } else if starts_with(row, "MemAvailable:") {
            available = line_count(row) / 1024;
        }
        i += 1;
    }
    assert(all.take(all.len() as int) =~= all);
    (total.saturating_sub(available), total)
}

} // verus!
