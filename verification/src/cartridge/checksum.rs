//! The two checksums of a cartridge image, as functions of its bytes.
use vstd::prelude::*;
use crate::cartridge::layout::{
    checksummed_field, GLOBAL_CHECKSUM_PTR, HEADER_CHECKSUM_PTR, HEADER_SIZE, ROM_VERSION_PTR,
    TITLE_PTR,
};

verus! {

/// The sum of the bytes of `s`, as a mathematical integer.
pub open spec fn sum_bytes(s: Seq<u8>) -> int
    decreases s.len(),
{
    if s.len() == 0 {
        0
    } else {
        sum_bytes(s.drop_last()) + s.last()
    }
}

/// The checksum of the bytes `TITLE_PTR..end` of an image: every byte, and one
/// more for each byte, taken away from zero modulo 256.
pub open spec fn header_checksum_upto(rom: Seq<u8>, end: int) -> u8
    recommends
        TITLE_PTR <= end <= rom.len(),
{
    let covered = rom.subrange(TITLE_PTR as int, end);
    ((-(sum_bytes(covered) + covered.len())) % 0x100) as u8
}

/// The header checksum that an image ought to declare.
pub open spec fn header_checksum(rom: Seq<u8>) -> u8
    recommends
        rom.len() > ROM_VERSION_PTR,
{
    header_checksum_upto(rom, ROM_VERSION_PTR + 1)
}

/// The global checksum that an image ought to declare: the sum of all its
/// bytes but the two that hold the declared value, modulo 65536.
pub open spec fn global_checksum(rom: Seq<u8>) -> u16
    recommends
        rom.len() >= HEADER_SIZE,
{
    ((sum_bytes(rom) - rom[GLOBAL_CHECKSUM_PTR as int] - rom[GLOBAL_CHECKSUM_PTR + 1])
        % 0x1_0000) as u16
}

/// One step of the header checksum: `acc - byte - 1` modulo 256.
pub open spec fn header_checksum_step(acc: u8, byte: u8) -> u8 {
    ((acc - byte - 1) % 0x100) as u8
}

/// Taking one more byte into a prefix adds that byte to the sum.
pub proof fn lemma_sum_bytes_take(s: Seq<u8>, n: int)
    requires
        0 <= n < s.len(),
    ensures
        sum_bytes(s.take(n + 1)) == sum_bytes(s.take(n)) + s[n],
{
    assert(s.take(n + 1).drop_last() =~= s.take(n));
}

/// Replacing one byte changes the sum by the difference of the two bytes.
pub proof fn lemma_sum_bytes_update(s: Seq<u8>, i: int, value: u8)
    requires
        0 <= i < s.len(),
    ensures
        sum_bytes(s.update(i, value)) == sum_bytes(s) - s[i] + value,
    decreases s.len(),
{
    if i == s.len() - 1 {
        assert(s.update(i, value).drop_last() =~= s.drop_last());
    } else {
        assert(s.update(i, value).drop_last() =~= s.drop_last().update(i, value));
        lemma_sum_bytes_update(s.drop_last(), i, value);
    }
}

/// The header checksum is what the console computes: starting from zero, each
/// covered byte in turn, and one more, is subtracted with 8-bit wraparound.
pub proof fn lemma_header_checksum_unfold(rom: Seq<u8>, end: int)
    requires
        TITLE_PTR <= end < rom.len(),
    ensures
        header_checksum_upto(rom, TITLE_PTR as int) == 0,
        header_checksum_upto(rom, end + 1) == header_checksum_step(
            header_checksum_upto(rom, end),
            rom[end],
        ),
{
    let covered = rom.subrange(TITLE_PTR as int, end + 1);
    assert(covered.take(end - TITLE_PTR) =~= rom.subrange(TITLE_PTR as int, end));
    assert(covered.take(end - TITLE_PTR + 1) =~= covered);
    lemma_sum_bytes_take(covered, end - TITLE_PTR);
}

/// The header checksum depends on the covered bytes alone: images that agree
/// from the title through the ROM version have the same header checksum.
pub proof fn lemma_header_checksum_depends_on_covered_bytes(a: Seq<u8>, b: Seq<u8>)
    requires
        a.len() > ROM_VERSION_PTR,
        b.len() > ROM_VERSION_PTR,
        checksummed_field(a) == checksummed_field(b),
    ensures
        header_checksum(a) == header_checksum(b),
{
}

/// Recomputing the header checksum of an image that has its own checksum
/// stored in the header gives that checksum again: the byte that declares the
/// checksum is not among the bytes it covers.
pub proof fn lemma_header_checksum_idempotent(rom: Seq<u8>)
    requires
        rom.len() > HEADER_CHECKSUM_PTR,
    ensures
        header_checksum(rom.update(HEADER_CHECKSUM_PTR as int, header_checksum(rom)))
            == header_checksum(rom),
{
    let stored = rom.update(HEADER_CHECKSUM_PTR as int, header_checksum(rom));
    assert(checksummed_field(stored) =~= checksummed_field(rom));
}

/// The global checksum leaves its own two bytes out of the sum: whatever
/// value an image declares, the checksum that it ought to declare is the same.
pub proof fn lemma_global_checksum_excludes_declared_value(rom: Seq<u8>, high: u8, low: u8)
    requires
        rom.len() >= HEADER_SIZE,
    ensures
        global_checksum(
            rom.update(GLOBAL_CHECKSUM_PTR as int, high).update(GLOBAL_CHECKSUM_PTR + 1, low),
        ) == global_checksum(rom),
{
    let first = rom.update(GLOBAL_CHECKSUM_PTR as int, high);
    lemma_sum_bytes_update(rom, GLOBAL_CHECKSUM_PTR as int, high);
    lemma_sum_bytes_update(first, GLOBAL_CHECKSUM_PTR + 1, low);
}

/// An image that declares the global checksum it ought to, high byte first,
/// still ought to declare that value.
pub proof fn lemma_global_checksum_idempotent(rom: Seq<u8>)
    requires
        rom.len() >= HEADER_SIZE,
    ensures
        ({
            let sum = global_checksum(rom);
            global_checksum(
                rom.update(GLOBAL_CHECKSUM_PTR as int, (sum / 0x100) as u8).update(
                    GLOBAL_CHECKSUM_PTR + 1,
                    (sum % 0x100) as u8,
                ),
            ) == sum
        }),
{
    let sum = global_checksum(rom);
    lemma_global_checksum_excludes_declared_value(rom, (sum / 0x100) as u8, (sum % 0x100) as u8);
}

} // verus!
