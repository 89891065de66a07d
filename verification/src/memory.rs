//! Address translator: a manual walk of the four-level page-table hierarchy.
//!
//! The walk operates on an explicit frame-table capability: a set of tables,
//! each the 512 raw entries found at a physical frame base. On hardware the
//! surrounding binary reads those entries through the linear physical-memory
//! mapping and hands them in as plain values; a test supplies a synthetic
//! fixture. An absent frame reads as zeroed memory, whose entries are not
//! present.

use vstd::prelude::*;

verus! {

/// Entries per table: one for each 9-bit index.
pub const ENTRY_COUNT: usize = 512;

/// Bit 0 of an entry: the mapping is present.
pub const PRESENT_FLAG: u64 = 1;

/// Bit 7 of an entry: the entry maps a huge page instead of a further table.
pub const HUGE_PAGE_FLAG: u64 = 0x80;

/// Bits 12..52 of an entry: the physical base of the next frame.
pub const ADDR_MASK: u64 = 0x000F_FFFF_FFFF_F000;

/// Bits 0..12 of a virtual address: the offset within the final page.
pub const PAGE_OFFSET_MASK: u64 = 0xFFF;

pub open spec fn entry_present(e: u64) -> bool {
    e & PRESENT_FLAG != 0
}

pub open spec fn entry_huge(e: u64) -> bool {
    e & HUGE_PAGE_FLAG != 0
}

pub open spec fn entry_addr(e: u64) -> u64 {
    e & ADDR_MASK
}

pub open spec fn page_offset(virtual_address: u64) -> u64 {
    virtual_address & PAGE_OFFSET_MASK
}

/// The 9-bit index a level of the walk extracts from a virtual address:
/// level 4 is the root table, level 1 the last before the page.
pub open spec fn table_index(virtual_address: u64, level: int) -> u64 {
    if level == 4 {
        (virtual_address >> 39) & 0x1FF
    } else if level == 3 {
        (virtual_address >> 30) & 0x1FF
    } else if level == 2 {
        (virtual_address >> 21) & 0x1FF
    } else {
        (virtual_address >> 12) & 0x1FF
    }
}

/// One page table: the raw entries found at a physical frame base.
pub struct FrameTable {
    pub base: u64,
    pub entries: Vec<u64>,
}

/// The frame-table capability the walk reads from.
pub struct PageTables {
    pub tables: Vec<FrameTable>,
}

/// The entries of the first table with the given base, if any.
pub open spec fn spec_lookup(tables: Seq<FrameTable>, base: u64) -> Option<Seq<u64>>
    decreases tables.len(),
{
    if tables.len() == 0 {
        None
    } else if tables[0].base == base {
        Some(tables[0].entries@)
    } else {
        spec_lookup(tables.drop_first(), base)
    }
}

/// The raw entry at an index of the table at a frame base; absent frames and
/// indices beyond a table's entries read as zero.
pub open spec fn spec_read_entry(t: PageTables, base: u64, idx: u64) -> u64 {
    match spec_lookup(t.tables@, base) {
        Some(entries) => if idx < entries.len() {
            entries[idx as int]
        } else {
            0
        },
        None => 0,
    }
}

/// The outcome of a translation: a physical address, an unmapped miss, or
/// the recognized-but-unsupported huge-page case, which is fatal by policy
/// rather than silently mistranslated.
#[derive(Clone, Copy, PartialEq, Eq, Structural, Debug)]
pub enum Translation {
    Mapped(u64),
    Unmapped,
    HugeFrame,
}

/// The walk from a frame at a given level down to the page: each level reads
/// one entry; a non-present entry is a miss, a huge entry is fatal, and the
/// last level yields the frame base plus the page offset.
pub open spec fn spec_walk(t: PageTables, frame: u64, virtual_address: u64, level: int) -> Translation
    decreases level,
{
    let e = spec_read_entry(t, frame, table_index(virtual_address, level));
    if !entry_present(e) {
        Translation::Unmapped
    } else if entry_huge(e) {
        Translation::HugeFrame
    } else if level <= 1 {
        Translation::Mapped((entry_addr(e) + page_offset(virtual_address)) as u64)
    } else {
        spec_walk(t, entry_addr(e), virtual_address, level - 1)
    }
}

/// What `translate` returns: the full four-level walk from the root frame.
pub open spec fn spec_translate(t: PageTables, root_frame: u64, virtual_address: u64) -> Translation {
    spec_walk(t, root_frame, virtual_address, 4)
}

/// Read the raw entry at an index of the table at a frame base.
pub fn read_entry(t: &PageTables, base: u64, idx: u64) -> (r: u64)
    ensures
        r == spec_read_entry(*t, base, idx),
{
    let n = t.tables.len();
    let mut i: usize = 0;
    proof {
        assert(t.tables@.skip(0) =~= t.tables@);
    }
    while i < n
        invariant
            i <= n,
            n == t.tables@.len(),
            spec_lookup(t.tables@.skip(i as int), base) == spec_lookup(t.tables@, base),
        decreases n - i,
    {
        proof {
            assert(t.tables@.skip(i as int)[0] == t.tables@[i as int]);
        }
        if t.tables[i].base == base {
            let entries = &t.tables[i].entries;
            if idx < entries.len() as u64 {
                return entries[idx as usize];
            } else {
                return 0;
            }
        }
        proof {
            assert(t.tables@.skip(i as int).drop_first() =~= t.tables@.skip(i + 1));
        }
        i += 1;
    }
    proof {
        assert(t.tables@.skip(n as int) =~= Seq::<FrameTable>::empty());
    }
    0
}

/// One level of the executable walk.
fn walk_level(t: &PageTables, frame: u64, virtual_address: u64, level: u64) -> (r: Translation)
    requires
        1 <= level <= 4,
    ensures
        r == spec_walk(*t, frame, virtual_address, level as int),
    decreases level,
{
    let idx = if level == 4 {
        (virtual_address >> 39) & 0x1FF
    } else if level == 3 {
        (virtual_address >> 30) & 0x1FF
    } else if level == 2 {
        (virtual_address >> 21) & 0x1FF
    } else {
        (virtual_address >> 12) & 0x1FF
    };
    let e = read_entry(t, frame, idx);
    if e & PRESENT_FLAG == 0 {
        Translation::Unmapped
    } else if e & HUGE_PAGE_FLAG != 0 {
        Translation::HugeFrame
    } else if level == 1 {
        proof {
            assert((e & ADDR_MASK) + (virtual_address & PAGE_OFFSET_MASK)
                <= 0x000F_FFFF_FFFF_FFFFu64) by (bit_vector);
        }
        Translation::Mapped((e & ADDR_MASK) + (virtual_address & PAGE_OFFSET_MASK))
    } else {
        walk_level(t, e & ADDR_MASK, virtual_address, level - 1)
    }
}

/// Translate a virtual address by walking the four-level table hierarchy
/// rooted at the given frame. A non-present entry at any level yields
/// `Unmapped`, to be treated as "address is unmapped", not as an error; a
/// huge-page entry at any level yields `HugeFrame`, on which the caller must
/// halt rather than use a value; otherwise the physical address is the final
/// frame base plus the 12-bit page offset.
pub fn translate(tables: &PageTables, root_frame: u64, virtual_address: u64) -> (r: Translation)
    ensures
        r == spec_translate(*tables, root_frame, virtual_address),
{
    walk_level(tables, root_frame, virtual_address, 4)
}

/// A successful translation as an option, `None` for an unmapped address.
pub open spec fn spec_translation_value(tr: Translation) -> Option<u64> {
    match tr {
        Translation::Mapped(p) => Some(p),
        Translation::Unmapped => None,
        Translation::HugeFrame => None,
    }
}

/// The option-valued front door of the translator. The huge-page outcome is
/// fatal by policy and has no value to return, so it is left out here by
/// precondition; `translate` reports it explicitly.
pub fn get_physical_addr(tables: &PageTables, root_frame: u64, virtual_address: u64) -> (r: Option<
    u64,
>)
    requires
        !(spec_translate(*tables, root_frame, virtual_address) is HugeFrame),
    ensures
        r == spec_translation_value(spec_translate(*tables, root_frame, virtual_address)),
{
    match translate(tables, root_frame, virtual_address) {
        Translation::Mapped(p) => Some(p),
        _ => None,
    }
}

/// The frame whose table the walk reads at step `k` (step 0 reads the root
/// table): each step follows the address bits of the entry read before it.
pub open spec fn walked_frame(t: PageTables, root_frame: u64, virtual_address: u64, k: int) -> u64
    decreases k,
{
    if k <= 0 {
        root_frame
    } else {
        entry_addr(
            spec_read_entry(
                t,
                walked_frame(t, root_frame, virtual_address, k - 1),
                table_index(virtual_address, 4 - (k - 1)),
            ),
        )
    }
}

/// The entry the walk reads at step `k`.
pub open spec fn walked_entry(t: PageTables, root_frame: u64, virtual_address: u64, k: int) -> u64 {
    spec_read_entry(
        t,
        walked_frame(t, root_frame, virtual_address, k),
        table_index(virtual_address, 4 - k),
    )
}

/// A walk that has descended `m` steps through present, non-huge entries is
/// still the same translation as the full walk.
proof fn lemma_walk_prefix(t: PageTables, root_frame: u64, virtual_address: u64, m: int)
    requires
        0 <= m <= 3,
        forall|j: int|
            0 <= j < m ==> entry_present(#[trigger] walked_entry(t, root_frame, virtual_address, j))
                && !entry_huge(walked_entry(t, root_frame, virtual_address, j)),
    ensures
        spec_walk(t, walked_frame(t, root_frame, virtual_address, m), virtual_address, 4 - m)
            == spec_translate(t, root_frame, virtual_address),
    decreases m,
{
    if m > 0 {
        lemma_walk_prefix(t, root_frame, virtual_address, m - 1);
        let fr = walked_frame(t, root_frame, virtual_address, m - 1);
        let e = walked_entry(t, root_frame, virtual_address, m - 1);
        assert(entry_present(e) && !entry_huge(e));
        assert(spec_walk(t, fr, virtual_address, 4 - (m - 1)) == spec_walk(
            t,
            entry_addr(e),
            virtual_address,
            4 - m,
        ));
    }
}

/// For every virtual address whose walk meets a non-present entry at some
/// level, after present non-huge entries above it, translation returns
/// "unmapped".
pub proof fn lemma_not_present_unmapped(t: PageTables, root_frame: u64, virtual_address: u64, k: int)
    requires
        0 <= k < 4,
        forall|j: int|
            0 <= j < k ==> entry_present(#[trigger] walked_entry(t, root_frame, virtual_address, j))
                && !entry_huge(walked_entry(t, root_frame, virtual_address, j)),
        !entry_present(walked_entry(t, root_frame, virtual_address, k)),
    ensures
        spec_translate(t, root_frame, virtual_address) is Unmapped,
{
    lemma_walk_prefix(t, root_frame, virtual_address, k);
}

/// A huge-page entry anywhere on the walk path is fatal: translation returns
/// the huge-frame outcome, never a mapped value.
pub proof fn lemma_huge_entry_fatal(t: PageTables, root_frame: u64, virtual_address: u64, k: int)
    requires
        0 <= k < 4,
        forall|j: int|
            0 <= j < k ==> entry_present(#[trigger] walked_entry(t, root_frame, virtual_address, j))
                && !entry_huge(walked_entry(t, root_frame, virtual_address, j)),
        entry_present(walked_entry(t, root_frame, virtual_address, k)),
        entry_huge(walked_entry(t, root_frame, virtual_address, k)),
    ensures
        spec_translate(t, root_frame, virtual_address) is HugeFrame,
{
    lemma_walk_prefix(t, root_frame, virtual_address, k);
}

/// A walk on which every level is present and none is huge translates to the
/// final frame base plus the page offset.
pub proof fn lemma_translate_mapped(t: PageTables, root_frame: u64, virtual_address: u64)
    requires
        forall|j: int|
            0 <= j < 4 ==> entry_present(#[trigger] walked_entry(t, root_frame, virtual_address, j))
                && !entry_huge(walked_entry(t, root_frame, virtual_address, j)),
    ensures
        spec_translate(t, root_frame, virtual_address) == Translation::Mapped(
            (entry_addr(walked_entry(t, root_frame, virtual_address, 3)) + page_offset(
                virtual_address,
            )) as u64,
        ),
{
    lemma_walk_prefix(t, root_frame, virtual_address, 3);
    let fr = walked_frame(t, root_frame, virtual_address, 3);
    let e = walked_entry(t, root_frame, virtual_address, 3);
    assert(spec_walk(t, fr, virtual_address, 1) == Translation::Mapped(
        (entry_addr(e) + page_offset(virtual_address)) as u64,
    ));
}

} // verus!
