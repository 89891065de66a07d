use os::memory::{get_physical_addr, read_entry, translate, FrameTable, PageTables, Translation};

const PRESENT: u64 = 1;
const HUGE: u64 = 0x80;

fn table(base: u64, entries: &[(usize, u64)]) -> FrameTable {
    let mut raw = vec![0u64; 512];
    for (idx, e) in entries {
        raw[*idx] = *e;
    }
    FrameTable { base, entries: raw }
}

/// A fixture in which virtual address 0xB8000 is identity mapped: indices
/// (0, 0, 0, 0xB8) lead to the frame at physical 0xB8000.
fn identity_fixture() -> PageTables {
    PageTables {
        tables: vec![
            table(0x1000, &[(0, 0x2000 | PRESENT)]),
            table(0x2000, &[(0, 0x3000 | PRESENT)]),
            table(0x3000, &[(0, 0x4000 | PRESENT)]),
            table(0x4000, &[(0xB8, 0xB8000 | PRESENT)]),
        ],
    }
}

#[test]
fn identity_mapped_address_translates_to_itself() {
    let t = identity_fixture();
    assert_eq!(translate(&t, 0x1000, 0xB8000), Translation::Mapped(0xB8000));
    assert_eq!(get_physical_addr(&t, 0x1000, 0xB8000), Some(0xB8000));
}

#[test]
fn page_offset_is_added_to_the_frame_base() {
    let t = identity_fixture();
    assert_eq!(translate(&t, 0x1000, 0xB8123), Translation::Mapped(0xB8123));
}

#[test]
fn missing_entry_at_each_level_is_unmapped() {
    let t = identity_fixture();
    // level 4: a different 512 GiB region
    assert_eq!(
        translate(&t, 0x1000, 0x0100_0000_0000),
        Translation::Unmapped
    );
    // level 3: index 1 of the level-3 table is zero
    assert_eq!(translate(&t, 0x1000, 0x4000_0000), Translation::Unmapped);
    // level 2: index 1 of the level-2 table is zero
    assert_eq!(translate(&t, 0x1000, 0x20_0000), Translation::Unmapped);
    // level 1: index 0 of the level-1 table is zero
    assert_eq!(translate(&t, 0x1000, 0x0), Translation::Unmapped);
    assert_eq!(get_physical_addr(&t, 0x1000, 0x0), None);
}

#[test]
fn absent_root_frame_reads_as_zero_and_misses() {
    let t = identity_fixture();
    assert_eq!(translate(&t, 0x9000, 0xB8000), Translation::Unmapped);
    assert_eq!(read_entry(&t, 0x9000, 0), 0);
    assert_eq!(read_entry(&t, 0x4000, 0xB8), 0xB8000 | PRESENT);
}

#[test]
fn huge_entry_at_a_non_leaf_level_is_fatal_not_a_value() {
    // level 2 marks a huge page: translation must refuse, not mistranslate
    let t = PageTables {
        tables: vec![
            table(0x1000, &[(0, 0x2000 | PRESENT)]),
            table(0x2000, &[(0, 0x3000 | PRESENT)]),
            table(0x3000, &[(0, 0x4000 | PRESENT | HUGE)]),
        ],
    };
    let r = translate(&t, 0x1000, 0xB8000);
    assert_eq!(r, Translation::HugeFrame);
    assert!(!matches!(r, Translation::Mapped(_)));
}

#[test]
fn huge_entry_at_the_leaf_level_is_fatal_too() {
    let t = PageTables {
        tables: vec![
            table(0x1000, &[(0, 0x2000 | PRESENT)]),
            table(0x2000, &[(0, 0x3000 | PRESENT)]),
            table(0x3000, &[(0, 0x4000 | PRESENT)]),
            table(0x4000, &[(0xB8, 0xB8000 | PRESENT | HUGE)]),
        ],
    };
    assert_eq!(translate(&t, 0x1000, 0xB8000), Translation::HugeFrame);
}

#[test]
fn short_tables_read_as_zero_beyond_their_entries() {
    let t = PageTables {
        tables: vec![FrameTable {
            base: 0x1000,
            entries: vec![0x2000 | PRESENT],
        }],
    };
    assert_eq!(read_entry(&t, 0x1000, 0), 0x2000 | PRESENT);
    assert_eq!(read_entry(&t, 0x1000, 7), 0);
}
