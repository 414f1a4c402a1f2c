use kfs_core::gdt::{
    code_segment, data_segment, esp_in_stack, gdt_table_pointer, gdt_template,
    kernel_entry_far_pointer, privilege_mask, selector_index, selector_ring, stack_dump_addresses,
    stack_segment, GdtEntry, GDT_PHYS_ADDR, KERNEL_CODE_SELECTOR, KERNEL_DATA_SELECTOR,
    KERNEL_STACK_SELECTOR, USER_CODE_SELECTOR, USER_DATA_SELECTOR, USER_STACK_SELECTOR,
};

#[test]
fn descriptor_fields_land_at_their_bit_positions() {
    let e = GdtEntry::new(0x12345678, 0xABCDE, 0x9A, 0xC);
    assert_eq!(e.value(), 0x12CA_9A34_5678_BCDE);
    assert_eq!(e.base(), 0x12345678);
    assert_eq!(e.limit(), 0xABCDE);
    assert_eq!(e.access(), 0x9A);
    assert_eq!(e.flags(), 0xC);
}

#[test]
fn descriptor_limit_keeps_low_20_bits() {
    let e = GdtEntry::new(0, 0xFFFF_FFFF, 0, 0);
    assert_eq!(e.limit(), 0xF_FFFF);
    let f = GdtEntry::new(0xFFFF_FFFF, 0, 0xFF, 0xF);
    assert_eq!(f.base(), 0xFFFF_FFFF);
    assert_eq!(f.limit(), 0);
    assert_eq!(f.access(), 0xFF);
    assert_eq!(f.flags(), 0xF);
}

#[test]
fn template_table_decodes_to_documented_access_bytes() {
    let table = gdt_template();
    assert_eq!(table.len(), 7);
    assert_eq!(table[0].value(), 0);
    let accesses: Vec<u8> = table.iter().map(|e| e.access()).collect();
    assert_eq!(accesses[1..], [0x9A, 0x92, 0x96, 0xFA, 0xF2, 0xF6]);
    for e in &table[1..] {
        assert_eq!(e.base(), 0);
        assert_eq!(e.limit(), 0xF_FFFF);
        assert_eq!(e.flags(), 0b1100);
    }
    // ring bits: 0 for the kernel entries, 3 for the user entries
    for e in &table[1..4] {
        assert_eq!((e.access() >> 5) & 0b11, 0);
    }
    for e in &table[4..7] {
        assert_eq!((e.access() >> 5) & 0b11, 3);
    }
}

#[test]
fn segment_builders_only_differ_in_access_byte() {
    assert_eq!(code_segment(0).access(), 0x9A);
    assert_eq!(data_segment(0).access(), 0x92);
    assert_eq!(stack_segment(0).access(), 0x96);
    assert_eq!(code_segment(3).access(), 0xFA);
    assert_eq!(data_segment(3).access(), 0xF2);
    assert_eq!(stack_segment(3).access(), 0xF6);
    assert_eq!(privilege_mask(0), 0);
    assert_eq!(privilege_mask(3), 0b0110_0000);
}

#[test]
fn selector_constants_have_documented_values() {
    assert_eq!(KERNEL_CODE_SELECTOR, 0x08);
    assert_eq!(KERNEL_DATA_SELECTOR, 0x10);
    assert_eq!(KERNEL_STACK_SELECTOR, 0x18);
    assert_eq!(USER_CODE_SELECTOR, 0x23);
    assert_eq!(USER_DATA_SELECTOR, 0x2B);
    assert_eq!(USER_STACK_SELECTOR, 0x33);
}

#[test]
fn selectors_decode_to_ring_and_index() {
    let kernel = [KERNEL_CODE_SELECTOR, KERNEL_DATA_SELECTOR, KERNEL_STACK_SELECTOR];
    for (i, sel) in kernel.iter().enumerate() {
        assert_eq!(selector_index(*sel), i as u16 + 1);
        assert_eq!(selector_ring(*sel), 0);
    }
    let user = [USER_CODE_SELECTOR, USER_DATA_SELECTOR, USER_STACK_SELECTOR];
    for (i, sel) in user.iter().enumerate() {
        assert_eq!(selector_index(*sel), i as u16 + 4);
        assert_eq!(selector_ring(*sel), 3);
    }
}

#[test]
fn table_pointer_covers_seven_descriptors() {
    let p = gdt_table_pointer();
    assert_eq!(p.limit, 55);
    assert_eq!(p.base, GDT_PHYS_ADDR);
    assert_eq!(p.base, 0x800);
}

#[test]
fn far_pointer_uses_kernel_code_selector() {
    let p = kernel_entry_far_pointer(0xDEAD_BEEF);
    assert_eq!(p.offset, 0xDEAD_BEEF);
    assert_eq!(p.selector, 0x08);
}

#[test]
fn esp_range_check_matches_half_open_interval() {
    assert!(esp_in_stack(0x1000, 0x2000, 0x1000));
    assert!(esp_in_stack(0x1000, 0x2000, 0x1FFF));
    assert!(!esp_in_stack(0x1000, 0x2000, 0x2000));
    assert!(!esp_in_stack(0x1000, 0x2000, 0x0FFF));
}

#[test]
fn stack_dump_walks_words_up_to_the_cap() {
    assert_eq!(stack_dump_addresses(100, 140), vec![100, 104, 108, 112, 116, 120, 124, 128]);
    assert_eq!(stack_dump_addresses(100, 110), vec![100, 104, 108]);
    assert_eq!(stack_dump_addresses(100, 101), vec![100]);
    assert_eq!(stack_dump_addresses(100, 100), Vec::<u32>::new());
    assert_eq!(stack_dump_addresses(200, 100), Vec::<u32>::new());
}
