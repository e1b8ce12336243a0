use openvmm::user_driver::memory::{MappedPages, MemoryBlock};

fn pages(pfns: Vec<u64>) -> MappedPages {
    MappedPages {
        base: 0x7000,
        len: pfns.len() * 4096,
        pfns,
        pfn_bias: 1 << 40,
    }
}

#[test]
fn blocks_know_their_pages() {
    let b = MemoryBlock::new(&pages(vec![10, 11, 20]));
    assert_eq!((b.base(), b.len(), b.offset_in_page()), (0x7000, 0x3000, 0));
    assert_eq!(b.pfns(), vec![10, 11, 20]);
    assert_eq!(b.pfn_bias(), 1 << 40);
    assert!(!b.contiguous_pfns());
    let s = b.subblock(0x800, 0x1000);
    assert_eq!((s.base(), s.len(), s.offset_in_page()), (0x7800, 0x1000, 0x800));
    assert_eq!(s.pfns(), vec![10, 11]);
    assert!(s.contiguous_pfns());
    let s = s.subblock(0x800, 0x800);
    assert_eq!((s.base(), s.len()), (0x8000, 0x800));
    assert_eq!(s.pfns(), vec![11]);
}

#[test]
fn blocks_are_read_and_written() {
    let b = MemoryBlock::new(&pages(vec![10, 11]));
    let s = b.subblock(0x1000, 0x100);
    let mut memory = vec![7; 0x2000];
    s.write_at(&mut memory, 4, &[1, 2, 3]);
    assert_eq!(&memory[0x1003..0x1008], &[7, 1, 2, 3, 7]);
    let mut data = vec![0; 3];
    b.read_at(&memory, 0x1004, &mut data);
    assert_eq!(data, vec![1, 2, 3]);
    s.write_zeros(&mut memory, 5, 2);
    s.read_at(&memory, 3, &mut data);
    assert_eq!(data, vec![7, 1, 0]);
}
