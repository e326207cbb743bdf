use elfparse::addr::Addr;
use elfparse::elf::{File, ProgramHeader, SegmentContents};
use elfparse::kinds::{Machine, SegmentFlags, SegmentType, Type};
use elfparse::loader::{align_lo, plan_load, LoadError, SegmentMapping};

fn segment(kind: SegmentType, flags: u32, vaddr: u64, data: Vec<u8>, memsz: u64) -> ProgramHeader {
    ProgramHeader {
        kind,
        flags: SegmentFlags::from_bits(flags).unwrap(),
        offset: Addr(0),
        vaddr: Addr(vaddr),
        paddr: Addr(vaddr),
        filesz: Addr(data.len() as u64),
        memsz: Addr(memsz),
        align: Addr(0x1000),
        data,
        contents: SegmentContents::Unknown,
    }
}

fn file(program_headers: Vec<ProgramHeader>) -> File {
    File { ty: Type::EXEC, machine: Machine::X86_64, entry_point: Addr(0x1000), program_headers }
}

#[test]
fn align_lo_rounds_down_to_page() {
    assert_eq!(align_lo(0), 0);
    assert_eq!(align_lo(0xfff), 0);
    assert_eq!(align_lo(0x1000), 0x1000);
    assert_eq!(align_lo(0x401234), 0x401000);
    assert_eq!(align_lo(usize::MAX), usize::MAX - 0xfff);
}

#[test]
fn unaligned_segment_gets_padding() {
    let f = file(vec![segment(SegmentType::LOAD, 5, 0x1234, vec![1, 2, 3, 4], 0x10)]);
    let plan = plan_load(&f, 0x400000).unwrap();
    assert_eq!(
        plan,
        vec![SegmentMapping {
            index: 0,
            start: 0x401000,
            padding: 0x234,
            len: 0x10 + 0x234,
            protection: SegmentFlags::from_bits(5).unwrap(),
        }]
    );
    let m = plan[0];
    assert_eq!(m.start % 0x1000, 0);
    assert_eq!(m.start + m.padding, 0x400000 + 0x1234);
}

#[test]
fn only_nonempty_load_segments_are_mapped() {
    let f = file(vec![
        segment(SegmentType::PHDR, 4, 0x40, vec![], 0x100),
        segment(SegmentType::LOAD, 4, 0x1000, vec![], 0),
        segment(SegmentType::LOAD, 6, 0x2000, vec![9; 8], 0x2000),
        segment(SegmentType::DYNAMIC, 6, 0x3000, vec![], 0x10),
    ]);
    let plan = plan_load(&f, 0).unwrap();
    assert_eq!(plan.len(), 1);
    assert_eq!(plan[0].index, 2);
    assert_eq!((plan[0].start, plan[0].padding, plan[0].len), (0x2000, 0, 0x2000));
}

#[test]
fn file_bytes_beyond_memory_size_are_refused() {
    let f = file(vec![
        segment(SegmentType::LOAD, 4, 0x1000, vec![0; 4], 4),
        segment(SegmentType::LOAD, 4, 0x2000, vec![0; 8], 4),
    ]);
    assert_eq!(plan_load(&f, 0x400000), Err(LoadError::FileLargerThanMemory(1)));
}

#[test]
fn address_overflow_is_refused() {
    let f = file(vec![segment(SegmentType::LOAD, 4, u64::MAX - 0x10, vec![], 0x100)]);
    assert_eq!(plan_load(&f, 0x400000), Err(LoadError::AddressOverflow(0)));
}

#[test]
fn empty_file_plans_nothing() {
    assert_eq!(plan_load(&file(vec![]), 0x400000), Ok(vec![]));
}
