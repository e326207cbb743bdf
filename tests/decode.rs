use elfparse::addr::Addr;
use elfparse::elf::{DynamicEntry, File, FileHeader, ProgramHeader, SegmentContents};
use elfparse::error::{ErrorContext, Label};
use elfparse::kinds::{DynamicTag, Machine, SegmentFlags, SegmentType, Type};
use elfparse::render::HexDump;

fn header(ty: u16, machine: u16, entry: u64, ph_offset: u64, ph_entsize: u16, ph_count: u16) -> Vec<u8> {
    let mut b = vec![0x7f, 0x45, 0x4c, 0x46, 2, 1, 1, 0];
    b.extend_from_slice(&[0; 8]);
    b.extend_from_slice(&ty.to_le_bytes());
    b.extend_from_slice(&machine.to_le_bytes());
    b.extend_from_slice(&1u32.to_le_bytes());
    b.extend_from_slice(&entry.to_le_bytes());
    b.extend_from_slice(&ph_offset.to_le_bytes());
    b.extend_from_slice(&0u64.to_le_bytes());
    b.extend_from_slice(&0u32.to_le_bytes());
    b.extend_from_slice(&64u16.to_le_bytes());
    b.extend_from_slice(&ph_entsize.to_le_bytes());
    b.extend_from_slice(&ph_count.to_le_bytes());
    b.extend_from_slice(&[0; 6]);
    assert_eq!(b.len(), 64);
    b
}

fn entry(kind: u32, flags: u32, offset: u64, vaddr: u64, filesz: u64, memsz: u64) -> Vec<u8> {
    let mut b = Vec::new();
    b.extend_from_slice(&kind.to_le_bytes());
    b.extend_from_slice(&flags.to_le_bytes());
    for v in [offset, vaddr, vaddr, filesz, memsz, 0x1000] {
        b.extend_from_slice(&v.to_le_bytes());
    }
    b
}

fn dyn_pair(tag: u64, addr: u64) -> Vec<u8> {
    let mut b = tag.to_le_bytes().to_vec();
    b.extend_from_slice(&addr.to_le_bytes());
    b
}

fn ctx(label: Label, pos: usize) -> ErrorContext {
    ErrorContext { label, pos }
}

fn err_of(b: &[u8]) -> Vec<ErrorContext> {
    File::parse(b).unwrap_err().contexts
}

#[test]
fn scenario_minimal_header_without_segments() {
    let b = header(2, 0x3e, 0x1000, 64, 56, 0);
    let f = File::parse(&b).unwrap();
    assert_eq!(f.ty, Type::EXEC);
    assert_eq!(f.machine, Machine::X86_64);
    assert_eq!(f.entry_point, Addr(0x1000));
    assert!(f.program_headers.is_empty());
}

#[test]
fn scenario_one_load_segment() {
    let mut b = header(2, 0x3e, 0x1000, 64, 56, 1);
    b.extend(entry(1, 5, 120, 0x1000, 4, 8));
    b.extend_from_slice(&[0xde, 0xad, 0xbe, 0xef]);
    let f = File::parse(&b).unwrap();
    assert_eq!(f.program_headers.len(), 1);
    let ph = &f.program_headers[0];
    assert_eq!(ph.kind, SegmentType::LOAD);
    let r = ph.mem_range();
    assert_eq!((r.start, r.end), (Addr(0x1000), Addr(0x1008)));
    assert!(matches!(ph.contents, SegmentContents::Unknown));
    assert_eq!(ph.data, vec![0xde, 0xad, 0xbe, 0xef]);
    assert_eq!(ph.flags, SegmentFlags::from_bits(5).unwrap());
}

#[test]
fn scenario_dynamic_needed_then_null() {
    let mut b = header(3, 0x3e, 0, 64, 56, 1);
    b.extend(entry(2, 6, 120, 0x2000, 32, 32));
    b.extend(dyn_pair(1, 0));
    b.extend(dyn_pair(0, 0));
    let f = File::parse(&b).unwrap();
    match &f.program_headers[0].contents {
        SegmentContents::Dynamic(v) => {
            assert_eq!(v.len(), 1);
            assert_eq!(v[0], DynamicEntry { tag: DynamicTag::Needed, addr: Addr(0) });
        }
        SegmentContents::Unknown => panic!("expected a dynamic table"),
    }
}

#[test]
fn scenario_bad_magic() {
    let mut b = header(2, 0x3e, 0x1000, 64, 56, 0);
    b[0] = 0x7e;
    assert_eq!(err_of(&b), vec![ctx(Label::Magic, 0)]);
    assert_eq!(err_of(&[]), vec![ctx(Label::Magic, 0)]);
    assert_eq!(err_of(&[0x7f, 0x45, 0x4c]), vec![ctx(Label::Magic, 0)]);
}

#[test]
fn count_bounds_entries_read() {
    // three entries' worth of table, all zero, but the header declares two
    let mut b = header(2, 0x3e, 0, 64, 56, 2);
    b.extend(vec![0u8; 56 * 3]);
    let f = File::parse(&b).unwrap();
    assert_eq!(f.program_headers.len(), 2);
    for ph in &f.program_headers {
        assert_eq!(ph.kind, SegmentType::NULL);
        assert_eq!(ph.flags, SegmentFlags::empty());
        assert!(ph.data.is_empty());
    }
}

#[test]
fn entry_size_larger_than_fields_is_honoured() {
    let mut b = header(2, 0x3e, 0, 64, 64, 2);
    b.extend(entry(1, 4, 0, 0x10, 0, 0));
    b.extend_from_slice(&[0xaa; 8]);
    b.extend(entry(6, 4, 0, 0x20, 0, 0));
    b.extend_from_slice(&[0xbb; 8]);
    let f = File::parse(&b).unwrap();
    assert_eq!(f.program_headers[0].vaddr, Addr(0x10));
    assert_eq!(f.program_headers[1].kind, SegmentType::PHDR);
    assert_eq!(f.program_headers[1].vaddr, Addr(0x20));
}

#[test]
fn table_past_end_is_out_of_bounds() {
    let mut b = header(2, 0x3e, 0, 64, 56, 2);
    b.extend(entry(1, 4, 0, 0, 0, 0));
    assert_eq!(err_of(&b), vec![ctx(Label::OutOfBounds, 32)]);
    let b = header(2, 0x3e, 0, 65, 56, 0);
    assert_eq!(err_of(&b), vec![ctx(Label::OutOfBounds, 32)]);
}

#[test]
fn dynamic_without_null_fails() {
    let mut b = header(3, 0x3e, 0, 64, 56, 1);
    b.extend(entry(2, 4, 120, 0, 32, 32));
    b.extend(dyn_pair(1, 0));
    b.extend(dyn_pair(5, 0x40));
    assert_eq!(
        err_of(&b),
        vec![ctx(Label::Unterminated, 152), ctx(Label::DynamicTable, 120), ctx(Label::ProgramHeader, 64)]
    );
}

#[test]
fn dynamic_null_stops_before_trailing_garbage() {
    let mut b = header(3, 0x3e, 0, 64, 56, 1);
    b.extend(entry(2, 4, 120, 0, 56, 56));
    b.extend(dyn_pair(5, 0x40));
    b.extend(dyn_pair(0, 0x99));
    b.extend_from_slice(&[0xff; 24]);
    let f = File::parse(&b).unwrap();
    match &f.program_headers[0].contents {
        SegmentContents::Dynamic(v) => {
            assert_eq!(v, &vec![DynamicEntry { tag: DynamicTag::StrTab, addr: Addr(0x40) }]);
        }
        SegmentContents::Unknown => panic!("expected a dynamic table"),
    }
}

#[test]
fn dynamic_invalid_tag() {
    let mut b = header(3, 0x3e, 0, 64, 56, 1);
    b.extend(entry(2, 4, 120, 0, 32, 32));
    b.extend(dyn_pair(29, 0));
    b.extend(dyn_pair(0, 0));
    assert_eq!(
        err_of(&b),
        vec![ctx(Label::InvalidDynamicTag(29), 120), ctx(Label::DynamicTable, 120), ctx(Label::ProgramHeader, 64)]
    );
}

#[test]
fn ident_errors() {
    let good = header(2, 0x3e, 0, 64, 56, 0);
    let mut b = good.clone();
    b[4] = 1;
    assert_eq!(err_of(&b), vec![ctx(Label::Class, 4)]);
    let mut b = good.clone();
    b[5] = 2;
    assert_eq!(err_of(&b), vec![ctx(Label::Endianness, 5)]);
    let mut b = good.clone();
    b[6] = 0;
    assert_eq!(err_of(&b), vec![ctx(Label::Version, 6)]);
    let mut b = good.clone();
    b[7] = 1;
    assert_eq!(err_of(&b), vec![ctx(Label::OsAbi, 7)]);
    let mut b = good.clone();
    b[7] = 3;
    assert!(File::parse(&b).is_ok());
    assert_eq!(err_of(&good[..12]), vec![ctx(Label::Eof, 8)]);
}

#[test]
fn header_field_errors() {
    let good = header(2, 0x3e, 0, 64, 56, 0);
    let mut b = good.clone();
    b[16] = 5;
    assert_eq!(err_of(&b), vec![ctx(Label::InvalidType(5), 16)]);
    let mut b = good.clone();
    b[18] = 0x28;
    assert_eq!(err_of(&b), vec![ctx(Label::InvalidMachine(0x28), 18)]);
    let mut b = good.clone();
    b[20] = 2;
    assert_eq!(err_of(&b), vec![ctx(Label::VersionBis, 20)]);
    assert_eq!(err_of(&good[..17]), vec![ctx(Label::Eof, 16)]);
    assert_eq!(err_of(&good[..19]), vec![ctx(Label::Eof, 18)]);
    assert_eq!(err_of(&good[..23]), vec![ctx(Label::Eof, 20)]);
    assert_eq!(err_of(&good[..30]), vec![ctx(Label::Eof, 24)]);
    assert_eq!(err_of(&good[..55]), vec![ctx(Label::Eof, 54)]);
    assert_eq!(err_of(&good[..63]), vec![ctx(Label::Eof, 62)]);
}

#[test]
fn header_fields_are_read() {
    let b = header(1, 0x03, 0x1234, 64, 56, 0);
    let h = FileHeader::parse(&b).unwrap();
    assert_eq!(h.ty, Type::REL);
    assert_eq!(h.machine, Machine::X86);
    assert_eq!(h.entry_point, Addr(0x1234));
    assert_eq!(h.ph_offset, Addr(64));
    assert_eq!(h.hdr_size, 64);
    assert_eq!(h.ph_entsize, 56);
    assert_eq!(h.ph_count, 0);
}

#[test]
fn entry_errors() {
    let mut b = header(2, 0x3e, 0, 64, 56, 1);
    b.extend(entry(9, 4, 0, 0, 0, 0));
    assert_eq!(err_of(&b), vec![ctx(Label::InvalidSegmentType(9), 64), ctx(Label::ProgramHeader, 64)]);

    let mut b = header(2, 0x3e, 0, 64, 56, 1);
    b.extend(entry(1, 8, 0, 0, 0, 0));
    assert_eq!(err_of(&b), vec![ctx(Label::InvalidSegmentFlags(8), 68), ctx(Label::ProgramHeader, 64)]);

    let mut b = header(2, 0x3e, 0, 64, 56, 1);
    b.extend(entry(1, 4, 100, 0, 50, 50));
    assert_eq!(err_of(&b), vec![ctx(Label::OutOfBounds, 72), ctx(Label::ProgramHeader, 64)]);

    let mut b = header(2, 0x3e, 0, 64, 20, 1);
    b.extend(entry(1, 4, 0, 0, 0, 0));
    assert_eq!(err_of(&b), vec![ctx(Label::Eof, 80), ctx(Label::ProgramHeader, 64)]);

    let mut b = header(2, 0x3e, 0, 64, 0, 1);
    b.extend(entry(1, 4, 0, 0, 0, 0));
    assert_eq!(err_of(&b), vec![ctx(Label::Eof, 64), ctx(Label::ProgramHeader, 64)]);
}

#[test]
fn second_entry_failure_names_its_position() {
    let mut b = header(2, 0x3e, 0, 64, 56, 2);
    b.extend(entry(1, 4, 0, 0, 0, 0));
    b.extend(entry(1, 0x10, 0, 0, 0, 0));
    assert_eq!(err_of(&b), vec![ctx(Label::InvalidSegmentFlags(0x10), 124), ctx(Label::ProgramHeader, 120)]);
}

#[test]
fn ranges_match_fields() {
    let mut b = header(2, 0x3e, 0, 64, 56, 1);
    b.extend(entry(1, 4, 64, 0x400, 56, 0x100));
    let f = File::parse(&b).unwrap();
    let ph: &ProgramHeader = &f.program_headers[0];
    let fr = ph.file_range();
    assert_eq!((fr.start, fr.end), (Addr(64), Addr(120)));
    let mr = ph.mem_range();
    assert_eq!((mr.start, mr.end), (Addr(0x400), Addr(0x500)));
    assert_eq!(ph.data, b[64..120].to_vec());
}

#[test]
fn rendered_error_text() {
    let mut b = header(2, 0x3e, 0, 64, 56, 0);
    b[0] = 0;
    let text = File::parse_or_print_error(&b).unwrap_err();
    assert_eq!(text, "Magic at: 00 45 4c 46 02 01 01 00 00 00 00 00 00 00 00 00 02 00 3e 00 \n");

    let b = header(2, 0x3e, 0, 64, 56, 1);
    let text = File::parse_or_print_error(&b).unwrap_err();
    assert_eq!(text, "OutOfBounds at: 40 00 00 00 00 00 00 00 00 00 00 00 00 00 00 00 00 00 00 00 \n");

    let mut b = header(2, 0x3e, 0, 64, 56, 1);
    b.extend(entry(9, 4, 0, 0, 0, 0));
    let text = File::parse_or_print_error(&b).unwrap_err();
    let dump = "09 00 00 00 04 00 00 00 00 00 00 00 00 00 00 00 00 00 00 00 ";
    assert_eq!(text, format!("InvalidSegmentType at: {}\nProgramHeader at: {}\n", dump, dump));

    let short = &header(2, 0x3e, 0, 64, 56, 0)[..10];
    assert_eq!(File::parse_or_print_error(short).unwrap_err(), "Eof at: 00 00 \n");
    assert!(File::parse_or_print_error(&header(2, 0x3e, 0, 64, 56, 0)).is_ok());
}

#[test]
fn addr_conversions() {
    assert_eq!(Addr::from(7u64), Addr(7));
    assert_eq!(u64::from(Addr(9)), 9);
    assert_eq!(usize::from(Addr(11)), 11);
    assert_eq!(Addr(5).add(Addr(6)), Addr(11));
    assert_eq!(Addr(6).sub(Addr(5)), Addr(1));
    assert_eq!(Addr(6).index_within(6), Some(6));
    assert_eq!(Addr(7).index_within(6), None);
    assert!(Addr(1) < Addr(2));
}

#[test]
fn addr_parse_reads_little_endian() {
    let b = [0x00, 0x10, 0x00, 0x00, 0x00, 0x00, 0x00, 0x00, 0xff];
    assert_eq!(Addr::parse(&b, 0), Some(Addr(0x1000)));
    assert_eq!(Addr::parse(&b, 1), Some(Addr(0xff00_0000_0000_0010)));
    assert_eq!(Addr::parse(&b, 2), None);
    assert_eq!(Addr::parse(&b, 100), None);
}

#[test]
fn hex_dump_shows_at_most_twenty_bytes() {
    let bytes: Vec<u8> = (0u8..25).collect();
    assert_eq!(
        HexDump(&bytes).text(),
        "00 01 02 03 04 05 06 07 08 09 0a 0b 0c 0d 0e 0f 10 11 12 13 "
    );
    assert_eq!(HexDump(&[0xab, 0x5]).text(), "ab 05 ");
    assert_eq!(HexDump(&[]).text(), "");
}
