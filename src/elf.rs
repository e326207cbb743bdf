use vstd::prelude::*;

use crate::addr::Addr;
use crate::bytes::{le16, le32, le64, read_u16, read_u32, read_u64};
use crate::error::{fail_at, wrap_at, DecodeError, ErrorContext, Label};
use crate::kinds::{DynamicTag, Machine, SegmentFlags, SegmentType, Type};
use crate::render::render;

verus! {

/// Size of the file header.
pub const HEADER_SIZE: usize = 64;

/// Size of the fields of a program-header entry that the decoder reads.
pub const PH_FIELDS_SIZE: usize = 56;

/// Size of one entry of a dynamic table.
pub const DYNAMIC_ENTRY_SIZE: usize = 16;

/// One (tag, address) pair of a dynamic table.
#[derive(Clone, Copy, PartialEq, Eq, Debug, Structural)]
pub struct DynamicEntry {
    pub tag: DynamicTag,
    pub addr: Addr,
}

/// What was decoded from the bytes of a segment.
#[derive(Debug)]
pub enum SegmentContents {
    /// The entries of a dynamic table, without its null entry.
    Dynamic(Vec<DynamicEntry>),
    /// A segment whose bytes are not decoded further.
    Unknown,
}

/// One entry of the program-header table.
#[derive(Debug)]
pub struct ProgramHeader {
    pub kind: SegmentType,
    pub flags: SegmentFlags,
    pub offset: Addr,
    pub vaddr: Addr,
    pub paddr: Addr,
    pub filesz: Addr,
    pub memsz: Addr,
    pub align: Addr,
    /// The bytes at `[offset, offset + filesz)` of the file.
    pub data: Vec<u8>,
    pub contents: SegmentContents,
}

/// A decoded file.
#[derive(Debug)]
pub struct File {
    pub ty: Type,
    pub machine: Machine,
    pub entry_point: Addr,
    pub program_headers: Vec<ProgramHeader>,
}

/// The value of a program-header entry.
pub struct SegmentModel {
    pub kind: SegmentType,
    pub flags: SegmentFlags,
    pub offset: Addr,
    pub vaddr: Addr,
    pub paddr: Addr,
    pub filesz: Addr,
    pub memsz: Addr,
    pub align: Addr,
    pub data: Seq<u8>,
    /// `Some` with the entries of a dynamic table, `None` for other segments.
    pub dynamic: Option<Seq<DynamicEntry>>,
}

/// The value of a decoded file.
pub struct FileModel {
    pub ty: Type,
    pub machine: Machine,
    pub entry_point: Addr,
    pub segments: Seq<SegmentModel>,
}

impl View for ProgramHeader {
    type V = SegmentModel;

    open spec fn view(&self) -> SegmentModel {
        SegmentModel {
            kind: self.kind,
            flags: self.flags,
            offset: self.offset,
            vaddr: self.vaddr,
            paddr: self.paddr,
            filesz: self.filesz,
            memsz: self.memsz,
            align: self.align,
            data: self.data@,
            dynamic: match self.contents {
                SegmentContents::Dynamic(v) => Some(v@),
                SegmentContents::Unknown => None,
            },
        }
    }
}

impl View for File {
    type V = FileModel;

    open spec fn view(&self) -> FileModel {
        FileModel {
            ty: self.ty,
            machine: self.machine,
            entry_point: self.entry_point,
            segments: self.program_headers@.map_values(|p: ProgramHeader| p@),
        }
    }
}

/// The dynamic table that starts at `q` in `s`, read up to `end`: entries up
/// to the first one whose tag is null, which ends the table and is left out.
pub open spec fn decode_dynamic(s: Seq<u8>, q: int, end: int) -> Result<
    Seq<DynamicEntry>,
    Seq<ErrorContext>,
>
    decreases end - q,
{
    if q + 16 > end {
        Err(fail_at(Label::Unterminated, q))
    } else {
        let code = le64(s, q) as u64;
        match DynamicTag::spec_from_code(code) {
            None => Err(fail_at(Label::InvalidDynamicTag(code), q)),
            Some(DynamicTag::Null) => Ok(seq![]),
            Some(tag) => match decode_dynamic(s, q + 16, end) {
                Ok(rest) => Ok(seq![DynamicEntry { tag, addr: Addr(le64(s, q + 8) as u64) }] + rest),
                Err(e) => Err(e),
            },
        }
    }
}

/// `v` followed by what `r` holds, or the error of `r`.
pub open spec fn prepend_entries(v: Seq<DynamicEntry>, r: Result<Seq<DynamicEntry>, Seq<ErrorContext>>) -> Result<
    Seq<DynamicEntry>,
    Seq<ErrorContext>,
> {
    match r {
        Ok(rest) => Ok(v + rest),
        Err(e) => Err(e),
    }
}

/// The 64-bit address field at `off` inside the entry at `e`.
pub open spec fn addr_field(s: Seq<u8>, e: int, off: int) -> Addr {
    Addr(le64(s, e + off) as u64)
}

/// The program-header entry that starts at `e` in `s` and is `es` bytes long.
pub open spec fn decode_segment(s: Seq<u8>, e: int, es: int) -> Result<SegmentModel, Seq<ErrorContext>> {
    if es < 4 {
        Err(fail_at(Label::Eof, e))
    } else if SegmentType::spec_from_code(le32(s, e) as u32) is None {
        Err(fail_at(Label::InvalidSegmentType(le32(s, e) as u32), e))
    } else if es < 8 {
        Err(fail_at(Label::Eof, e + 4))
    } else if le32(s, e + 4) >= 8 {
        Err(fail_at(Label::InvalidSegmentFlags(le32(s, e + 4) as u32), e + 4))
    } else if es < 16 {
        Err(fail_at(Label::Eof, e + 8))
    } else if es < 24 {
        Err(fail_at(Label::Eof, e + 16))
    } else if es < 32 {
        Err(fail_at(Label::Eof, e + 24))
    } else if es < 40 {
        Err(fail_at(Label::Eof, e + 32))
    } else if es < 48 {
        Err(fail_at(Label::Eof, e + 40))
    } else if es < 56 {
        Err(fail_at(Label::Eof, e + 48))
    } else {
        let kind = SegmentType::spec_from_code(le32(s, e) as u32).unwrap();
        let offset = le64(s, e + 8);
        let filesz = le64(s, e + 32);
        if offset + filesz > s.len() {
            Err(fail_at(Label::OutOfBounds, e + 8))
        } else {
            let dynamic = if kind == SegmentType::DYNAMIC {
                match decode_dynamic(s, offset, offset + filesz) {
                    Ok(v) => Ok(Some(v)),
                    Err(x) => Err(wrap_at(x, Label::DynamicTable, offset)),
                }
            } else {
                Ok(None)
            };
            match dynamic {
                Err(x) => Err(x),
                Ok(dynamic) => Ok(
                    SegmentModel {
                        kind,
                        flags: SegmentFlags::spec_from_bits(le32(s, e + 4) as u32).unwrap(),
                        offset: addr_field(s, e, 8),
                        vaddr: addr_field(s, e, 16),
                        paddr: addr_field(s, e, 24),
                        filesz: addr_field(s, e, 32),
                        memsz: addr_field(s, e, 40),
                        align: addr_field(s, e, 48),
                        data: s.subrange(offset, offset + filesz),
                        dynamic,
                    },
                ),
            }
        }
    }
}

/// The first `n` entries of the program-header table that starts at `off`,
/// each `es` bytes long.
pub open spec fn decode_segments(s: Seq<u8>, off: int, es: int, n: nat) -> Result<
    Seq<SegmentModel>,
    Seq<ErrorContext>,
>
    decreases n,
{
    if n == 0 {
        Ok(seq![])
    } else {
        match decode_segments(s, off, es, (n - 1) as nat) {
            Err(x) => Err(x),
            Ok(v) => {
                let e = off + (n - 1) * es;
                match decode_segment(s, e, es) {
                    Ok(m) => Ok(v.push(m)),
                    Err(x) => Err(wrap_at(x, Label::ProgramHeader, e)),
                }
            },
        }
    }
}

/// The failure in the first 16 bytes of the header, if they are not those of
/// a supported file.
pub open spec fn ident_error(s: Seq<u8>) -> Option<Seq<ErrorContext>> {
    if s.len() < 4 || s[0] != 0x7f || s[1] != 0x45 || s[2] != 0x4c || s[3] != 0x46 {
        Some(fail_at(Label::Magic, 0))
    } else if s.len() < 5 || s[4] != 2 {
        Some(fail_at(Label::Class, 4))
    } else if s.len() < 6 || s[5] != 1 {
        Some(fail_at(Label::Endianness, 5))
    } else if s.len() < 7 || s[6] != 1 {
        Some(fail_at(Label::Version, 6))
    } else if s.len() < 8 || (s[7] != 0 && s[7] != 3) {
        Some(fail_at(Label::OsAbi, 7))
    } else if s.len() < 16 {
        Some(fail_at(Label::Eof, 8))
    } else {
        None
    }
}

/// Where the input ends inside the fields after the version word, if it does.
pub open spec fn header_tail_error(len: int) -> Option<Seq<ErrorContext>> {
    if len < 32 {
        Some(fail_at(Label::Eof, 24))
    } else if len < 40 {
        Some(fail_at(Label::Eof, 32))
    } else if len < 48 {
        Some(fail_at(Label::Eof, 40))
    } else if len < 52 {
        Some(fail_at(Label::Eof, 48))
    } else if len < 54 {
        Some(fail_at(Label::Eof, 52))
    } else if len < 56 {
        Some(fail_at(Label::Eof, 54))
    } else if len < 58 {
        Some(fail_at(Label::Eof, 56))
    } else if len < 60 {
        Some(fail_at(Label::Eof, 58))
    } else if len < 62 {
        Some(fail_at(Label::Eof, 60))
    } else if len < 64 {
        Some(fail_at(Label::Eof, 62))
    } else {
        None
    }
}

/// The fields of the file header.
#[derive(Clone, Copy, PartialEq, Eq, Debug, Structural)]
pub struct FileHeader {
    pub ty: Type,
    pub machine: Machine,
    pub entry_point: Addr,
    pub ph_offset: Addr,
    pub sh_offset: Addr,
    pub flags: u32,
    pub hdr_size: u16,
    pub ph_entsize: u16,
    pub ph_count: u16,
    pub sh_entsize: u16,
    pub sh_count: u16,
    pub sh_nidx: u16,
}

/// What decoding the header of `s` gives: its fields, or the chain of the
/// first failure.
pub open spec fn decode_header(s: Seq<u8>) -> Result<FileHeader, Seq<ErrorContext>> {
    if ident_error(s) is Some {
        Err(ident_error(s).unwrap())
    } else if s.len() < 18 {
        Err(fail_at(Label::Eof, 16))
    } else if Type::spec_from_code(le16(s, 16) as u16) is None {
        Err(fail_at(Label::InvalidType(le16(s, 16) as u16), 16))
    } else if s.len() < 20 {
        Err(fail_at(Label::Eof, 18))
    } else if Machine::spec_from_code(le16(s, 18) as u16) is None {
        Err(fail_at(Label::InvalidMachine(le16(s, 18) as u16), 18))
    } else if s.len() < 24 {
        Err(fail_at(Label::Eof, 20))
    } else if le32(s, 20) != 1 {
        Err(fail_at(Label::VersionBis, 20))
    } else if header_tail_error(s.len() as int) is Some {
        Err(header_tail_error(s.len() as int).unwrap())
    } else {
        Ok(
            FileHeader {
                ty: Type::spec_from_code(le16(s, 16) as u16).unwrap(),
                machine: Machine::spec_from_code(le16(s, 18) as u16).unwrap(),
                entry_point: Addr(le64(s, 24) as u64),
                ph_offset: Addr(le64(s, 32) as u64),
                sh_offset: Addr(le64(s, 40) as u64),
                flags: le32(s, 48) as u32,
                hdr_size: le16(s, 52) as u16,
                ph_entsize: le16(s, 54) as u16,
                ph_count: le16(s, 56) as u16,
                sh_entsize: le16(s, 58) as u16,
                sh_count: le16(s, 60) as u16,
                sh_nidx: le16(s, 62) as u16,
            },
        )
    }
}

/// What decoding the file `s` gives: its value, or the chain of the first
/// failure. The program-header table must lie inside `s`, and exactly
/// `ph_count` entries of `ph_entsize` bytes are decoded from it.
pub open spec fn decode(s: Seq<u8>) -> Result<FileModel, Seq<ErrorContext>> {
    match decode_header(s) {
        Err(x) => Err(x),
        Ok(h) => {
            let off = h.ph_offset.0 as int;
            let es = h.ph_entsize as int;
            let n = h.ph_count as int;
            if off + n * es > s.len() {
                Err(fail_at(Label::OutOfBounds, 32))
            } else {
                match decode_segments(s, off, es, n as nat) {
                    Err(x) => Err(x),
                    Ok(segments) => Ok(
                        FileModel { ty: h.ty, machine: h.machine, entry_point: h.entry_point, segments },
                    ),
                }
            }
        },
    }
}

/// Once the first `m` entries fail, so do the first `n`, with the same chain.
proof fn lemma_segments_error_stays(s: Seq<u8>, off: int, es: int, m: nat, n: nat)
    requires
        m <= n,
        decode_segments(s, off, es, m) is Err,
    ensures
        decode_segments(s, off, es, n) == decode_segments(s, off, es, m),
    decreases n,
{
    if n > m {
        lemma_segments_error_stays(s, off, es, m, (n - 1) as nat);
    }
}

/// Copies the bytes `[start, end)` of `s`.
fn copy_range(s: &[u8], start: usize, end: usize) -> (r: Vec<u8>)
    requires
        start <= end <= s@.len(),
    ensures
        r@ == s@.subrange(start as int, end as int),
{
    let mut r: Vec<u8> = Vec::new();
    let mut k: usize = start;
    while k < end
        invariant
            start <= k <= end <= s@.len(),
            r@ == s@.subrange(start as int, k as int),
        decreases end - k,
    {
        r.push(s[k]);
        k = k + 1;
    }
    r
}

impl DynamicEntry {
    /// Decodes the dynamic table held by the bytes `[start, end)` of `s`.
    pub fn parse_table(s: &[u8], start: usize, end: usize) -> (r: Result<Vec<DynamicEntry>, DecodeError>)
        requires
            start <= end <= s@.len(),
        ensures
            match r {
                Ok(v) => decode_dynamic(s@, start as int, end as int) == Ok::<_, Seq<ErrorContext>>(v@),
                Err(x) => decode_dynamic(s@, start as int, end as int) == Err::<Seq<DynamicEntry>, _>(x.contexts@),
            },
    {
        let mut v: Vec<DynamicEntry> = Vec::new();
        let mut q: usize = start;
        loop
            invariant
                start <= q <= end <= s@.len(),
                decode_dynamic(s@, start as int, end as int) == prepend_entries(
                    v@,
                    decode_dynamic(s@, q as int, end as int),
                ),
            decreases end - q,
        {
            if end - q < DYNAMIC_ENTRY_SIZE {
                return Err(DecodeError::new(Label::Unterminated, q));
            }
            let code = read_u64(s, q).unwrap();
            match DynamicTag::try_from_u64(code) {
                Err(c) => {
                    return Err(DecodeError::new(Label::InvalidDynamicTag(c), q));
                },
                Ok(DynamicTag::Null) => {
                    assert(v@ + seq![] =~= v@);
                    return Ok(v);
                },
                Ok(tag) => {
                    let addr = Addr::parse(s, q + 8).unwrap();
                    let entry = DynamicEntry { tag, addr };
                    assert forall|rest: Seq<DynamicEntry>|
                        v@ + (seq![entry] + rest) =~= v@.push(entry) + rest by {}
                    v.push(entry);
                    q = q + DYNAMIC_ENTRY_SIZE;
                },
            }
        }
    }
}

impl ProgramHeader {
    /// Decodes the program-header entry that starts at `e` in `s` and is
    /// `es` bytes long.
    pub fn parse(s: &[u8], e: usize, es: usize) -> (r: Result<ProgramHeader, DecodeError>)
        requires
            e + es <= s@.len(),
        ensures
            match r {
                Ok(ph) => decode_segment(s@, e as int, es as int) == Ok::<_, Seq<ErrorContext>>(ph@),
                Err(x) => decode_segment(s@, e as int, es as int) == Err::<SegmentModel, _>(x.contexts@),
            },
    {
        let len = s.len();
        if es < 4 {
            return Err(DecodeError::new(Label::Eof, e));
        }
        let kind = match SegmentType::try_from_u32(read_u32(s, e).unwrap()) {
            Ok(k) => k,
            Err(c) => {
                return Err(DecodeError::new(Label::InvalidSegmentType(c), e));
            },
        };
        if es < 8 {
            return Err(DecodeError::new(Label::Eof, e + 4));
        }
        let flags = match SegmentFlags::from_bits(read_u32(s, e + 4).unwrap()) {
            Ok(f) => f,
            Err(c) => {
                return Err(DecodeError::new(Label::InvalidSegmentFlags(c), e + 4));
            },
        };
        if es < PH_FIELDS_SIZE {
            let p: usize = if es < 16 {
                8
            } else if es < 24 {
                16
            } else if es < 32 {
                24
            } else if es < 40 {
                32
            } else if es < 48 {
                40
            } else {
                48
            };
            return Err(DecodeError::new(Label::Eof, e + p));
        }
        let offset = Addr::parse(s, e + 8).unwrap();
        let vaddr = Addr::parse(s, e + 16).unwrap();
        let paddr = Addr::parse(s, e + 24).unwrap();
        let filesz = Addr::parse(s, e + 32).unwrap();
        let memsz = Addr::parse(s, e + 40).unwrap();
        let align = Addr::parse(s, e + 48).unwrap();
        if offset.0 > len as u64 || (len as u64 - offset.0) < filesz.0 {
            return Err(DecodeError::new(Label::OutOfBounds, e + 8));
        }
        let start = offset.0 as usize;
        let end = start + filesz.0 as usize;
        let data = copy_range(s, start, end);
        let contents = if kind == SegmentType::DYNAMIC {
            match DynamicEntry::parse_table(s, start, end) {
                Ok(v) => SegmentContents::Dynamic(v),
                Err(x) => {
                    return Err(x.wrap(Label::DynamicTable, start));
                },
            }
        } else {
            SegmentContents::Unknown
        };
        Ok(
            ProgramHeader {
                kind,
                flags,
                offset,
                vaddr,
                paddr,
                filesz,
                memsz,
                align,
                data,
                contents,
            },
        )
    }
}

impl FileHeader {
    /// Decodes and checks the file header.
    pub fn parse(s: &[u8]) -> (r: Result<FileHeader, DecodeError>)
        ensures
            match r {
                Ok(h) => decode_header(s@) == Ok::<_, Seq<ErrorContext>>(h),
                Err(x) => decode_header(s@) == Err::<FileHeader, _>(x.contexts@),
            },
    {
        let len = s.len();
        if len < 4 || s[0] != 0x7f || s[1] != 0x45 || s[2] != 0x4c || s[3] != 0x46 {
            return Err(DecodeError::new(Label::Magic, 0));
        }
        if len < 5 || s[4] != 2 {
            return Err(DecodeError::new(Label::Class, 4));
        }
        if len < 6 || s[5] != 1 {
            return Err(DecodeError::new(Label::Endianness, 5));
        }
        if len < 7 || s[6] != 1 {
            return Err(DecodeError::new(Label::Version, 6));
        }
        if len < 8 || (s[7] != 0 && s[7] != 3) {
            return Err(DecodeError::new(Label::OsAbi, 7));
        }
        if len < 16 {
            return Err(DecodeError::new(Label::Eof, 8));
        }
        let ty = match read_u16(s, 16) {
            None => {
                return Err(DecodeError::new(Label::Eof, 16));
            },
            Some(c) => match Type::from_u16(c) {
                None => {
                    return Err(DecodeError::new(Label::InvalidType(c), 16));
                },
                Some(t) => t,
            },
        };
        let machine = match read_u16(s, 18) {
            None => {
                return Err(DecodeError::new(Label::Eof, 18));
            },
            Some(c) => match Machine::try_from_u16(c) {
                Err(c) => {
                    return Err(DecodeError::new(Label::InvalidMachine(c), 18));
                },
                Ok(m) => m,
            },
        };
        match read_u32(s, 20) {
            None => {
                return Err(DecodeError::new(Label::Eof, 20));
            },
            Some(v) => {
                if v != 1 {
                    return Err(DecodeError::new(Label::VersionBis, 20));
                }
            },
        }
        if len < HEADER_SIZE {
            let p: usize = if len < 32 {
                24
            } else if len < 40 {
                32
            } else if len < 48 {
                40
            } else if len < 52 {
                48
            } else if len < 54 {
                52
            } else if len < 56 {
                54
            } else if len < 58 {
                56
            } else if len < 60 {
                58
            } else if len < 62 {
                60
            } else {
                62
            };
            return Err(DecodeError::new(Label::Eof, p));
        }
        Ok(
            FileHeader {
                ty,
                machine,
                entry_point: Addr::parse(s, 24).unwrap(),
                ph_offset: Addr::parse(s, 32).unwrap(),
                sh_offset: Addr::parse(s, 40).unwrap(),
                flags: read_u32(s, 48).unwrap(),
                hdr_size: read_u16(s, 52).unwrap(),
                ph_entsize: read_u16(s, 54).unwrap(),
                ph_count: read_u16(s, 56).unwrap(),
                sh_entsize: read_u16(s, 58).unwrap(),
                sh_count: read_u16(s, 60).unwrap(),
                sh_nidx: read_u16(s, 62).unwrap(),
            },
        )
    }
}

/// Decodes the `n` entries of `es` bytes of the program-header table at `off`.
fn parse_program_headers(s: &[u8], off: usize, es: usize, n: usize) -> (r: Result<
    Vec<ProgramHeader>,
    DecodeError,
>)
    requires
        off + n * es <= s@.len(),
    ensures
        match r {
            Ok(v) => decode_segments(s@, off as int, es as int, n as nat) == Ok::<_, Seq<ErrorContext>>(
                v@.map_values(|p: ProgramHeader| p@),
            ),
            Err(x) => decode_segments(s@, off as int, es as int, n as nat) == Err::<Seq<SegmentModel>, _>(
                x.contexts@,
            ),
        },
{
    let mut program_headers: Vec<ProgramHeader> = Vec::new();
    let mut i: usize = 0;
    let mut e: usize = off;
    let len = s.len();
    assert(program_headers@.map_values(|p: ProgramHeader| p@) =~= seq![]);
    while i < n
        invariant
            i <= n,
            len == s@.len(),
            e == off + i * es,
            off + n * es <= s@.len(),
            decode_segments(s@, off as int, es as int, i as nat) == Ok::<_, Seq<ErrorContext>>(
                program_headers@.map_values(|p: ProgramHeader| p@),
            ),
        decreases n - i,
    {
        assert(e + es <= off + n * es) by (nonlinear_arith)
            requires
                e == off + i * es,
                i < n,
        ;
        match ProgramHeader::parse(s, e, es) {
            Err(x) => {
                proof {
                    lemma_segments_error_stays(s@, off as int, es as int, (i + 1) as nat, n as nat);
                }
                return Err(x.wrap(Label::ProgramHeader, e));
            },
            Ok(ph) => {
                let ghost before = program_headers@;
                program_headers.push(ph);
                assert(program_headers@.map_values(|p: ProgramHeader| p@) =~= before.map_values(
                    |p: ProgramHeader| p@,
                ).push(ph@));
            },
        }
        assert(e + es == off + (i + 1) * es) by (nonlinear_arith)
            requires
                e == off + i * es,
        ;
        i = i + 1;
        e = e + es;
    }
    Ok(program_headers)
}

impl File {
    /// Decodes a whole file: the header, then each entry of the program-header
    /// table, stopping at the first failure.
    pub fn parse(s: &[u8]) -> (r: Result<File, DecodeError>)
        ensures
            match r {
                Ok(f) => decode(s@) == Ok::<_, Seq<ErrorContext>>(f@),
                Err(x) => decode(s@) == Err::<FileModel, _>(x.contexts@),
            },
    {
        let h = FileHeader::parse(s)?;
        let len = s.len();
        assert(h.ph_count as int * h.ph_entsize as int <= 0xffff * 0xffff) by (nonlinear_arith)
            requires
                h.ph_count <= 0xffff,
                h.ph_entsize <= 0xffff,
        ;
        let table: u64 = h.ph_count as u64 * h.ph_entsize as u64;
        if h.ph_offset.0 > len as u64 || (len as u64 - h.ph_offset.0) < table {
            return Err(DecodeError::new(Label::OutOfBounds, 32));
        }
        let program_headers = parse_program_headers(
            s,
            h.ph_offset.0 as usize,
            h.ph_entsize as usize,
            h.ph_count as usize,
        )?;
        Ok(File { ty: h.ty, machine: h.machine, entry_point: h.entry_point, program_headers })
    }

    /// Decodes a whole file; a failure comes back rendered as text, one line
    /// per context.
    pub fn parse_or_print_error(s: &[u8]) -> (r: Result<File, String>)
        ensures
            match r {
                Ok(f) => decode(s@) == Ok::<_, Seq<ErrorContext>>(f@),
                Err(t) => decode(s@) is Err && t@ == render(decode(s@)->Err_0, s@),
            },
    {
        match File::parse(s) {
            Ok(f) => Ok(f),
            Err(x) => Err(x.render(s)),
        }
    }
}

impl ProgramHeader {
    /// The bytes of the file that the segment is stored in.
    pub fn file_range(&self) -> (r: std::ops::Range<Addr>)
        requires
            self.offset.0 + self.filesz.0 <= u64::MAX,
        ensures
            r.start == self.offset,
            r.end.0 == self.offset.0 + self.filesz.0,
    {
        std::ops::Range { start: self.offset, end: self.offset.add(self.filesz) }
    }

    /// The addresses of memory that the segment is mapped to.
    pub fn mem_range(&self) -> (r: std::ops::Range<Addr>)
        requires
            self.vaddr.0 + self.memsz.0 <= u64::MAX,
        ensures
            r.start == self.vaddr,
            r.end.0 == self.vaddr.0 + self.memsz.0,
    {
        std::ops::Range { start: self.vaddr, end: self.vaddr.add(self.memsz) }
    }
}

/// Each decoded entry's file range lies inside the input, and its bytes are
/// the input's bytes in that range.
proof fn lemma_segments_in_bounds(s: Seq<u8>, off: int, es: int, n: nat)
    requires
        decode_segments(s, off, es, n) is Ok,
    ensures
        forall|k: int|
            0 <= k < decode_segments(s, off, es, n)->Ok_0.len() ==> {
                let m = #[trigger] decode_segments(s, off, es, n)->Ok_0[k];
                &&& m.offset.0 + m.filesz.0 <= s.len()
                &&& m.data == s.subrange(m.offset.0 as int, m.offset.0 + m.filesz.0)
            },
    decreases n,
{
    if n > 0 {
        lemma_segments_in_bounds(s, off, es, (n - 1) as nat);
    }
}

/// Every entry of a decoded file has a file range inside the input, so its
/// end does not overflow, and its bytes are the input's bytes in that range.
pub proof fn decoded_file_ranges_fit(s: Seq<u8>)
    requires
        decode(s) is Ok,
    ensures
        forall|k: int|
            0 <= k < decode(s)->Ok_0.segments.len() ==> {
                let m = #[trigger] decode(s)->Ok_0.segments[k];
                &&& m.offset.0 + m.filesz.0 <= s.len()
                &&& m.data == s.subrange(m.offset.0 as int, m.offset.0 + m.filesz.0)
            },
{
    let h = decode_header(s)->Ok_0;
    lemma_segments_in_bounds(s, h.ph_offset.0 as int, h.ph_entsize as int, h.ph_count as nat);
}

/// The first `n` entries decode to exactly `n` values, the `k`-th from the
/// `es` bytes at `off + k * es`.
proof fn lemma_segments_count(s: Seq<u8>, off: int, es: int, n: nat)
    requires
        decode_segments(s, off, es, n) is Ok,
    ensures
        decode_segments(s, off, es, n)->Ok_0.len() == n,
        forall|k: int|
            0 <= k < n ==> #[trigger] decode_segments(s, off, es, n)->Ok_0[k] == decode_segment(
                s,
                off + k * es,
                es,
            )->Ok_0,
    decreases n,
{
    if n > 0 {
        lemma_segments_count(s, off, es, (n - 1) as nat);
        let v = decode_segments(s, off, es, (n - 1) as nat)->Ok_0;
        let w = decode_segments(s, off, es, n)->Ok_0;
        assert forall|k: int| 0 <= k < n implies #[trigger] w[k] == decode_segment(
            s,
            off + k * es,
            es,
        )->Ok_0 by {
            if k < n - 1 {
                assert(w[k] == v[k]);
            }
        }
    }
}

/// A decoded file has exactly as many segments as its header declares, no
/// more and no fewer, the `k`-th decoded from the `ph_entsize` bytes at
/// `ph_offset + k * ph_entsize`.
pub proof fn decoded_segment_count(s: Seq<u8>)
    requires
        decode(s) is Ok,
    ensures
        ({
            let h = decode_header(s)->Ok_0;
            let f = decode(s)->Ok_0;
            &&& f.segments.len() == h.ph_count
            &&& forall|k: int|
                0 <= k < h.ph_count ==> #[trigger] f.segments[k] == decode_segment(
                    s,
                    h.ph_offset.0 + k * h.ph_entsize,
                    h.ph_entsize as int,
                )->Ok_0
        }),
{
    let h = decode_header(s)->Ok_0;
    lemma_segments_count(s, h.ph_offset.0 as int, h.ph_entsize as int, h.ph_count as nat);
}

/// A dynamic table in which no entry that fits before `end` has the null
/// tag fails to decode.
pub proof fn dynamic_without_null_fails(s: Seq<u8>, q: int, end: int)
    requires
        forall|p: int|
            q <= p && p + 16 <= end && (p - q) % 16 == 0 ==> #[trigger] le64(s, p) != 0,
    ensures
        decode_dynamic(s, q, end) is Err,
    decreases end - q,
{
    if q + 16 <= end {
        assert(le64(s, q) != 0);
        assert forall|p: int|
            q + 16 <= p && p + 16 <= end && (p - (q + 16)) % 16 == 0 implies #[trigger] le64(s, p)
            != 0 by {
            assert((p - q) % 16 == 0);
        }
        dynamic_without_null_fails(s, q + 16, end);
    }
}

/// A dynamic table that decodes holds no null entry, and what it decodes to
/// depends only on its bytes up to and including the null entry that ends
/// it: whatever follows that entry within `end` is ignored.
pub proof fn dynamic_ignores_bytes_after_null(s: Seq<u8>, t: Seq<u8>, q: int, end: int)
    requires
        0 <= q,
        decode_dynamic(s, q, end) is Ok,
        forall|i: int|
            q <= i < q + 16 * (decode_dynamic(s, q, end)->Ok_0.len() + 1) ==> #[trigger] t[i] == s[i],
    ensures
        decode_dynamic(t, q, end) == decode_dynamic(s, q, end),
        forall|k: int|
            0 <= k < decode_dynamic(s, q, end)->Ok_0.len() ==> #[trigger] decode_dynamic(
                s,
                q,
                end,
            )->Ok_0[k].tag != DynamicTag::Null,
    decreases end - q,
{
    let v = decode_dynamic(s, q, end)->Ok_0;
    assert(t[q] == s[q] && t[q + 1] == s[q + 1] && t[q + 2] == s[q + 2] && t[q + 3] == s[q + 3]);
    assert(t[q + 4] == s[q + 4] && t[q + 5] == s[q + 5] && t[q + 6] == s[q + 6] && t[q + 7] == s[q + 7]);
    assert(le64(t, q) == le64(s, q));
    let code = le64(s, q) as u64;
    if DynamicTag::spec_from_code(code) != Some(DynamicTag::Null) {
        let rest = decode_dynamic(s, q + 16, end)->Ok_0;
        assert(v.len() == rest.len() + 1);
        assert forall|i: int| q + 16 <= i < q + 16 + 16 * (rest.len() + 1) implies #[trigger] t[i]
            == s[i] by {
            assert(q <= i < q + 16 * (v.len() + 1));
        }
        assert(t[q + 8] == s[q + 8] && t[q + 9] == s[q + 9] && t[q + 10] == s[q + 10] && t[q + 11]
            == s[q + 11]);
        assert(t[q + 12] == s[q + 12] && t[q + 13] == s[q + 13] && t[q + 14] == s[q + 14] && t[q
            + 15] == s[q + 15]);
        assert(le64(t, q + 8) == le64(s, q + 8));
        dynamic_ignores_bytes_after_null(s, t, q + 16, end);
        assert forall|k: int| 0 <= k < v.len() implies #[trigger] v[k].tag != DynamicTag::Null by {
            if k > 0 {
                assert(v[k] == rest[k - 1]);
            }
        }
    }
}

} // verus!
