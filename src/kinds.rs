use vstd::prelude::*;

verus! {

/// The kind of binary: relocatable, executable, shared object, core dump.
#[allow(non_camel_case_types)]
#[derive(Clone, Copy, PartialEq, Eq, Debug, Structural)]
pub enum Type {
    NONE,
    REL,
    EXEC,
    DYN,
    CORE,
}

impl Type {
    /// The raw u16 code that stands for this variant in a file.
    pub open spec fn spec_code(self) -> u16 {
        match self {
            Type::NONE => 0,
            Type::REL => 1,
            Type::EXEC => 2,
            Type::DYN => 3,
            Type::CORE => 4,
        }
    }

    /// The variant that a raw code stands for, if any.
    pub open spec fn spec_from_code(x: u16) -> Option<Type> {
        if x == 0 {
            Some(Type::NONE)
        } else if x == 1 {
            Some(Type::REL)
        } else if x == 2 {
            Some(Type::EXEC)
        } else if x == 3 {
            Some(Type::DYN)
        } else if x == 4 {
            Some(Type::CORE)
        } else {
            None
        }
    }

    /// The raw code of this variant.
    pub fn code(&self) -> (r: u16)
        ensures
            r == self.spec_code(),
    {
        match self {
            Type::NONE => 0,
            Type::REL => 1,
            Type::EXEC => 2,
            Type::DYN => 3,
            Type::CORE => 4,
        }
    }

    /// Decodes a raw code; `None` for an unknown one.
    pub fn from_u16(x: u16) -> (r: Option<Type>)
        ensures
            r == Type::spec_from_code(x),
    {
        match x {
            0 => Some(Type::NONE),
            1 => Some(Type::REL),
            2 => Some(Type::EXEC),
            3 => Some(Type::DYN),
            4 => Some(Type::CORE),
            _ => None,
        }
    }
}


/// Every code that decodes re-encodes to itself, and a code that does not
/// decode is the code of no variant.
pub proof fn type_code_round_trip(x: u16)
    ensures
        match Type::spec_from_code(x) {
            Some(v) => v.spec_code() == x,
            None => forall|v: Type| v.spec_code() != x,
        },
{
}

/// Every variant decodes back from its own code.
pub proof fn type_decodes_own_code(v: Type)
    ensures
        Type::spec_from_code(v.spec_code()) == Some(v),
{
}

/// The two supported target architectures.
#[allow(non_camel_case_types)]
#[derive(Clone, Copy, PartialEq, Eq, Debug, Structural)]
pub enum Machine {
    X86,
    X86_64,
}

impl Machine {
    /// The raw u16 code that stands for this variant in a file.
    pub open spec fn spec_code(self) -> u16 {
        match self {
            Machine::X86 => 0x03,
            Machine::X86_64 => 0x3e,
        }
    }

    /// The variant that a raw code stands for, if any.
    pub open spec fn spec_from_code(x: u16) -> Option<Machine> {
        if x == 0x03 {
            Some(Machine::X86)
        } else if x == 0x3e {
            Some(Machine::X86_64)
        } else {
            None
        }
    }

    /// The raw code of this variant.
    pub fn code(&self) -> (r: u16)
        ensures
            r == self.spec_code(),
    {
        match self {
            Machine::X86 => 0x03,
            Machine::X86_64 => 0x3e,
        }
    }

    /// Decodes a raw code; an unknown code comes back as the error, unchanged.
    pub fn try_from_u16(x: u16) -> (r: Result<Machine, u16>)
        ensures
            match r {
                Ok(v) => Machine::spec_from_code(x) == Some(v),
                Err(e) => e == x && Machine::spec_from_code(x) is None,
            },
    {
        match x {
            0x03 => Ok(Machine::X86),
            0x3e => Ok(Machine::X86_64),
            _ => Err(x),
        }
    }
}


/// Every code that decodes re-encodes to itself, and a code that does not
/// decode is the code of no variant.
pub proof fn machine_code_round_trip(x: u16)
    ensures
        match Machine::spec_from_code(x) {
            Some(v) => v.spec_code() == x,
            None => forall|v: Machine| v.spec_code() != x,
        },
{
}

/// Every variant decodes back from its own code.
pub proof fn machine_decodes_own_code(v: Machine)
    ensures
        Machine::spec_from_code(v.spec_code()) == Some(v),
{
}

/// The purpose of a segment.
#[allow(non_camel_case_types)]
#[derive(Clone, Copy, PartialEq, Eq, Debug, Structural)]
pub enum SegmentType {
    NULL,
    LOAD,
    DYNAMIC,
    INTERP,
    NOTE,
    SHLIB,
    PHDR,
    LOPROC,
    HIPROC,
    EHFRAME,
    GNUSTACK,
    GNURELRO,
    GNUPROPERTY,
}

impl SegmentType {
    /// The raw u32 code that stands for this variant in a file.
    pub open spec fn spec_code(self) -> u32 {
        match self {
            SegmentType::NULL => 0x0,
            SegmentType::LOAD => 0x1,
            SegmentType::DYNAMIC => 0x2,
            SegmentType::INTERP => 0x3,
            SegmentType::NOTE => 0x4,
            SegmentType::SHLIB => 0x5,
            SegmentType::PHDR => 0x6,
            SegmentType::LOPROC => 0x7,
            SegmentType::HIPROC => 0x8,
            SegmentType::EHFRAME => 0x6474e550,
            SegmentType::GNUSTACK => 0x6474e551,
            SegmentType::GNURELRO => 0x6474e552,
            SegmentType::GNUPROPERTY => 0x6474e553,
        }
    }

    /// The variant that a raw code stands for, if any.
    pub open spec fn spec_from_code(x: u32) -> Option<SegmentType> {
        if x == 0x0 {
            Some(SegmentType::NULL)
        } else if x == 0x1 {
            Some(SegmentType::LOAD)
        } else if x == 0x2 {
            Some(SegmentType::DYNAMIC)
        } else if x == 0x3 {
            Some(SegmentType::INTERP)
        } else if x == 0x4 {
            Some(SegmentType::NOTE)
        } else if x == 0x5 {
            Some(SegmentType::SHLIB)
        } else if x == 0x6 {
            Some(SegmentType::PHDR)
        } else if x == 0x7 {
            Some(SegmentType::LOPROC)
        } else if x == 0x8 {
            Some(SegmentType::HIPROC)
        } else if x == 0x6474e550 {
            Some(SegmentType::EHFRAME)
        } else if x == 0x6474e551 {
            Some(SegmentType::GNUSTACK)
        } else if x == 0x6474e552 {
            Some(SegmentType::GNURELRO)
        } else if x == 0x6474e553 {
            Some(SegmentType::GNUPROPERTY)
        } else {
            None
        }
    }

    /// The raw code of this variant.
    pub fn code(&self) -> (r: u32)
        ensures
            r == self.spec_code(),
    {
        match self {
            SegmentType::NULL => 0x0,
            SegmentType::LOAD => 0x1,
            SegmentType::DYNAMIC => 0x2,
            SegmentType::INTERP => 0x3,
            SegmentType::NOTE => 0x4,
            SegmentType::SHLIB => 0x5,
            SegmentType::PHDR => 0x6,
            SegmentType::LOPROC => 0x7,
            SegmentType::HIPROC => 0x8,
            SegmentType::EHFRAME => 0x6474e550,
            SegmentType::GNUSTACK => 0x6474e551,
            SegmentType::GNURELRO => 0x6474e552,
            SegmentType::GNUPROPERTY => 0x6474e553,
        }
    }

    /// Decodes a raw code; an unknown code comes back as the error, unchanged.
    pub fn try_from_u32(x: u32) -> (r: Result<SegmentType, u32>)
        ensures
            match r {
                Ok(v) => SegmentType::spec_from_code(x) == Some(v),
                Err(e) => e == x && SegmentType::spec_from_code(x) is None,
            },
    {
        match x {
            0x0 => Ok(SegmentType::NULL),
            0x1 => Ok(SegmentType::LOAD),
            0x2 => Ok(SegmentType::DYNAMIC),
            0x3 => Ok(SegmentType::INTERP),
            0x4 => Ok(SegmentType::NOTE),
            0x5 => Ok(SegmentType::SHLIB),
            0x6 => Ok(SegmentType::PHDR),
            0x7 => Ok(SegmentType::LOPROC),
            0x8 => Ok(SegmentType::HIPROC),
            0x6474e550 => Ok(SegmentType::EHFRAME),
            0x6474e551 => Ok(SegmentType::GNUSTACK),
            0x6474e552 => Ok(SegmentType::GNURELRO),
            0x6474e553 => Ok(SegmentType::GNUPROPERTY),
            _ => Err(x),
        }
    }
}


/// Every code that decodes re-encodes to itself, and a code that does not
/// decode is the code of no variant.
pub proof fn segment_type_code_round_trip(x: u32)
    ensures
        match SegmentType::spec_from_code(x) {
            Some(v) => v.spec_code() == x,
            None => forall|v: SegmentType| v.spec_code() != x,
        },
{
}

/// Every variant decodes back from its own code.
pub proof fn segment_type_decodes_own_code(v: SegmentType)
    ensures
        SegmentType::spec_from_code(v.spec_code()) == Some(v),
{
}

/// The tag of an entry in a dynamic segment.
#[allow(non_camel_case_types)]
#[derive(Clone, Copy, PartialEq, Eq, Debug, Structural)]
pub enum DynamicTag {
    Null,
    Needed,
    PltRelSz,
    PltGot,
    Hash,
    StrTab,
    SymTab,
    Rela,
    RelaSz,
    RelaEnt,
    StrSz,
    SymEnt,
    Init,
    Fini,
    SoName,
    RPath,
    Symbolic,
    Rel,
    RelSz,
    RelEnt,
    PltRel,
    Debug,
    TextRel,
    JmpRel,
    BindNow,
    InitArray,
    FiniArray,
    InitArraySz,
    FiniArraySz,
    Flags,
    LoOs,
    VerSym,
    VerNeeded,
    HiOs,
    LoProc,
    HiProc,
    GnuHash,
    Flags1,
    RelACount,
}

impl DynamicTag {
    /// The raw u64 code that stands for this variant in a file.
    pub open spec fn spec_code(self) -> u64 {
        match self {
            DynamicTag::Null => 0,
            DynamicTag::Needed => 1,
            DynamicTag::PltRelSz => 2,
            DynamicTag::PltGot => 3,
            DynamicTag::Hash => 4,
            DynamicTag::StrTab => 5,
            DynamicTag::SymTab => 6,
            DynamicTag::Rela => 7,
            DynamicTag::RelaSz => 8,
            DynamicTag::RelaEnt => 9,
            DynamicTag::StrSz => 10,
            DynamicTag::SymEnt => 11,
            DynamicTag::Init => 12,
            DynamicTag::Fini => 13,
            DynamicTag::SoName => 14,
            DynamicTag::RPath => 15,
            DynamicTag::Symbolic => 16,
            DynamicTag::Rel => 17,
            DynamicTag::RelSz => 18,
            DynamicTag::RelEnt => 19,
            DynamicTag::PltRel => 20,
            DynamicTag::Debug => 21,
            DynamicTag::TextRel => 22,
            DynamicTag::JmpRel => 23,
            DynamicTag::BindNow => 24,
            DynamicTag::InitArray => 25,
            DynamicTag::FiniArray => 26,
            DynamicTag::InitArraySz => 27,
            DynamicTag::FiniArraySz => 28,
            DynamicTag::Flags => 30,
            DynamicTag::LoOs => 0x60000000,
            DynamicTag::VerSym => 0x6ffffff0,
            DynamicTag::VerNeeded => 0x6ffffffe,
            DynamicTag::HiOs => 0x6fffffff,
            DynamicTag::LoProc => 0x70000000,
            DynamicTag::HiProc => 0x7fffffff,
            DynamicTag::GnuHash => 0x6ffffef5,
            DynamicTag::Flags1 => 0x6ffffffb,
            DynamicTag::RelACount => 0x6ffffff9,
        }
    }

    /// The variant that a raw code stands for, if any.
    pub open spec fn spec_from_code(x: u64) -> Option<DynamicTag> {
        if x == 0 {
            Some(DynamicTag::Null)
        } else if x == 1 {
            Some(DynamicTag::Needed)
        } else if x == 2 {
            Some(DynamicTag::PltRelSz)
        } else if x == 3 {
            Some(DynamicTag::PltGot)
        } else if x == 4 {
            Some(DynamicTag::Hash)
        } else if x == 5 {
            Some(DynamicTag::StrTab)
        } else if x == 6 {
            Some(DynamicTag::SymTab)
        } else if x == 7 {
            Some(DynamicTag::Rela)
        } else if x == 8 {
            Some(DynamicTag::RelaSz)
        } else if x == 9 {
            Some(DynamicTag::RelaEnt)
        } else if x == 10 {
            Some(DynamicTag::StrSz)
        } else if x == 11 {
            Some(DynamicTag::SymEnt)
        } else if x == 12 {
            Some(DynamicTag::Init)
        } else if x == 13 {
            Some(DynamicTag::Fini)
        } else if x == 14 {
            Some(DynamicTag::SoName)
        } else if x == 15 {
            Some(DynamicTag::RPath)
        } else if x == 16 {
            Some(DynamicTag::Symbolic)
        } else if x == 17 {
            Some(DynamicTag::Rel)
        } else if x == 18 {
            Some(DynamicTag::RelSz)
        } else if x == 19 {
            Some(DynamicTag::RelEnt)
        } else if x == 20 {
            Some(DynamicTag::PltRel)
        } else if x == 21 {
            Some(DynamicTag::Debug)
        } else if x == 22 {
            Some(DynamicTag::TextRel)
        } else if x == 23 {
            Some(DynamicTag::JmpRel)
        } else if x == 24 {
            Some(DynamicTag::BindNow)
        } else if x == 25 {
            Some(DynamicTag::InitArray)
        } else if x == 26 {
            Some(DynamicTag::FiniArray)
        } else if x == 27 {
            Some(DynamicTag::InitArraySz)
        } else if x == 28 {
            Some(DynamicTag::FiniArraySz)
        } else if x == 30 {
            Some(DynamicTag::Flags)
        } else if x == 0x60000000 {
            Some(DynamicTag::LoOs)
        } else if x == 0x6ffffff0 {
            Some(DynamicTag::VerSym)
        } else if x == 0x6ffffffe {
            Some(DynamicTag::VerNeeded)
        } else if x == 0x6fffffff {
            Some(DynamicTag::HiOs)
        } else if x == 0x70000000 {
            Some(DynamicTag::LoProc)
        } else if x == 0x7fffffff {
            Some(DynamicTag::HiProc)
        } else if x == 0x6ffffef5 {
            Some(DynamicTag::GnuHash)
        } else if x == 0x6ffffffb {
            Some(DynamicTag::Flags1)
        } else if x == 0x6ffffff9 {
            Some(DynamicTag::RelACount)
        } else {
            None
        }
    }

    /// The raw code of this variant.
    pub fn code(&self) -> (r: u64)
        ensures
            r == self.spec_code(),
    {
        match self {
            DynamicTag::Null => 0,
            DynamicTag::Needed => 1,
            DynamicTag::PltRelSz => 2,
            DynamicTag::PltGot => 3,
            DynamicTag::Hash => 4,
            DynamicTag::StrTab => 5,
            DynamicTag::SymTab => 6,
            DynamicTag::Rela => 7,
            DynamicTag::RelaSz => 8,
            DynamicTag::RelaEnt => 9,
            DynamicTag::StrSz => 10,
            DynamicTag::SymEnt => 11,
            DynamicTag::Init => 12,
            DynamicTag::Fini => 13,
            DynamicTag::SoName => 14,
            DynamicTag::RPath => 15,
            DynamicTag::Symbolic => 16,
            DynamicTag::Rel => 17,
            DynamicTag::RelSz => 18,
            DynamicTag::RelEnt => 19,
            DynamicTag::PltRel => 20,
            DynamicTag::Debug => 21,
            DynamicTag::TextRel => 22,
            DynamicTag::JmpRel => 23,
            DynamicTag::BindNow => 24,
            DynamicTag::InitArray => 25,
            DynamicTag::FiniArray => 26,
            DynamicTag::InitArraySz => 27,
            DynamicTag::FiniArraySz => 28,
            DynamicTag::Flags => 30,
            DynamicTag::LoOs => 0x60000000,
            DynamicTag::VerSym => 0x6ffffff0,
            DynamicTag::VerNeeded => 0x6ffffffe,
            DynamicTag::HiOs => 0x6fffffff,
            DynamicTag::LoProc => 0x70000000,
            DynamicTag::HiProc => 0x7fffffff,
            DynamicTag::GnuHash => 0x6ffffef5,
            DynamicTag::Flags1 => 0x6ffffffb,
            DynamicTag::RelACount => 0x6ffffff9,
        }
    }

    /// Decodes a raw code; an unknown code comes back as the error, unchanged.
    pub fn try_from_u64(x: u64) -> (r: Result<DynamicTag, u64>)
        ensures
            match r {
                Ok(v) => DynamicTag::spec_from_code(x) == Some(v),
                Err(e) => e == x && DynamicTag::spec_from_code(x) is None,
            },
    {
        match x {
            0 => Ok(DynamicTag::Null),
            1 => Ok(DynamicTag::Needed),
            2 => Ok(DynamicTag::PltRelSz),
            3 => Ok(DynamicTag::PltGot),
            4 => Ok(DynamicTag::Hash),
            5 => Ok(DynamicTag::StrTab),
            6 => Ok(DynamicTag::SymTab),
            7 => Ok(DynamicTag::Rela),
            8 => Ok(DynamicTag::RelaSz),
            9 => Ok(DynamicTag::RelaEnt),
            10 => Ok(DynamicTag::StrSz),
            11 => Ok(DynamicTag::SymEnt),
            12 => Ok(DynamicTag::Init),
            13 => Ok(DynamicTag::Fini),
            14 => Ok(DynamicTag::SoName),
            15 => Ok(DynamicTag::RPath),
            16 => Ok(DynamicTag::Symbolic),
            17 => Ok(DynamicTag::Rel),
            18 => Ok(DynamicTag::RelSz),
            19 => Ok(DynamicTag::RelEnt),
            20 => Ok(DynamicTag::PltRel),
            21 => Ok(DynamicTag::Debug),
            22 => Ok(DynamicTag::TextRel),
            23 => Ok(DynamicTag::JmpRel),
            24 => Ok(DynamicTag::BindNow),
            25 => Ok(DynamicTag::InitArray),
            26 => Ok(DynamicTag::FiniArray),
            27 => Ok(DynamicTag::InitArraySz),
            28 => Ok(DynamicTag::FiniArraySz),
            30 => Ok(DynamicTag::Flags),
            0x60000000 => Ok(DynamicTag::LoOs),
            0x6ffffff0 => Ok(DynamicTag::VerSym),
            0x6ffffffe => Ok(DynamicTag::VerNeeded),
            0x6fffffff => Ok(DynamicTag::HiOs),
            0x70000000 => Ok(DynamicTag::LoProc),
            0x7fffffff => Ok(DynamicTag::HiProc),
            0x6ffffef5 => Ok(DynamicTag::GnuHash),
            0x6ffffffb => Ok(DynamicTag::Flags1),
            0x6ffffff9 => Ok(DynamicTag::RelACount),
            _ => Err(x),
        }
    }
}


/// Every code that decodes re-encodes to itself, and a code that does not
/// decode is the code of no variant.
pub proof fn dynamic_tag_code_round_trip(x: u64)
    ensures
        match DynamicTag::spec_from_code(x) {
            Some(v) => v.spec_code() == x,
            None => forall|v: DynamicTag| v.spec_code() != x,
        },
{
}

/// Every variant decodes back from its own code.
pub proof fn dynamic_tag_decodes_own_code(v: DynamicTag)
    ensures
        DynamicTag::spec_from_code(v.spec_code()) == Some(v),
{
}


/// One permission bit of a segment.
#[derive(Clone, Copy, PartialEq, Eq, Debug, Structural)]
pub enum SegmentFlag {
    Execute,
    Write,
    Read,
}

impl SegmentFlag {
    /// The bit that stands for this permission.
    pub open spec fn spec_bit(self) -> u32 {
        match self {
            SegmentFlag::Execute => 0x1,
            SegmentFlag::Write => 0x2,
            SegmentFlag::Read => 0x4,
        }
    }

    /// The bit that stands for this permission.
    pub fn bit(&self) -> (r: u32)
        ensures
            r == self.spec_bit(),
    {
        match self {
            SegmentFlag::Execute => 0x1,
            SegmentFlag::Write => 0x2,
            SegmentFlag::Read => 0x4,
        }
    }
}

/// The set of permissions of a segment.
#[derive(Clone, Copy, PartialEq, Eq, Debug, Structural)]
pub struct SegmentFlags {
    pub execute: bool,
    pub write: bool,
    pub read: bool,
}

impl SegmentFlags {
    /// The raw 32-bit encoding of the set.
    pub open spec fn spec_bits(self) -> u32 {
        ((if self.execute { 1int } else { 0 }) + (if self.write { 2int } else { 0 }) + (
        if self.read {
            4int
        } else {
            0
        })) as u32
    }

    /// The set that a raw flag word stands for, if it holds no unknown bit.
    pub open spec fn spec_from_bits(x: u32) -> Option<SegmentFlags> {
        if x < 8 {
            Some(SegmentFlags { execute: x % 2 == 1, write: (x / 2) % 2 == 1, read: x / 4 == 1 })
        } else {
            None
        }
    }

    /// Whether `flag` belongs to the set.
    pub open spec fn spec_contains(self, flag: SegmentFlag) -> bool {
        match flag {
            SegmentFlag::Execute => self.execute,
            SegmentFlag::Write => self.write,
            SegmentFlag::Read => self.read,
        }
    }

    /// Decodes a raw 32-bit flag word. Any bit other than the three known ones
    /// makes it fail, and the error is the raw word.
    pub fn from_bits(x: u32) -> (r: Result<SegmentFlags, u32>)
        ensures
            r is Ok <==> x < 8,
            r matches Ok(f) ==> f.spec_bits() == x && SegmentFlags::spec_from_bits(x) == Some(f),
            r matches Err(e) ==> e == x,
    {
        if x >= 8 {
            Err(x)
        } else {
            Ok(SegmentFlags { execute: x % 2 == 1, write: (x / 2) % 2 == 1, read: x / 4 == 1 })
        }
    }

    /// The raw 32-bit encoding of the set.
    pub fn bits(&self) -> (r: u32)
        ensures
            r == self.spec_bits(),
    {
        let e: u32 = if self.execute { 1 } else { 0 };
        let w: u32 = if self.write { 2 } else { 0 };
        let rd: u32 = if self.read { 4 } else { 0 };
        e + w + rd
    }

    /// The empty set.
    pub fn empty() -> (r: SegmentFlags)
        ensures
            r.spec_bits() == 0,
            !r.execute && !r.write && !r.read,
    {
        SegmentFlags { execute: false, write: false, read: false }
    }

    /// The set that holds `flag` alone.
    pub fn of(flag: SegmentFlag) -> (r: SegmentFlags)
        ensures
            forall|g: SegmentFlag| r.spec_contains(g) <==> g == flag,
            r.spec_bits() == flag.spec_bit(),
    {
        match flag {
            SegmentFlag::Execute => SegmentFlags { execute: true, write: false, read: false },
            SegmentFlag::Write => SegmentFlags { execute: false, write: true, read: false },
            SegmentFlag::Read => SegmentFlags { execute: false, write: false, read: true },
        }
    }

    /// The union of two sets.
    pub fn union(self, other: SegmentFlags) -> (r: SegmentFlags)
        ensures
            r.execute == (self.execute || other.execute),
            r.write == (self.write || other.write),
            r.read == (self.read || other.read),
    {
        SegmentFlags {
            execute: self.execute || other.execute,
            write: self.write || other.write,
            read: self.read || other.read,
        }
    }

    /// Whether `flag` belongs to the set.
    pub fn contains(&self, flag: SegmentFlag) -> (r: bool)
        ensures
            r == self.spec_contains(flag),
    {
        match flag {
            SegmentFlag::Execute => self.execute,
            SegmentFlag::Write => self.write,
            SegmentFlag::Read => self.read,
        }
    }

    /// The set drawn as three letters, `R`, `W`, `X`, with `.` for each
    /// permission that is missing.
    pub fn letters(&self) -> (r: [char; 3])
        ensures
            r@ == seq![
                if self.read { 'R' } else { '.' },
                if self.write { 'W' } else { '.' },
                if self.execute { 'X' } else { '.' },
            ],
    {
        let r = if self.read { 'R' } else { '.' };
        let w = if self.write { 'W' } else { '.' };
        let x = if self.execute { 'X' } else { '.' };
        let out = [r, w, x];
        assert(out@ =~= seq![r, w, x]);
        out
    }
}

/// Every set encodes to a word that decodes, and two sets with the same
/// encoding are the same set: decoding then encoding gives back the word.
pub proof fn flags_round_trip(f: SegmentFlags, g: SegmentFlags)
    ensures
        f.spec_bits() < 8,
        f.spec_bits() == g.spec_bits() ==> f == g,
{
}

} // verus!
