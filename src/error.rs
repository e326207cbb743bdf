use vstd::prelude::*;

verus! {

/// What went wrong, or which layer of the decoder saw a failure pass through.
#[derive(Clone, Copy, PartialEq, Eq, Debug, Structural)]
pub enum Label {
    /// The input ended inside a field.
    Eof,
    Magic,
    Class,
    Endianness,
    Version,
    OsAbi,
    /// The 32-bit version word of the header is not 1.
    VersionBis,
    InvalidType(u16),
    InvalidMachine(u16),
    InvalidSegmentType(u32),
    InvalidSegmentFlags(u32),
    InvalidDynamicTag(u64),
    /// An offset or a size points past the end of the input.
    OutOfBounds,
    /// A dynamic table ends without its null entry.
    Unterminated,
    /// Outer layer: decoding the program-header entry that starts here failed.
    ProgramHeader,
    /// Outer layer: decoding the dynamic table that starts here failed.
    DynamicTable,
}

/// One layer of a decode failure: a label and the position in the input of
/// the bytes it is about.
#[derive(Clone, Copy, PartialEq, Eq, Debug, Structural)]
pub struct ErrorContext {
    pub label: Label,
    pub pos: usize,
}

/// A decode failure: the innermost context first, then one context for each
/// enclosing layer that the failure passed through.
#[derive(Debug)]
pub struct DecodeError {
    pub contexts: Vec<ErrorContext>,
}

/// The chain of a failure first seen at `pos` with `label`.
pub open spec fn fail_at(label: Label, pos: int) -> Seq<ErrorContext> {
    seq![ErrorContext { label, pos: pos as usize }]
}

/// `e` passed up through a layer labelled `label` at `pos`.
pub open spec fn wrap_at(e: Seq<ErrorContext>, label: Label, pos: int) -> Seq<ErrorContext> {
    e.push(ErrorContext { label, pos: pos as usize })
}

impl DecodeError {
    /// A failure seen first at `pos`.
    pub fn new(label: Label, pos: usize) -> (r: DecodeError)
        ensures
            r.contexts@ == fail_at(label, pos as int),
    {
        DecodeError { contexts: vec![ErrorContext { label, pos }] }
    }

    /// Adds the context of an enclosing layer.
    pub fn wrap(self, label: Label, pos: usize) -> (r: DecodeError)
        ensures
            r.contexts@ == wrap_at(self.contexts@, label, pos as int),
    {
        let mut contexts = self.contexts;
        contexts.push(ErrorContext { label, pos });
        DecodeError { contexts }
    }
}

} // verus!
