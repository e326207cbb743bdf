use vstd::prelude::*;

use crate::error::{DecodeError, ErrorContext, Label};

verus! {

/// How many bytes of the input a rendered context shows.
pub const PREVIEW_LEN: usize = 20;

/// The name under which a label is shown.
pub open spec fn label_text(l: Label) -> Seq<char> {
    match l {
        Label::Eof => seq!['E', 'o', 'f'],
        Label::Magic => seq!['M', 'a', 'g', 'i', 'c'],
        Label::Class => seq!['C', 'l', 'a', 's', 's'],
        Label::Endianness => seq!['E', 'n', 'd', 'i', 'a', 'n', 'n', 'e', 's', 's'],
        Label::Version => seq!['V', 'e', 'r', 's', 'i', 'o', 'n'],
        Label::OsAbi => seq!['O', 's', 'A', 'b', 'i'],
        Label::VersionBis => seq!['V', 'e', 'r', 's', 'i', 'o', 'n', 'B', 'i', 's'],
        Label::InvalidType(_) => seq!['I', 'n', 'v', 'a', 'l', 'i', 'd', 'T', 'y', 'p', 'e'],
        Label::InvalidMachine(_) => seq!['I', 'n', 'v', 'a', 'l', 'i', 'd', 'M', 'a', 'c', 'h', 'i', 'n', 'e'],
        Label::InvalidSegmentType(_) => seq!['I', 'n', 'v', 'a', 'l', 'i', 'd', 'S', 'e', 'g', 'm', 'e', 'n', 't', 'T', 'y', 'p', 'e'],
        Label::InvalidSegmentFlags(_) => seq!['I', 'n', 'v', 'a', 'l', 'i', 'd', 'S', 'e', 'g', 'm', 'e', 'n', 't', 'F', 'l', 'a', 'g', 's'],
        Label::InvalidDynamicTag(_) => seq!['I', 'n', 'v', 'a', 'l', 'i', 'd', 'D', 'y', 'n', 'a', 'm', 'i', 'c', 'T', 'a', 'g'],
        Label::OutOfBounds => seq!['O', 'u', 't', 'O', 'f', 'B', 'o', 'u', 'n', 'd', 's'],
        Label::Unterminated => seq!['U', 'n', 't', 'e', 'r', 'm', 'i', 'n', 'a', 't', 'e', 'd'],
        Label::ProgramHeader => seq!['P', 'r', 'o', 'g', 'r', 'a', 'm', 'H', 'e', 'a', 'd', 'e', 'r'],
        Label::DynamicTable => seq!['D', 'y', 'n', 'a', 'm', 'i', 'c', 'T', 'a', 'b', 'l', 'e'],
    }
}

/// The lowercase hexadecimal digits.
pub open spec fn hex_digits() -> Seq<char> {
    seq!['0', '1', '2', '3', '4', '5', '6', '7', '8', '9', 'a', 'b', 'c', 'd', 'e', 'f']
}

/// A byte as two hexadecimal digits and a space.
pub open spec fn hex_byte(b: u8) -> Seq<char> {
    seq![hex_digits()[(b / 16) as int], hex_digits()[(b % 16) as int], ' ']
}

/// Every byte of `s` as two hexadecimal digits and a space.
pub open spec fn hex_dump(s: Seq<u8>) -> Seq<char>
    decreases s.len(),
{
    if s.len() == 0 {
        seq![]
    } else {
        hex_dump(s.drop_last()) + hex_byte(s.last())
    }
}

/// The bytes of `s` that a context at `pos` shows: at most twenty, from `pos`.
pub open spec fn preview(s: Seq<u8>, pos: int) -> Seq<u8> {
    let start = if pos < s.len() { pos } else { s.len() as int };
    let end = if start + 20 < s.len() { start + 20 } else { s.len() as int };
    s.subrange(start, end)
}

/// One line of a rendered failure: the label, then the bytes it is about.
pub open spec fn context_line(c: ErrorContext, s: Seq<u8>) -> Seq<char> {
    label_text(c.label) + seq![' ', 'a', 't', ':', ' '] + hex_dump(preview(s, c.pos as int)) + seq!['\n']
}

/// A failure rendered against the input it came from, one line per context.
pub open spec fn render(cs: Seq<ErrorContext>, s: Seq<u8>) -> Seq<char>
    decreases cs.len(),
{
    if cs.len() == 0 {
        seq![]
    } else {
        render(cs.drop_last(), s) + context_line(cs.last(), s)
    }
}

fn label_chars(l: Label) -> (r: Vec<char>)
    ensures
        r@ == label_text(l),
{
    match l {
        Label::Eof => vec!['E', 'o', 'f'],
        Label::Magic => vec!['M', 'a', 'g', 'i', 'c'],
        Label::Class => vec!['C', 'l', 'a', 's', 's'],
        Label::Endianness => vec!['E', 'n', 'd', 'i', 'a', 'n', 'n', 'e', 's', 's'],
        Label::Version => vec!['V', 'e', 'r', 's', 'i', 'o', 'n'],
        Label::OsAbi => vec!['O', 's', 'A', 'b', 'i'],
        Label::VersionBis => vec!['V', 'e', 'r', 's', 'i', 'o', 'n', 'B', 'i', 's'],
        Label::InvalidType(_) => vec!['I', 'n', 'v', 'a', 'l', 'i', 'd', 'T', 'y', 'p', 'e'],
        Label::InvalidMachine(_) => vec!['I', 'n', 'v', 'a', 'l', 'i', 'd', 'M', 'a', 'c', 'h', 'i', 'n', 'e'],
        Label::InvalidSegmentType(_) => vec!['I', 'n', 'v', 'a', 'l', 'i', 'd', 'S', 'e', 'g', 'm', 'e', 'n', 't', 'T', 'y', 'p', 'e'],
        Label::InvalidSegmentFlags(_) => vec!['I', 'n', 'v', 'a', 'l', 'i', 'd', 'S', 'e', 'g', 'm', 'e', 'n', 't', 'F', 'l', 'a', 'g', 's'],
        Label::InvalidDynamicTag(_) => vec!['I', 'n', 'v', 'a', 'l', 'i', 'd', 'D', 'y', 'n', 'a', 'm', 'i', 'c', 'T', 'a', 'g'],
        Label::OutOfBounds => vec!['O', 'u', 't', 'O', 'f', 'B', 'o', 'u', 'n', 'd', 's'],
        Label::Unterminated => vec!['U', 'n', 't', 'e', 'r', 'm', 'i', 'n', 'a', 't', 'e', 'd'],
        Label::ProgramHeader => vec!['P', 'r', 'o', 'g', 'r', 'a', 'm', 'H', 'e', 'a', 'd', 'e', 'r'],
        Label::DynamicTable => vec!['D', 'y', 'n', 'a', 'm', 'i', 'c', 'T', 'a', 'b', 'l', 'e'],
    }
}

fn push_all(out: &mut Vec<char>, v: &Vec<char>)
    ensures
        final(out)@ == old(out)@ + v@,
{
    let mut i: usize = 0;
    while i < v.len()
        invariant
            i <= v@.len(),
            out@ == old(out)@ + v@.subrange(0, i as int),
        decreases v@.len() - i,
    {
        out.push(v[i]);
        i = i + 1;
        assert(v@.subrange(0, i as int) =~= v@.subrange(0, i - 1) .push(v@[i - 1]));
    }
    assert(v@.subrange(0, i as int) =~= v@);
}

fn push_hex_byte(out: &mut Vec<char>, b: u8)
    ensures
        final(out)@ == old(out)@ + hex_byte(b),
{
    let digits = ['0', '1', '2', '3', '4', '5', '6', '7', '8', '9', 'a', 'b', 'c', 'd', 'e', 'f'];
    assert(digits@ =~= hex_digits());
    out.push(digits[(b / 16) as usize]);
    out.push(digits[(b % 16) as usize]);
    out.push(' ');
    assert(final(out)@ =~= old(out)@ + hex_byte(b));
}

fn push_hex_dump(out: &mut Vec<char>, s: &[u8], start: usize, end: usize)
    requires
        start <= end <= s@.len(),
    ensures
        final(out)@ == old(out)@ + hex_dump(s@.subrange(start as int, end as int)),
{
    let ghost before = out@;
    let mut k: usize = start;
    assert(s@.subrange(start as int, k as int) =~= seq![]);
    assert(out@ =~= before + seq![]);
    while k < end
        invariant
            start <= k <= end <= s@.len(),
            out@ == before + hex_dump(s@.subrange(start as int, k as int)),
        decreases end - k,
    {
        push_hex_byte(out, s[k]);
        assert(s@.subrange(start as int, k + 1).drop_last() =~= s@.subrange(start as int, k as int));
        k = k + 1;
    }
}

/// A view of some bytes that renders as hexadecimal.
pub struct HexDump<'a>(pub &'a [u8]);

impl<'a> HexDump<'a> {
    /// The first twenty bytes (or fewer, if there are fewer), each as two
    /// lowercase hexadecimal digits followed by a space.
    pub fn text(&self) -> (r: String)
        ensures
            r@ == hex_dump(preview(self.0@, 0)),
    {
        let len = self.0.len();
        let end = if len > PREVIEW_LEN { PREVIEW_LEN } else { len };
        assert(preview(self.0@, 0) =~= self.0@.subrange(0, end as int));
        let mut out: Vec<char> = Vec::new();
        push_hex_dump(&mut out, self.0, 0, end);
        assert(out@ =~= hex_dump(preview(self.0@, 0)));
        text_of(out)
    }
}

fn push_context(out: &mut Vec<char>, c: ErrorContext, s: &[u8])
    ensures
        final(out)@ == old(out)@ + context_line(c, s@),
{
    let ghost start_out = out@;
    push_all(out, &label_chars(c.label));
    push_all(out, &vec![' ', 'a', 't', ':', ' ']);
    let len = s.len();
    let start = if c.pos < len { c.pos } else { len };
    let end = if len - start > PREVIEW_LEN { start + PREVIEW_LEN } else { len };
    assert(preview(s@, c.pos as int) =~= s@.subrange(start as int, end as int));
    push_hex_dump(out, s, start, end);
    out.push('\n');
    assert(out@ =~= start_out + context_line(c, s@));
}

impl DecodeError {
    /// The failure rendered against the input it came from: for each context,
    /// innermost first, a line with its label and up to twenty bytes of the
    /// input from its position, in hexadecimal.
    pub fn render(&self, s: &[u8]) -> (r: String)
        ensures
            r@ == render(self.contexts@, s@),
    {
        let mut out: Vec<char> = Vec::new();
        let mut i: usize = 0;
        while i < self.contexts.len()
            invariant
                i <= self.contexts@.len(),
                out@ == render(self.contexts@.subrange(0, i as int), s@),
            decreases self.contexts@.len() - i,
        {
            push_context(&mut out, self.contexts[i], s);
            assert(self.contexts@.subrange(0, i + 1).drop_last() =~= self.contexts@.subrange(0, i as int));
            i = i + 1;
        }
        assert(self.contexts@.subrange(0, i as int) =~= self.contexts@);
        text_of(out)
    }
}

/// Relies on `String::from_iter` over `char`s: the string holds those
/// characters, in order.
#[verifier::external_body]
fn text_of(v: Vec<char>) -> (r: String)
    ensures
        r@ == v@,
{
    String::from_iter(v)
}

} // verus!
