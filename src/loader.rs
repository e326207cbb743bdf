use vstd::prelude::*;

use crate::elf::{File, ProgramHeader, SegmentModel};
use crate::kinds::{SegmentFlags, SegmentType};

verus! {

/// Rounds an address down to the start of its 4 KiB page.
pub fn align_lo(x: usize) -> (r: usize)
    ensures
        r == x - x % 4096,
{
    let r = x & !0xFFFusize;
    assert(x & !0xFFFusize == x - x % 4096) by (bit_vector);
    r
}

/// Where and how one segment is mapped into memory.
#[derive(Clone, Copy, PartialEq, Eq, Debug, Structural)]
pub struct SegmentMapping {
    /// Position of the segment in the file's program-header table.
    pub index: usize,
    /// Page-aligned start of the mapping.
    pub start: usize,
    /// Bytes between the start of the mapping and the segment's first byte;
    /// the segment's file bytes are copied to `start + padding`.
    pub padding: usize,
    /// Length of the mapping: the segment's memory size plus the padding.
    pub len: usize,
    /// Permissions the mapping gets once its bytes are in place.
    pub protection: SegmentFlags,
}

/// Why a file cannot be loaded.
#[derive(Clone, Copy, PartialEq, Eq, Debug, Structural)]
pub enum LoadError {
    /// The segment at this index would reach past the end of the address space.
    AddressOverflow(usize),
    /// The segment at this index has more file bytes than memory.
    FileLargerThanMemory(usize),
    /// Mapping memory for the segment at this index was refused.
    MapFailed(usize),
    /// Changing the permissions of the segment at this index was refused.
    ProtectFailed(usize),
}

/// A segment is mapped when it is loadable and takes up some memory.
pub open spec fn is_mapped(p: SegmentModel) -> bool {
    p.kind == SegmentType::LOAD && p.memsz.0 > 0
}

/// The mapping of segment `p`, found at `index`, for an image based at `base`.
pub open spec fn mapping_for(p: SegmentModel, index: int, base: int) -> Result<
    SegmentMapping,
    LoadError,
> {
    let at = base + p.vaddr.0;
    if at + p.memsz.0 > usize::MAX {
        Err(LoadError::AddressOverflow(index as usize))
    } else if p.data.len() > p.memsz.0 {
        Err(LoadError::FileLargerThanMemory(index as usize))
    } else {
        Ok(
            SegmentMapping {
                index: index as usize,
                start: (at - at % 4096) as usize,
                padding: (at % 4096) as usize,
                len: (p.memsz.0 + at % 4096) as usize,
                protection: p.flags,
            },
        )
    }
}

/// The mappings of the first `n` segments, in order, or the first failure.
pub open spec fn load_plan(segs: Seq<SegmentModel>, base: int, n: nat) -> Result<
    Seq<SegmentMapping>,
    LoadError,
>
    decreases n,
{
    if n == 0 {
        Ok(seq![])
    } else {
        match load_plan(segs, base, (n - 1) as nat) {
            Err(x) => Err(x),
            Ok(v) => if !is_mapped(segs[n - 1]) {
                Ok(v)
            } else {
                match mapping_for(segs[n - 1], n - 1, base) {
                    Ok(m) => Ok(v.push(m)),
                    Err(x) => Err(x),
                }
            },
        }
    }
}

/// The mapping of one segment: page-aligned, long enough for the padding and
/// the segment's memory, with the file bytes landing at the segment's own
/// unaligned address inside it.
pub proof fn mapping_geometry(p: SegmentModel, index: int, base: int)
    requires
        0 <= base,
        mapping_for(p, index, base) is Ok,
    ensures
        ({
            let m = mapping_for(p, index, base)->Ok_0;
            &&& m.start % 4096 == 0
            &&& m.padding < 4096
            &&& m.start + m.padding == base + p.vaddr.0
            &&& m.len == p.memsz.0 + m.padding
            &&& m.padding + p.data.len() <= m.len
            &&& m.start + m.len <= usize::MAX
        }),
{
}

/// Every mapping of a plan belongs to a mapped segment and has the geometry
/// of `mapping_for`.
pub proof fn plan_mappings_fit(segs: Seq<SegmentModel>, base: int, n: nat)
    requires
        n <= segs.len() <= usize::MAX,
        load_plan(segs, base, n) is Ok,
    ensures
        forall|k: int|
            0 <= k < load_plan(segs, base, n)->Ok_0.len() ==> {
                let m = #[trigger] load_plan(segs, base, n)->Ok_0[k];
                &&& 0 <= m.index < n
                &&& is_mapped(segs[m.index as int])
                &&& mapping_for(segs[m.index as int], m.index as int, base) == Ok::<_, LoadError>(m)
            },
    decreases n,
{
    if n > 0 {
        plan_mappings_fit(segs, base, (n - 1) as nat);
        let v = load_plan(segs, base, (n - 1) as nat)->Ok_0;
        let w = load_plan(segs, base, n)->Ok_0;
        assert forall|k: int| 0 <= k < w.len() implies {
            let m = #[trigger] w[k];
            &&& 0 <= m.index < n
            &&& is_mapped(segs[m.index as int])
            &&& mapping_for(segs[m.index as int], m.index as int, base) == Ok::<_, LoadError>(m)
        } by {
            if k < v.len() {
                assert(w[k] == v[k]);
            }
        }
    }
}

/// The mapping of one segment for an image based at `base`.
fn plan_segment(ph: &ProgramHeader, index: usize, base: usize) -> (r: Result<
    SegmentMapping,
    LoadError,
>)
    ensures
        r == mapping_for(ph@, index as int, base as int),
{
    let room = (usize::MAX - base) as u64;
    if ph.vaddr.0 > room || ph.memsz.0 > room - ph.vaddr.0 {
        return Err(LoadError::AddressOverflow(index));
    }
    if ph.data.len() as u64 > ph.memsz.0 {
        return Err(LoadError::FileLargerThanMemory(index));
    }
    let at = base + ph.vaddr.0 as usize;
    let start = align_lo(at);
    let padding = at - start;
    Ok(
        SegmentMapping {
            index,
            start,
            padding,
            len: ph.memsz.0 as usize + padding,
            protection: ph.flags,
        },
    )
}

/// Plans the mappings of a file's loadable segments for an image based at
/// `base`: one for each segment of kind LOAD that takes up memory, in table
/// order, or the first segment that cannot be mapped.
pub fn plan_load(file: &File, base: usize) -> (r: Result<Vec<SegmentMapping>, LoadError>)
    ensures
        match r {
            Ok(v) => load_plan(file@.segments, base as int, file@.segments.len()) == Ok::<
                _,
                LoadError,
            >(v@),
            Err(x) => load_plan(file@.segments, base as int, file@.segments.len()) == Err::<
                Seq<SegmentMapping>,
                _,
            >(x),
        },
{
    let mut plan: Vec<SegmentMapping> = Vec::new();
    let mut i: usize = 0;
    let n = file.program_headers.len();
    while i < n
        invariant
            i <= n,
            n == file@.segments.len(),
            load_plan(file@.segments, base as int, i as nat) == Ok::<_, LoadError>(plan@),
        decreases n - i,
    {
        let ph = &file.program_headers[i];
        assert(ph@ == file@.segments[i as int]);
        if ph.kind == SegmentType::LOAD && ph.memsz.0 > 0 {
            match plan_segment(ph, i, base) {
                Ok(m) => {
                    plan.push(m);
                },
                Err(x) => {
                    proof {
                        lemma_plan_error_stays(file@.segments, base as int, (i + 1) as nat, n as nat);
                    }
                    return Err(x);
                },
            }
        }
        i = i + 1;
    }
    Ok(plan)
}

/// Once the first `m` segments fail to plan, so do the first `n`, with the same error.
proof fn lemma_plan_error_stays(segs: Seq<SegmentModel>, base: int, m: nat, n: nat)
    requires
        m <= n,
        load_plan(segs, base, m) is Err,
    ensures
        load_plan(segs, base, n) == load_plan(segs, base, m),
    decreases n,
{
    if n > m {
        lemma_plan_error_stays(segs, base, m, (n - 1) as nat);
    }
}

} // verus!
