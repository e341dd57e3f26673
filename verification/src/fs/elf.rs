//! ELF loading: the entry point of a binary and the segments to map.
use vstd::prelude::*;

verus! {

/// The error of the ELF parser.
#[verifier::external_type_specification]
#[verifier::external_body]
pub struct ExElfError(goblin::error::Error);

/// What `goblin::elf::Elf::parse` finds in `data`, when it accepts it: the
/// entry point, and each program header as (type, physical address, virtual
/// address, size in memory), in table order.
pub uninterp spec fn elf_parse(data: Seq<u8>) -> Option<(u64, Seq<(u32, u64, u64, u64)>)>;

/// `goblin::elf::Elf::parse`: accepts or refuses `data` as a function of its
/// bytes alone; when it accepts, the entry point and the program headers are
/// handed back as that named result.
#[verifier::external_body]
fn parse_elf(data: &[u8]) -> (r: Result<(u64, Vec<(u32, u64, u64, u64)>), goblin::error::Error>)
    ensures
        r is Ok <==> elf_parse(data@) is Some,
        r matches Ok((entry, headers)) ==> elf_parse(data@) == Some((entry, headers@)),
{
    let elf = goblin::elf::Elf::parse(data)?;
    let headers = elf.program_headers.iter().map(|ph| (ph.p_type, ph.p_paddr, ph.p_vaddr, ph.p_memsz)).collect();
    Ok((elf.entry, headers))
}

/// Program header type of a loadable segment.
pub const PT_LOAD: u32 = 1;

/// A segment to map: from its physical to its virtual address.
#[derive(Debug, Clone, Copy, PartialEq, Eq, Structural)]
pub struct Segment {
    /// Physical address.
    pub paddr: u64,
    /// Virtual address.
    pub vaddr: u64,
    /// Size in memory.
    pub memsz: u64,
}

/// The loadable segments among program headers, in table order.
pub open spec fn loadable_spec(headers: Seq<(u32, u64, u64, u64)>) -> Seq<Segment>
    decreases headers.len(),
{
    if headers.len() == 0 {
        Seq::empty()
    } else {
        let before = loadable_spec(headers.drop_last());
        let h = headers.last();
        if h.0 == PT_LOAD {
            before.push(Segment { paddr: h.1, vaddr: h.2, memsz: h.3 })
        } else {
            before
        }
    }
}

/// The segment a program header describes.
pub open spec fn segment_of(h: (u32, u64, u64, u64)) -> Segment {
    Segment { paddr: h.1, vaddr: h.2, memsz: h.3 }
}

/// The program headers of type `PT_LOAD` (1), in table order.
pub open spec fn pt_load_headers(headers: Seq<(u32, u64, u64, u64)>) -> Seq<(u32, u64, u64, u64)> {
    headers.filter(|h: (u32, u64, u64, u64)| h.0 == 1u32)
}

/// The segments that headers describe, one per header, in order.
pub open spec fn segments_of(headers: Seq<(u32, u64, u64, u64)>) -> Seq<Segment> {
    headers.map_values(|h: (u32, u64, u64, u64)| segment_of(h))
}

/// The loadable segments are exactly the headers of type `PT_LOAD` (1), each
/// turned into its segment, in table order: no other header type is taken,
/// and no `PT_LOAD` header is left out.
pub proof fn lemma_loadable_are_pt_load(headers: Seq<(u32, u64, u64, u64)>)
    ensures
        loadable_spec(headers) == segments_of(pt_load_headers(headers)),
    decreases headers.len(),
{
    reveal(Seq::filter);
    if headers.len() > 0 {
        let rest = headers.drop_last();
        lemma_loadable_are_pt_load(rest);
        let sub = pt_load_headers(rest);
        if headers.last().0 == 1u32 {
            assert(pt_load_headers(headers) == sub.push(headers.last()));
            assert(segments_of(sub.push(headers.last())) =~= segments_of(sub).push(
                segment_of(headers.last()),
            ));
        } else {
            assert(pt_load_headers(headers) == sub);
        }
    } else {
        assert(pt_load_headers(headers) =~= Seq::<(u32, u64, u64, u64)>::empty());
        assert(segments_of(pt_load_headers(headers)) =~= Seq::<Segment>::empty());
    }
}

/// The loadable segments among program headers, in table order.
pub fn loadable_segments(headers: &Vec<(u32, u64, u64, u64)>) -> (v: Vec<Segment>)
    ensures
        v@ == loadable_spec(headers@),
{
    let mut v: Vec<Segment> = Vec::new();
    let mut i: usize = 0;
    while i < headers.len()
        invariant
            i <= headers@.len(),
            v@ == loadable_spec(headers@.subrange(0, i as int)),
        decreases headers@.len() - i,
    {
        assert(headers@.subrange(0, i + 1).drop_last() =~= headers@.subrange(0, i as int));
        let (p_type, paddr, vaddr, memsz) = headers[i];
        if p_type == PT_LOAD {
            v.push(Segment { paddr, vaddr, memsz });
        }
        i += 1;
    }
    assert(headers@.subrange(0, headers@.len() as int) =~= headers@);
    v
}

/// The message of a refused binary.
pub open spec fn parse_failure() -> Seq<char> {
    "Failed to parse ELF binary"@
}

/// The entry point and loadable segments of a binary, or the parse failure.
pub fn load_elf_image(data: &[u8]) -> (r: Result<(u64, Vec<Segment>), &'static str>)
    ensures
        elf_parse(data@) is None ==> (r matches Err(m) && m@ == parse_failure()),
        elf_parse(data@) matches Some((entry, headers)) ==> (r matches Ok((e, segs)) && e == entry
            && segs@ == loadable_spec(headers)),
{
    match parse_elf(data) {
        Ok((entry, headers)) => Ok((entry, loadable_segments(&headers))),
        Err(_) => Err("Failed to parse ELF binary"),
    }
}

/// Loads an ELF binary and returns its entry point, or the parse failure.
pub fn load_elf(data: &[u8]) -> (r: Result<u64, &'static str>)
    ensures
        elf_parse(data@) is None ==> (r matches Err(m) && m@ == parse_failure()),
        elf_parse(data@) matches Some((entry, headers)) ==> r == Ok::<u64, &'static str>(entry),
{
    match load_elf_image(data) {
        Ok((entry, _)) => Ok(entry),
        Err(m) => Err(m),
    }
}

} // verus!
