//! A model of the parts of a PE image that this library reads: the optional
//! header's image base and the section table. Parsing is delegated to an
//! outside parser; locating a named section and slicing out its content are
//! verified here, over the reported table.

use vstd::prelude::*;
use vstd::slice::{slice_subrange, slice_to_vec};

verus! {

/// One row of a PE image's section table, as plain values.
#[derive(Clone, Copy)]
pub struct SectionHeader {
    /// The section's name, padded with zero bytes to eight bytes.
    pub name: [u8; 8],
    pub virtual_size: u32,
    pub virtual_address: u32,
    pub size_of_raw_data: u32,
    pub pointer_to_raw_data: u32,
}

/// What the PE parser reports of an image: the optional header's image base,
/// when that header is present, and the section table in file order.
pub struct PeInfo {
    pub image_base: Option<u64>,
    pub sections: Vec<SectionHeader>,
}

/// What `goblin::pe::PE::parse` reports on given bytes: `None` where the
/// bytes are not a well-formed PE image.
pub uninterp spec fn pe_info_of(bytes: Seq<u8>) -> Option<PeInfo>;

/// Relies on goblin::pe::PE::parse: the image base and the section table it
/// reports are a function of the input bytes alone.
#[verifier::external_body]
pub(crate) fn parse_pe(bytes: &[u8]) -> (r: Option<PeInfo>)
    ensures
        r == pe_info_of(bytes@),
{
    let pe = match goblin::pe::PE::parse(bytes) {
        Ok(pe) => pe,
        Err(_) => return None,
    };
    let sections = pe.sections.iter().map(|s| SectionHeader {
        name: s.name,
        virtual_size: s.virtual_size,
        virtual_address: s.virtual_address,
        size_of_raw_data: s.size_of_raw_data,
        pointer_to_raw_data: s.pointer_to_raw_data,
    }).collect();
    let image_base = pe.header.optional_header.map(|h| h.windows_fields.image_base);
    Some(PeInfo { image_base, sections })
}

/// Whether an eight-byte section-table name cell holds exactly this name:
/// the name's bytes, padded with zero bytes.
pub open spec fn spec_name_matches(raw: Seq<u8>, name: Seq<u8>) -> bool {
    &&& name.len() <= 8
    &&& raw.len() == 8
    &&& forall|i: int|
        0 <= i < 8 ==> raw[i] == (if i < name.len() {
            name[i]
        } else {
            0u8
        })
}

/// The first section of the table whose name cell holds `name`.
pub open spec fn spec_find_section(sections: Seq<SectionHeader>, name: Seq<u8>) -> Option<
    SectionHeader,
>
    decreases sections.len(),
{
    if sections.len() == 0 {
        None
    } else if spec_name_matches(sections[0].name@, name) {
        Some(sections[0])
    } else {
        spec_find_section(sections.skip(1), name)
    }
}

/// A section's embedded content: `virtual_size` bytes at the section's file
/// offset, or nothing where that range runs past the image.
pub open spec fn spec_section_bytes(pe: Seq<u8>, h: SectionHeader) -> Option<Seq<u8>> {
    if h.pointer_to_raw_data + h.virtual_size <= pe.len() {
        Some(pe.subrange(h.pointer_to_raw_data as int, h.pointer_to_raw_data + h.virtual_size))
    } else {
        None
    }
}

/// The content of the named section of an image with section table `info`.
pub open spec fn spec_pe_section(info: PeInfo, pe: Seq<u8>, name: Seq<u8>) -> Option<Seq<u8>> {
    match spec_find_section(info.sections@, name) {
        None => None,
        Some(h) => spec_section_bytes(pe, h),
    }
}

fn name_matches(raw: &[u8; 8], name: &[u8]) -> (r: bool)
    ensures
        r == spec_name_matches(raw@, name@),
{
    let name_len = name.len();
    if name_len > 8 {
        return false;
    }
    let mut i: usize = 0;
    while i < 8
        invariant
            0 <= i <= 8,
            name_len == name@.len() <= 8,
            raw@.len() == 8,
            forall|j: int|
                0 <= j < i ==> raw@[j] == (if j < name@.len() {
                    name@[j]
                } else {
                    0u8
                }),
        decreases 8 - i,
    {
        let expected: u8 = if i < name_len {
            name[i]
        } else {
            0
        };
        if raw[i] != expected {
            return false;
        }
        i += 1;
    }
    true
}

fn find_section(sections: &Vec<SectionHeader>, name: &[u8]) -> (r: Option<SectionHeader>)
    ensures
        r == spec_find_section(sections@, name@),
{
    let n = sections.len();
    let mut i: usize = 0;
    proof {
        assert(sections@.skip(0) =~= sections@);
    }
    while i < n
        invariant
            0 <= i <= n,
            n == sections@.len(),
            spec_find_section(sections@, name@) == spec_find_section(
                sections@.skip(i as int),
                name@,
            ),
        decreases n - i,
    {
        proof {
            assert(sections@.skip(i as int)[0] == sections@[i as int]);
            assert(sections@.skip(i as int).skip(1) =~= sections@.skip(i + 1));
        }
        if name_matches(&sections[i].name, name) {
            return Some(sections[i]);
        }
        i += 1;
    }
    proof {
        assert(sections@.skip(n as int).len() == 0);
    }
    None
}

/// Locate the named section of a PE image and return its embedded content:
/// the boot-time extractor's one way of reading the image that carries it.
pub fn pe_section(pe_data: &[u8], name: &[u8]) -> (r: Option<Vec<u8>>)
    ensures
        r matches Some(v) ==> pe_info_of(pe_data@) matches Some(info) && spec_pe_section(
            info,
            pe_data@,
            name@,
        ) == Some(v@),
        r is None ==> (pe_info_of(pe_data@) matches Some(info) ==> spec_pe_section(
            info,
            pe_data@,
            name@,
        ) is None),
{
    let info = match parse_pe(pe_data) {
        Some(info) => info,
        None => {
            return None;
        },
    };
    let h = match find_section(&info.sections, name) {
        Some(h) => h,
        None => {
            return None;
        },
    };
    let start = h.pointer_to_raw_data as usize;
    let size = h.virtual_size as usize;
    if size <= pe_data.len() && start <= pe_data.len() - size {
        let content = slice_subrange(pe_data, start, start + size);
        Some(slice_to_vec(content))
    } else {
        None
    }
}

} // verus!
