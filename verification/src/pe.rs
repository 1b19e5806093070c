//! Build-time planning of the PE sections that carry a boot configuration
//! inside a stub binary: where each section lands (cumulative virtual
//! offsets after the stub's own last section), what each will hold, and the
//! objcopy arguments that a binary-rewriting step executes.

use vstd::prelude::*;
use vstd::string::StrSliceExecFns;
use vstd::string::StringExecFns;
use vstd::string::StringSliceAdditionalSpecFns;

use crate::hexfmt::{hex_string, push_char, spec_hex_digits};
use crate::pe_image::{parse_pe, pe_info_of, PeInfo};

verus! {

/// Why a section layout could not be planned over a stub binary.
#[derive(Debug, Clone, Copy, PartialEq, Eq, Structural)]
pub enum LayoutError {
    /// The stub bytes are not a well-formed PE image.
    NotPe,
    /// The PE image has no optional header, so no image base.
    NoOptionalHeader,
    /// The PE image has no sections to append after.
    NoSections,
    /// An offset does not fit in 64 bits.
    OffsetOverflow,
}

/// Where new sections of a parsed stub begin: the last existing section's
/// end (virtual address plus virtual size) plus the image base.
pub open spec fn spec_stub_offset(info: PeInfo) -> Result<u64, LayoutError> {
    match info.image_base {
        None => Err(LayoutError::NoOptionalHeader),
        Some(base) => {
            if info.sections@.len() == 0 {
                Err(LayoutError::NoSections)
            } else {
                let last = info.sections@.last();
                let end = last.virtual_address + last.virtual_size + base;
                if end <= u64::MAX {
                    Ok(end as u64)
                } else {
                    Err(LayoutError::OffsetOverflow)
                }
            }
        },
    }
}

/// The result of `stub_offset` on given stub bytes.
pub open spec fn spec_stub_offset_of(bytes: Seq<u8>) -> Result<u64, LayoutError> {
    match pe_info_of(bytes) {
        None => Err(LayoutError::NotPe),
        Some(info) => spec_stub_offset(info),
    }
}

/// The virtual address at which new sections of this stub binary begin.
pub fn stub_offset(binary: &[u8]) -> (r: Result<u64, LayoutError>)
    ensures
        r == spec_stub_offset_of(binary@),
{
    let info = match parse_pe(binary) {
        Some(info) => info,
        None => {
            return Err(LayoutError::NotPe);
        },
    };
    let base = match info.image_base {
        Some(b) => b,
        None => {
            return Err(LayoutError::NoOptionalHeader);
        },
    };
    let n = info.sections.len();
    if n == 0 {
        return Err(LayoutError::NoSections);
    }
    let last = &info.sections[n - 1];
    let end_rel: u64 = last.virtual_address as u64 + last.virtual_size as u64;
    if end_rel <= u64::MAX - base {
        Ok(end_rel + base)
    } else {
        Err(LayoutError::OffsetOverflow)
    }
}

/// The sum of the first `i` of the given byte sizes.
pub open spec fn spec_size_sum(sizes: Seq<u64>, i: int) -> int
    decreases i,
{
    if i <= 0 {
        0
    } else {
        spec_size_sum(sizes, i - 1) + sizes[i - 1]
    }
}

/// The planner's arithmetic: the offset of the i-th value to embed is the
/// start plus the sizes of all values before it.
pub open spec fn spec_offset_at(start: u64, sizes: Seq<u64>, i: int) -> int {
    start + spec_size_sum(sizes, i)
}

/// Offset monotonicity: each planned offset equals the previous offset plus
/// the previous value's byte size; where that value is not empty the offsets
/// are strictly increasing.
pub proof fn lemma_offset_monotonicity(start: u64, sizes: Seq<u64>, i: int)
    requires
        1 <= i <= sizes.len(),
    ensures
        spec_offset_at(start, sizes, i) == spec_offset_at(start, sizes, i - 1) + sizes[i - 1],
        sizes[i - 1] > 0 ==> spec_offset_at(start, sizes, i) > spec_offset_at(start, sizes, i - 1),
{
}

/// Planned sections do not overlap the stub's existing sections: where the
/// table's last section ends highest — the layout convention the planner
/// relies on, stated here as a hypothesis — every offset planned from the
/// stub's own start lies at or beyond every existing section's end, virtual
/// addresses taken with the image base.
pub proof fn lemma_no_overlap_with_existing(
    info: PeInfo,
    start: u64,
    sizes: Seq<u64>,
    i: int,
    j: int,
)
    requires
        spec_stub_offset(info) == Ok::<u64, LayoutError>(start),
        forall|k: int|
            0 <= k < info.sections@.len() ==> (#[trigger] info.sections@[k]).virtual_address
                + info.sections@[k].virtual_size <= info.sections@.last().virtual_address
                + info.sections@.last().virtual_size,
        0 <= i <= sizes.len(),
        0 <= j < info.sections@.len(),
    ensures
        spec_offset_at(start, sizes, i) >= info.image_base->0 + info.sections@[j].virtual_address
            + info.sections@[j].virtual_size,
{
    lemma_size_sum_monotonic(sizes, 0, i);
}

/// Compute the cumulative offsets for embedding values of the given byte
/// sizes after `start`: the first value at `start`, each following one at
/// the previous offset plus the previous value's size.
pub fn plan_offsets(start: u64, sizes: &Vec<u64>) -> (r: Result<Vec<u64>, LayoutError>)
    ensures
        r matches Ok(offs) ==> {
            &&& offs@.len() == sizes@.len()
            &&& forall|i: int|
                0 <= i < sizes@.len() ==> offs@[i] == spec_offset_at(start, sizes@, i)
            &&& spec_offset_at(start, sizes@, sizes@.len() as int) <= u64::MAX
        },
        r is Err ==> r == Err::<Vec<u64>, LayoutError>(LayoutError::OffsetOverflow)
            && spec_offset_at(start, sizes@, sizes@.len() as int) > u64::MAX,
{
    let n = sizes.len();
    let mut offs: Vec<u64> = Vec::new();
    let mut cur: u64 = start;
    let mut i: usize = 0;
    while i < n
        invariant
            0 <= i <= n,
            n == sizes@.len(),
            offs@.len() == i,
            cur == spec_offset_at(start, sizes@, i as int),
            forall|j: int| 0 <= j < i ==> offs@[j] == spec_offset_at(start, sizes@, j),
        decreases n - i,
    {
        offs.push(cur);
        let size = sizes[i];
        if size > u64::MAX - cur {
            proof {
                lemma_size_sum_monotonic(sizes@, i + 1, n as int);
            }
            return Err(LayoutError::OffsetOverflow);
        }
        cur = cur + size;
        i += 1;
    }
    Ok(offs)
}

/// Partial size sums grow with their index.
proof fn lemma_size_sum_monotonic(sizes: Seq<u64>, i: int, j: int)
    requires
        0 <= i <= j <= sizes.len(),
    ensures
        spec_size_sum(sizes, i) <= spec_size_sum(sizes, j),
    decreases j - i,
{
    if i < j {
        lemma_size_sum_monotonic(sizes, i, j - 1);
    }
}

/// One planned PE section: its name, the file whose bytes it will carry,
/// and its absolute virtual address.
pub struct Section {
    /// A fixed-width ASCII identifier, at most eight bytes by PE convention.
    pub name: String,
    /// The file whose content the section will hold.
    pub file_path: String,
    /// The absolute virtual address assigned by the planner.
    pub offset: u64,
}

impl Section {
    /// The `--add-section` argument: `name=file`.
    pub open spec fn spec_add_arg(&self) -> Seq<char> {
        self.name@ + "="@ + self.file_path@
    }

    /// The `--change-section-vma` argument: `name=0x<offset in hex>`.
    pub open spec fn spec_vma_arg(&self) -> Seq<char> {
        self.name@ + "=0x"@ + spec_hex_digits(self.offset as nat)
    }

    /// The four objcopy arguments that insert this one section.
    pub fn to_objcopy(&self) -> (r: Vec<String>)
        ensures
            r@.len() == 4,
            r@[0]@ == "--add-section"@,
            r@[1]@ == self.spec_add_arg(),
            r@[2]@ == "--change-section-vma"@,
            r@[3]@ == self.spec_vma_arg(),
    {
        let mut add = self.name.clone();
        add.append("=");
        add.append(self.file_path.as_str());
        let mut vma = self.name.clone();
        vma.append("=0x");
        let hex = hex_string(self.offset);
        vma.append(hex.as_str());
        let mut r: Vec<String> = Vec::new();
        r.push(String::from_str("--add-section"));
        r.push(add);
        r.push(String::from_str("--change-section-vma"));
        r.push(vma);
        r
    }
}

/// Builder for a planned section.
pub fn s(name: &str, file_path: &str, offset: u64) -> (r: Section)
    ensures
        r.name@ == name@,
        r.file_path@ == file_path@,
        r.offset == offset,
{
    Section { name: String::from_str(name), file_path: String::from_str(file_path), offset }
}

/// Whether the four arguments of the j-th section stand correctly in the
/// argument list.
pub open spec fn spec_args_block_ok(r: Seq<String>, sections: Seq<Section>, j: int) -> bool {
    &&& r[4 * j]@ == "--add-section"@
    &&& r[4 * j + 1]@ == sections[j].spec_add_arg()
    &&& r[4 * j + 2]@ == "--change-section-vma"@
    &&& r[4 * j + 3]@ == sections[j].spec_vma_arg()
}

/// The whole objcopy invocation for a plan: each section's four arguments in
/// order, then the stub path and the output path.
pub fn objcopy_args(sections: &Vec<Section>, stub: &str, output: &str) -> (r: Vec<String>)
    ensures
        r@.len() == 4 * sections@.len() + 2,
        forall|i: int| 0 <= i < sections@.len() ==> #[trigger] spec_args_block_ok(r@, sections@, i),
        r@[r@.len() - 2]@ == stub@,
        r@[r@.len() - 1]@ == output@,
{
    let n = sections.len();
    let mut r: Vec<String> = Vec::new();
    let mut i: usize = 0;
    while i < n
        invariant
            0 <= i <= n,
            n == sections@.len(),
            r@.len() == 4 * i,
            forall|j: int| 0 <= j < i ==> #[trigger] spec_args_block_ok(r@, sections@, j),
        decreases n - i,
    {
        let mut args = sections[i].to_objcopy();
        let ghost prev = r@;
        let ghost new = args@;
        r.append(&mut args);
        proof {
            assert forall|j: int| 0 <= j < i + 1 implies #[trigger] spec_args_block_ok(
                r@,
                sections@,
                j,
            ) by {
                if j < i {
                    assert(spec_args_block_ok(prev, sections@, j));
                    assert(r@[4 * j] == prev[4 * j]);
                    assert(r@[4 * j + 1] == prev[4 * j + 1]);
                    assert(r@[4 * j + 2] == prev[4 * j + 2]);
                    assert(r@[4 * j + 3] == prev[4 * j + 3]);
                } else {
                    assert(r@[4 * j] == new[0]);
                    assert(r@[4 * j + 1] == new[1]);
                    assert(r@[4 * j + 2] == new[2]);
                    assert(r@[4 * j + 3] == new[3]);
                }
            }
        }
        i += 1;
    }
    let ghost body = r@;
    r.push(String::from_str(stub));
    r.push(String::from_str(output));
    proof {
        assert forall|j: int| 0 <= j < sections@.len() implies #[trigger] spec_args_block_ok(
            r@,
            sections@,
            j,
        ) by {
            assert(spec_args_block_ok(body, sections@, j));
            assert(r@[4 * j] == body[4 * j]);
            assert(r@[4 * j + 1] == body[4 * j + 1]);
            assert(r@[4 * j + 2] == body[4 * j + 2]);
            assert(r@[4 * j + 3] == body[4 * j + 3]);
        }
    }
    r
}

/// A path with every `/` replaced by `\`.
pub open spec fn spec_backslashed(p: Seq<char>) -> Seq<char> {
    p.map_values(
        |c: char|
            if c == '/' {
                '\\'
            } else {
                c
            },
    )
}

/// Whether `esp` is a usable mount prefix of `path`: a literal prefix that
/// ends at a component boundary.
pub open spec fn is_esp_prefix(esp: Seq<char>, path: Seq<char>) -> bool {
    &&& esp.len() <= path.len()
    &&& path.subrange(0, esp.len() as int) == esp
    &&& (esp.len() == path.len() || path[esp.len() as int] == '/' || (esp.len() > 0 && esp.last()
        == '/'))
}

/// A source path as the stub will read it: the ESP mount prefix stripped,
/// `/` replaced by `\`, and a single leading backslash.
pub open spec fn spec_esp_relative(esp: Seq<char>, path: Seq<char>) -> Seq<char> {
    let stripped = path.skip(esp.len() as int);
    let rel = if stripped.len() > 0 && stripped[0] == '/' {
        stripped.skip(1)
    } else {
        stripped
    };
    seq!['\\'] + spec_backslashed(rel)
}

/// Derive the ESP-root-relative, backslash-separated form of a source path.
pub fn esp_relative_path_string(esp: &str, path: &str) -> (r: String)
    requires
        is_esp_prefix(esp@, path@),
    ensures
        r@ == spec_esp_relative(esp@, path@),
{
    let esp_len = esp.unicode_len();
    let path_len = path.unicode_len();
    let start = if esp_len < path_len && path.get_char(esp_len) == '/' {
        esp_len + 1
    } else {
        esp_len
    };
    let mut out = String::new();
    push_char(&mut out, '\\');
    let mut i = start;
    while i < path_len
        invariant
            start <= i <= path_len,
            path_len == path@.len(),
            out@ == seq!['\\'] + spec_backslashed(path@.subrange(start as int, i as int)),
        decreases path_len - i,
    {
        let c = path.get_char(i);
        let mapped = if c == '/' {
            '\\'
        } else {
            c
        };
        push_char(&mut out, mapped);
        proof {
            assert(path@.subrange(start as int, i + 1) =~= path@.subrange(
                start as int,
                i as int,
            ).push(path@[i as int]));
            assert(spec_backslashed(path@.subrange(start as int, i + 1)) =~= spec_backslashed(
                path@.subrange(start as int, i as int),
            ).push(mapped));
            assert(out@ =~= seq!['\\'] + spec_backslashed(path@.subrange(start as int, i + 1)));
        }
        i += 1;
    }
    proof {
        let stripped = path@.skip(esp@.len() as int);
        if stripped.len() > 0 && stripped[0] == '/' {
            assert(path@.subrange(start as int, path_len as int) =~= stripped.skip(1));
        } else {
            assert(path@.subrange(start as int, path_len as int) =~= stripped);
        }
    }
    out
}

/// The command-line tokens joined with single spaces.
pub open spec fn spec_join_spaces(items: Seq<Seq<char>>) -> Seq<char>
    decreases items.len(),
{
    if items.len() == 0 {
        Seq::empty()
    } else if items.len() == 1 {
        items[0]
    } else {
        spec_join_spaces(items.drop_last()) + " "@ + items.last()
    }
}

/// Join command-line tokens with single spaces.
pub fn join_spaces(items: &Vec<String>) -> (r: String)
    ensures
        r@ == spec_join_spaces(items.deep_view()),
{
    let n = items.len();
    let mut out = String::new();
    let mut i: usize = 0;
    proof {
        assert(items.deep_view().len() == n);
        assert(items.deep_view().subrange(0, 0) =~= Seq::<Seq<char>>::empty());
    }
    while i < n
        invariant
            0 <= i <= n,
            n == items@.len(),
            items.deep_view().len() == n,
            forall|j: int| 0 <= j < n ==> items.deep_view()[j] == items@[j]@,
            out@ == spec_join_spaces(items.deep_view().subrange(0, i as int)),
        decreases n - i,
    {
        if i > 0 {
            out.append(" ");
        }
        out.append(items[i].as_str());
        proof {
            let dv = items.deep_view();
            let prefix = dv.subrange(0, i + 1);
            assert(prefix.drop_last() =~= dv.subrange(0, i as int));
            assert(prefix.last() == dv[i as int]);
            if i == 0 {
                assert(out@ =~= spec_join_spaces(prefix));
            }
        }
        i += 1;
    }
    proof {
        assert(items.deep_view().subrange(0, n as int) =~= items.deep_view());
    }
    out
}

/// The planned embedding of a boot configuration into a stub: the four
/// sections to insert, and the derived contents that the caller must write
/// to the planned intermediate files before executing the plan.
pub struct StubSectionPlan {
    /// `.osrel`, `.cmdline`, `.initrdp` and `.kernelp`, in that order.
    pub sections: Vec<Section>,
    /// What the `.cmdline` intermediate file must hold.
    pub cmdline_contents: String,
    /// What the `.initrdp` intermediate file must hold.
    pub initrd_path_contents: String,
    /// What the `.kernelp` intermediate file must hold.
    pub kernel_path_contents: String,
}

/// Plan the four configuration sections of a bootable stub image.
///
/// `stub` holds the bytes of the stub binary; `os_release` names the file
/// whose bytes the `.osrel` section will carry and `os_release_size` is that
/// file's size in bytes; `cmdline_file`, `initrd_path_file` and
/// `kernel_path_file` name the intermediate files that will carry the other
/// three values, which the caller writes with the returned contents.
pub fn lanzaboote_image(
    stub: &[u8],
    os_release: &str,
    os_release_size: u64,
    kernel_cmdline: &Vec<String>,
    kernel_path: &str,
    initrd_path: &str,
    esp: &str,
    cmdline_file: &str,
    initrd_path_file: &str,
    kernel_path_file: &str,
) -> (r: Result<StubSectionPlan, LayoutError>)
    requires
        is_esp_prefix(esp@, kernel_path@),
        is_esp_prefix(esp@, initrd_path@),
    ensures
        r matches Ok(plan) ==> {
            &&& spec_stub_offset_of(stub@) matches Ok(start)
            &&& plan.cmdline_contents@ == spec_join_spaces(kernel_cmdline.deep_view())
            &&& plan.initrd_path_contents@ == spec_esp_relative(esp@, initrd_path@)
            &&& plan.kernel_path_contents@ == spec_esp_relative(esp@, kernel_path@)
            &&& plan.sections@.len() == 4
            &&& plan.sections@[0].name@ == ".osrel"@
            &&& plan.sections@[1].name@ == ".cmdline"@
            &&& plan.sections@[2].name@ == ".initrdp"@
            &&& plan.sections@[3].name@ == ".kernelp"@
            &&& plan.sections@[0].file_path@ == os_release@
            &&& plan.sections@[1].file_path@ == cmdline_file@
            &&& plan.sections@[2].file_path@ == initrd_path_file@
            &&& plan.sections@[3].file_path@ == kernel_path_file@
            &&& plan.sections@[0].offset == spec_stub_offset_of(stub@).unwrap()
            &&& plan.sections@[1].offset == plan.sections@[0].offset + os_release_size
            &&& plan.sections@[2].offset == plan.sections@[1].offset + vstd::utf8::encode_utf8(
                plan.cmdline_contents@,
            ).len()
            &&& plan.sections@[3].offset == plan.sections@[2].offset + vstd::utf8::encode_utf8(
                plan.initrd_path_contents@,
            ).len()
        },
        r is Ok <==> (spec_stub_offset_of(stub@) matches Ok(start) && start + os_release_size
            + vstd::utf8::encode_utf8(spec_join_spaces(kernel_cmdline.deep_view())).len()
            + vstd::utf8::encode_utf8(spec_esp_relative(esp@, initrd_path@)).len() <= u64::MAX),
        spec_stub_offset_of(stub@) matches Err(e) ==> r == Err::<StubSectionPlan, LayoutError>(e),
        (r is Err && spec_stub_offset_of(stub@) is Ok) ==> r == Err::<StubSectionPlan, LayoutError>(
            LayoutError::OffsetOverflow,
        ),
{
    let start = match stub_offset(stub) {
        Ok(o) => o,
        Err(e) => {
            return Err(e);
        },
    };
    let cmdline_contents = join_spaces(kernel_cmdline);
    let initrd_path_contents = esp_relative_path_string(esp, initrd_path);
    let kernel_path_contents = esp_relative_path_string(esp, kernel_path);

    let os_release_offs = start;
    if os_release_size > u64::MAX - os_release_offs {
        return Err(LayoutError::OffsetOverflow);
    }
    let kernel_cmdline_offs = os_release_offs + os_release_size;
    let cmdline_len = cmdline_contents.as_str().as_bytes().len() as u64;
    if cmdline_len > u64::MAX - kernel_cmdline_offs {
        return Err(LayoutError::OffsetOverflow);
    }
    let initrd_path_offs = kernel_cmdline_offs + cmdline_len;
    let initrd_path_len = initrd_path_contents.as_str().as_bytes().len() as u64;
    if initrd_path_len > u64::MAX - initrd_path_offs {
        return Err(LayoutError::OffsetOverflow);
    }
    let kernel_path_offs = initrd_path_offs + initrd_path_len;

    let mut sections: Vec<Section> = Vec::new();
    sections.push(s(".osrel", os_release, os_release_offs));
    sections.push(s(".cmdline", cmdline_file, kernel_cmdline_offs));
    sections.push(s(".initrdp", initrd_path_file, initrd_path_offs));
    sections.push(s(".kernelp", kernel_path_file, kernel_path_offs));
    proof {
        assert(sections@.len() == 4);
        assert(sections@[0].name@ == ".osrel"@);
        assert(sections@[1].name@ == ".cmdline"@);
        assert(sections@[2].name@ == ".initrdp"@);
        assert(sections@[3].name@ == ".kernelp"@);
        assert(sections@[0].offset == spec_stub_offset_of(stub@).unwrap());
        assert(sections@[1].offset == sections@[0].offset + os_release_size);
        assert(cmdline_len == vstd::utf8::encode_utf8(cmdline_contents@).len());
        assert(initrd_path_len == vstd::utf8::encode_utf8(initrd_path_contents@).len());
        assert(sections@[2].offset == sections@[1].offset + vstd::utf8::encode_utf8(
            cmdline_contents@,
        ).len());
        assert(sections@[3].offset == sections@[2].offset + vstd::utf8::encode_utf8(
            initrd_path_contents@,
        ).len());
    }
    Ok(
        StubSectionPlan {
            sections,
            cmdline_contents,
            initrd_path_contents,
            kernel_path_contents,
        },
    )
}

/// Plan the single `.initrd` section that wraps an initrd image in a stub:
/// it carries the file `initrd` and lands where the stub's sections end.
pub fn wrap_initrd(initrd_stub: &[u8], initrd: &str) -> (r: Result<Vec<Section>, LayoutError>)
    ensures
        r matches Ok(sections) ==> {
            &&& spec_stub_offset_of(initrd_stub@) matches Ok(start)
            &&& sections@.len() == 1
            &&& sections@[0].name@ == ".initrd"@
            &&& sections@[0].file_path@ == initrd@
            &&& sections@[0].offset == spec_stub_offset_of(initrd_stub@).unwrap()
        },
        r matches Err(e) ==> spec_stub_offset_of(initrd_stub@) == Err::<u64, LayoutError>(e),
{
    let initrd_offs = match stub_offset(initrd_stub) {
        Ok(o) => o,
        Err(e) => {
            return Err(e);
        },
    };
    let mut sections: Vec<Section> = Vec::new();
    sections.push(s(".initrd", initrd, initrd_offs));
    Ok(sections)
}

} // verus!
