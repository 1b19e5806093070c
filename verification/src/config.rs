//! Boot-time recovery of the embedded configuration: a pure re-parse of the
//! stub's own loaded PE image. Every value is either a UTF-8 string that the
//! firmware's native wide-string form can represent, or a raw 32-byte
//! digest; a missing or malformed section fails extraction wholesale.

use vstd::prelude::*;
use vstd::string::StrSliceExecFns;
use vstd::utf8::{decode_utf8, encode_utf8, valid_utf8};

use crate::pe_image::{pe_info_of, pe_section, spec_pe_section, PeInfo};
use crate::Digest;

verus! {

/// The one extraction failure, reported to the firmware as its
/// invalid-parameter status: a section is missing, a string section is not
/// valid UTF-8 or not representable as the firmware's wide string, or a
/// digest section is not exactly 32 bytes.
#[derive(Debug, Clone, Copy, PartialEq, Eq, Structural)]
pub enum ExtractError {
    InvalidParameter,
}

/// Whether a decoded string has the firmware's native wide-string form: a
/// null-terminated UTF-16 string can hold neither an interior NUL nor a
/// character outside the basic multilingual plane.
pub open spec fn spec_wide_representable(s: Seq<char>) -> bool {
    forall|i: int| 0 <= i < s.len() ==> 1 <= (#[trigger] s[i]) as u32 <= 0xFFFF
}

/// Whether every character of the string fits the firmware's wide-string
/// form.
fn wide_representable(s: &str) -> (r: bool)
    ensures
        r == spec_wide_representable(s@),
{
    let n = s.unicode_len();
    let mut i: usize = 0;
    while i < n
        invariant
            0 <= i <= n,
            n == s@.len(),
            forall|j: int| 0 <= j < i ==> 1 <= (#[trigger] s@[j]) as u32 <= 0xFFFF,
        decreases n - i,
    {
        let c = s.get_char(i);
        let v = c as u32;
        if v == 0 || v > 0xFFFF {
            proof {
                assert(!(1 <= (s@[i as int]) as u32 <= 0xFFFF));
            }
            return false;
        }
        i += 1;
    }
    true
}

/// What extracting a string section yields over a reported section table.
pub open spec fn spec_extract_string(info: PeInfo, pe: Seq<u8>, name: Seq<u8>) -> Result<
    Seq<char>,
    ExtractError,
> {
    match spec_pe_section(info, pe, name) {
        None => Err(ExtractError::InvalidParameter),
        Some(b) => {
            if valid_utf8(b) && spec_wide_representable(decode_utf8(b)) {
                Ok(decode_utf8(b))
            } else {
                Err(ExtractError::InvalidParameter)
            }
        },
    }
}

/// What extracting a digest section yields over a reported section table.
pub open spec fn spec_extract_hash(info: PeInfo, pe: Seq<u8>, name: Seq<u8>) -> Result<
    Seq<u8>,
    ExtractError,
> {
    match spec_pe_section(info, pe, name) {
        None => Err(ExtractError::InvalidParameter),
        Some(b) => {
            if b.len() == 32 {
                Ok(b)
            } else {
                Err(ExtractError::InvalidParameter)
            }
        },
    }
}

/// Relies on core::str::from_utf8 of std: it accepts exactly the valid UTF-8
/// byte strings and decodes them to their characters.
#[verifier::external_body]
fn utf8_to_string(bytes: &[u8]) -> (r: Option<String>)
    ensures
        r is Some <==> valid_utf8(bytes@),
        r matches Some(s) ==> s@ == decode_utf8(bytes@),
{
    match core::str::from_utf8(bytes) {
        Ok(s) => Some(s.to_string()),
        Err(_) => None,
    }
}

/// Extract a string, stored as UTF-8, from the named PE section. The value
/// must also fit the firmware's native wide-string form, to which the caller
/// converts it: a section holding an interior NUL or a character beyond the
/// basic multilingual plane is as invalid as one that is not UTF-8.
pub fn extract_string(pe_data: &[u8], section: &str) -> (r: Result<String, ExtractError>)
    ensures
        pe_info_of(pe_data@) matches Some(info) ==> {
            &&& (r is Ok <==> spec_extract_string(info, pe_data@, encode_utf8(section@)) is Ok)
            &&& (r matches Ok(s) ==> s@ == spec_extract_string(
                info,
                pe_data@,
                encode_utf8(section@),
            )->Ok_0)
        },
        pe_info_of(pe_data@) is None ==> r == Err::<String, ExtractError>(
            ExtractError::InvalidParameter,
        ),
{
    let bytes = match pe_section(pe_data, section.as_bytes()) {
        Some(b) => b,
        None => {
            return Err(ExtractError::InvalidParameter);
        },
    };
    let s = match utf8_to_string(bytes.as_slice()) {
        Some(s) => s,
        None => {
            return Err(ExtractError::InvalidParameter);
        },
    };
    if wide_representable(s.as_str()) {
        Ok(s)
    } else {
        Err(ExtractError::InvalidParameter)
    }
}

/// Extract a raw 32-byte digest from the named PE section.
pub fn extract_hash(pe_data: &[u8], section: &str) -> (r: Result<Digest, ExtractError>)
    ensures
        pe_info_of(pe_data@) matches Some(info) ==> {
            &&& (r is Ok <==> spec_extract_hash(info, pe_data@, encode_utf8(section@)) is Ok)
            &&& (r matches Ok(h) ==> h@ == spec_extract_hash(
                info,
                pe_data@,
                encode_utf8(section@),
            )->Ok_0 && h.wf())
        },
        pe_info_of(pe_data@) is None ==> r == Err::<Digest, ExtractError>(
            ExtractError::InvalidParameter,
        ),
{
    let bytes = match pe_section(pe_data, section.as_bytes()) {
        Some(b) => b,
        None => {
            return Err(ExtractError::InvalidParameter);
        },
    };
    if bytes.len() == 32 {
        Ok(Digest { bytes })
    } else {
        Err(ExtractError::InvalidParameter)
    }
}

/// The configuration embedded at build time and parsed once per boot.
///
/// All five fields must be present and well-formed in the loaded image, or
/// extraction fails wholesale: partial configuration is not valid.
pub struct EmbeddedConfiguration {
    /// The kernel to boot, relative to the root of the volume that holds the
    /// stub.
    pub kernel_filename: String,
    /// The digest of the kernel's content.
    pub kernel_hash: Digest,
    /// The initrd to pass to the kernel, in the same form as the kernel path.
    pub initrd_filename: String,
    /// The digest of the initrd's content.
    pub initrd_hash: Digest,
    /// The kernel command line.
    pub cmdline: String,
}

impl EmbeddedConfiguration {
    /// A configuration carries well-formed 32-byte digests.
    pub open spec fn wf(&self) -> bool {
        self.kernel_hash.wf() && self.initrd_hash.wf()
    }

    /// Recover the whole configuration from the bytes of the loaded stub
    /// image: the five sections `.kernelp`, `.kernelh`, `.initrdp`,
    /// `.initrdh` and `.cmdline`, all present and well-formed, or nothing.
    pub fn new(file_data: &[u8]) -> (r: Result<Self, ExtractError>)
        ensures
            pe_info_of(file_data@) matches Some(info) ==> {
                &&& (r is Ok <==> {
                    &&& spec_extract_string(info, file_data@, encode_utf8(".kernelp"@)) is Ok
                    &&& spec_extract_hash(info, file_data@, encode_utf8(".kernelh"@)) is Ok
                    &&& spec_extract_string(info, file_data@, encode_utf8(".initrdp"@)) is Ok
                    &&& spec_extract_hash(info, file_data@, encode_utf8(".initrdh"@)) is Ok
                    &&& spec_extract_string(info, file_data@, encode_utf8(".cmdline"@)) is Ok
                })
                &&& (r matches Ok(c) ==> {
                    &&& c.kernel_filename@ == spec_extract_string(
                        info,
                        file_data@,
                        encode_utf8(".kernelp"@),
                    )->Ok_0
                    &&& c.kernel_hash@ == spec_extract_hash(
                        info,
                        file_data@,
                        encode_utf8(".kernelh"@),
                    )->Ok_0
                    &&& c.initrd_filename@ == spec_extract_string(
                        info,
                        file_data@,
                        encode_utf8(".initrdp"@),
                    )->Ok_0
                    &&& c.initrd_hash@ == spec_extract_hash(
                        info,
                        file_data@,
                        encode_utf8(".initrdh"@),
                    )->Ok_0
                    &&& c.cmdline@ == spec_extract_string(
                        info,
                        file_data@,
                        encode_utf8(".cmdline"@),
                    )->Ok_0
                    &&& c.wf()
                })
            },
            pe_info_of(file_data@) is None ==> r is Err,
    {
        let kernel_filename = match extract_string(file_data, ".kernelp") {
            Ok(s) => s,
            Err(e) => {
                return Err(e);
            },
        };
        let kernel_hash = match extract_hash(file_data, ".kernelh") {
            Ok(h) => h,
            Err(e) => {
                return Err(e);
            },
        };
        let initrd_filename = match extract_string(file_data, ".initrdp") {
            Ok(s) => s,
            Err(e) => {
                return Err(e);
            },
        };
        let initrd_hash = match extract_hash(file_data, ".initrdh") {
            Ok(h) => h,
            Err(e) => {
                return Err(e);
            },
        };
        let cmdline = match extract_string(file_data, ".cmdline") {
            Ok(s) => s,
            Err(e) => {
                return Err(e);
            },
        };
        Ok(
            Self {
                kernel_filename,
                kernel_hash,
                initrd_filename,
                initrd_hash,
                cmdline,
            },
        )
    }
}

/// Round-trip embedding: over an image whose five configuration sections
/// hold the UTF-8 encodings of three wide-representable strings and two
/// 32-byte digests, extraction yields exactly those values back.
pub proof fn lemma_config_round_trip(
    info: PeInfo,
    pe: Seq<u8>,
    kernel_filename: Seq<char>,
    kernel_hash: Seq<u8>,
    initrd_filename: Seq<char>,
    initrd_hash: Seq<u8>,
    cmdline: Seq<char>,
)
    requires
        spec_pe_section(info, pe, encode_utf8(".kernelp"@)) == Some(encode_utf8(kernel_filename)),
        spec_pe_section(info, pe, encode_utf8(".kernelh"@)) == Some(kernel_hash),
        spec_pe_section(info, pe, encode_utf8(".initrdp"@)) == Some(encode_utf8(initrd_filename)),
        spec_pe_section(info, pe, encode_utf8(".initrdh"@)) == Some(initrd_hash),
        spec_pe_section(info, pe, encode_utf8(".cmdline"@)) == Some(encode_utf8(cmdline)),
        kernel_hash.len() == 32,
        initrd_hash.len() == 32,
        spec_wide_representable(kernel_filename),
        spec_wide_representable(initrd_filename),
        spec_wide_representable(cmdline),
    ensures
        spec_extract_string(info, pe, encode_utf8(".kernelp"@)) == Ok::<Seq<char>, ExtractError>(
            kernel_filename,
        ),
        spec_extract_hash(info, pe, encode_utf8(".kernelh"@)) == Ok::<Seq<u8>, ExtractError>(
            kernel_hash,
        ),
        spec_extract_string(info, pe, encode_utf8(".initrdp"@)) == Ok::<Seq<char>, ExtractError>(
            initrd_filename,
        ),
        spec_extract_hash(info, pe, encode_utf8(".initrdh"@)) == Ok::<Seq<u8>, ExtractError>(
            initrd_hash,
        ),
        spec_extract_string(info, pe, encode_utf8(".cmdline"@)) == Ok::<Seq<char>, ExtractError>(
            cmdline,
        ),
{
    vstd::utf8::encode_utf8_valid_utf8(kernel_filename);
    vstd::utf8::encode_utf8_decode_utf8(kernel_filename);
    vstd::utf8::encode_utf8_valid_utf8(initrd_filename);
    vstd::utf8::encode_utf8_decode_utf8(initrd_filename);
    vstd::utf8::encode_utf8_valid_utf8(cmdline);
    vstd::utf8::encode_utf8_decode_utf8(cmdline);
}

} // verus!
