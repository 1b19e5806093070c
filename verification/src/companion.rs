//! Companion initrds: credential and system-extension files discovered on
//! the boot volume, filtered by filename suffix and packed into a cpio
//! archive the kernel initramfs understands. Absence of companions is a
//! normal, common case, not an error; each kind is collected independently
//! and best-effort.

use vstd::prelude::*;
use vstd::string::StrSliceExecFns;
use vstd::string::StringExecFns;
use vstd::string::StringSliceAdditionalSpecFns;
use vstd::utf8::encode_utf8;

use crate::hexfmt::{push_hex8, spec_hex8};

verus! {

/// A companion payload packed at boot time: the tag says which kind, the
/// buffer holds its cpio archive.
pub enum CompanionInitrd {
    Credentials(Vec<u8>),
    GlobalCredentials(Vec<u8>),
    SystemExtension(Vec<u8>),
}

impl CompanionInitrd {
    /// The archive bytes, whatever the kind.
    pub open spec fn spec_bytes(&self) -> Seq<u8> {
        match self {
            CompanionInitrd::Credentials(b) => b@,
            CompanionInitrd::GlobalCredentials(b) => b@,
            CompanionInitrd::SystemExtension(b) => b@,
        }
    }

    /// The archive bytes, whatever the kind.
    pub fn bytes(&self) -> (r: &Vec<u8>)
        ensures
            r@ == self.spec_bytes(),
    {
        match self {
            CompanionInitrd::Credentials(b) => b,
            CompanionInitrd::GlobalCredentials(b) => b,
            CompanionInitrd::SystemExtension(b) => b,
        }
    }
}

/// The three companion kinds. Each maps to a discovery directory, a filename
/// suffix, an archive directory and permission bits; the kinds are otherwise
/// processed identically.
#[derive(Debug, Clone, Copy, PartialEq, Eq, Structural)]
pub enum CompanionKind {
    /// Per-entry credentials beside the stub.
    Credentials,
    /// Volume-wide credentials at the volume root.
    GlobalCredentials,
    /// System extension images beside the stub.
    SystemExtension,
}

impl CompanionKind {
    /// Where files of this kind are discovered: relative to the stub's own
    /// directory, or at the volume root for global credentials.
    pub fn discovery_directory(&self) -> (r: String)
        ensures
            *self == CompanionKind::Credentials ==> r@ == ".extra/credentials"@,
            *self == CompanionKind::GlobalCredentials ==> r@ == "\\loader\\credentials"@,
            *self == CompanionKind::SystemExtension ==> r@ == ".extra/sysext"@,
    {
        match self {
            CompanionKind::Credentials => String::from_str(".extra/credentials"),
            CompanionKind::GlobalCredentials => String::from_str("\\loader\\credentials"),
            CompanionKind::SystemExtension => String::from_str(".extra/sysext"),
        }
    }

    /// The directory under which this kind's files stand inside the packed
    /// archive.
    pub fn archive_directory(&self) -> (r: String)
        ensures
            r@ == self.spec_archive_directory(),
    {
        match self {
            CompanionKind::Credentials => String::from_str(".extra/credentials"),
            CompanionKind::GlobalCredentials => String::from_str(".extra/global_credentials"),
            CompanionKind::SystemExtension => String::from_str(".extra/sysext"),
        }
    }

    /// The archive directory of this kind.
    pub open spec fn spec_archive_directory(&self) -> Seq<char> {
        match self {
            CompanionKind::Credentials => ".extra/credentials"@,
            CompanionKind::GlobalCredentials => ".extra/global_credentials"@,
            CompanionKind::SystemExtension => ".extra/sysext"@,
        }
    }

    /// The filename suffix that selects files of this kind.
    pub fn suffix(&self) -> (r: String)
        ensures
            r@ == self.spec_suffix(),
    {
        match self {
            CompanionKind::Credentials => String::from_str(".cred"),
            CompanionKind::GlobalCredentials => String::from_str(".cred"),
            CompanionKind::SystemExtension => String::from_str(".raw"),
        }
    }

    /// The filename suffix of this kind.
    pub open spec fn spec_suffix(&self) -> Seq<char> {
        match self {
            CompanionKind::Credentials => ".cred"@,
            CompanionKind::GlobalCredentials => ".cred"@,
            CompanionKind::SystemExtension => ".raw"@,
        }
    }

    /// Permission bits of the archive directory member.
    pub fn dir_perm(&self) -> (r: u32)
        ensures
            r == 0o500u32,
    {
        0o500
    }

    /// Permission bits of each archive file member.
    pub fn file_perm(&self) -> (r: u32)
        ensures
            r == 0o400u32,
    {
        0o400
    }

    /// Wrap a packed archive in this kind's tag.
    pub fn wrap(&self, archive: Vec<u8>) -> (r: CompanionInitrd)
        ensures
            r.spec_bytes() == archive@,
    {
        match self {
            CompanionKind::Credentials => CompanionInitrd::Credentials(archive),
            CompanionKind::GlobalCredentials => CompanionInitrd::GlobalCredentials(archive),
            CompanionKind::SystemExtension => CompanionInitrd::SystemExtension(archive),
        }
    }
}

/// A file found on the boot volume: its name and its content.
pub struct VolumeFile {
    /// The file's name, without a directory.
    pub name: String,
    /// The file's content.
    pub data: Vec<u8>,
}

/// Whether a file name ends in the suffix.
pub open spec fn spec_has_suffix(name: Seq<char>, suffix: Seq<char>) -> bool {
    name.len() >= suffix.len() && name.skip(name.len() - suffix.len()) == suffix
}

/// Whether a file name ends in the suffix.
pub fn has_suffix(name: &str, suffix: &str) -> (r: bool)
    ensures
        r == spec_has_suffix(name@, suffix@),
{
    let name_len = name.unicode_len();
    let suffix_len = suffix.unicode_len();
    if name_len < suffix_len {
        return false;
    }
    let start = name_len - suffix_len;
    let mut i: usize = 0;
    while i < suffix_len
        invariant
            0 <= i <= suffix_len,
            suffix_len <= name_len,
            start == name_len - suffix_len,
            name_len == name@.len(),
            suffix_len == suffix@.len(),
            forall|j: int| 0 <= j < i ==> name@[start + j] == suffix@[j],
        decreases suffix_len - i,
    {
        if name.get_char(start + i) != suffix.get_char(i) {
            proof {
                assert(name@.skip(name@.len() - suffix@.len())[i as int] == name@[start + i]);
            }
            return false;
        }
        i += 1;
    }
    proof {
        assert(name@.skip(name@.len() - suffix@.len()) =~= suffix@);
    }
    true
}

/// The files of a listing whose names end in the suffix, in listing order.
pub open spec fn spec_matching(files: Seq<VolumeFile>, suffix: Seq<char>) -> Seq<VolumeFile> {
    files.filter(|f: VolumeFile| spec_has_suffix(f.name@, suffix))
}

/// The newc magic "070701", as ASCII bytes.
pub open spec fn spec_cpio_magic() -> Seq<u8> {
    seq![48u8, 55u8, 48u8, 55u8, 48u8, 49u8]
}

/// Zero padding to the next multiple of four bytes.
pub open spec fn spec_pad4(len: int) -> Seq<u8> {
    Seq::new((((4 - len % 4) % 4)) as nat, |i: int| 0u8)
}

/// One newc archive member: the 110-byte ASCII header (magic and thirteen
/// eight-digit hexadecimal fields), the member name with its terminating
/// zero byte, padding to four bytes, the data, padding again.
pub open spec fn spec_cpio_entry(name: Seq<u8>, mode: u32, data: Seq<u8>) -> Seq<u8> {
    spec_cpio_magic() + spec_hex8(0)  // inode
     + spec_hex8(mode) + spec_hex8(0)  // uid
     + spec_hex8(0)  // gid
     + spec_hex8(1)  // nlink
     + spec_hex8(0)  // mtime
     + spec_hex8(data.len() as u32) + spec_hex8(0)  // devmajor
     + spec_hex8(0)  // devminor
     + spec_hex8(0)  // rdevmajor
     + spec_hex8(0)  // rdevminor
     + spec_hex8((name.len() + 1) as u32) + spec_hex8(0)  // checksum, none for this magic
     + name + seq![0u8] + spec_pad4(110 + name.len() as int + 1) + data + spec_pad4(data.len() as int)
}

/// The members of the packed files, in listing order, each named under the
/// archive directory.
pub open spec fn spec_cpio_members(dir: Seq<char>, files: Seq<VolumeFile>, mode: u32) -> Seq<u8>
    decreases files.len(),
{
    if files.len() == 0 {
        Seq::empty()
    } else {
        spec_cpio_members(dir, files.drop_last(), mode) + spec_cpio_entry(
            encode_utf8(dir + "/"@ + files.last().name@),
            mode,
            files.last().data@,
        )
    }
}

/// A whole companion archive: the directory member, the file members in
/// listing order, and the trailer member.
pub open spec fn spec_cpio_archive(
    dir: Seq<char>,
    dir_perm: u32,
    files: Seq<VolumeFile>,
    file_perm: u32,
) -> Seq<u8> {
    spec_cpio_entry(encode_utf8(dir), 0o040000u32 | dir_perm, Seq::empty()) + spec_cpio_members(
        dir,
        files,
        0o100000u32 | file_perm,
    ) + spec_cpio_entry(encode_utf8("TRAILER!!!"@), 0, Seq::empty())
}

fn push_pad4(buf: &mut Vec<u8>, len: usize)
    ensures
        final(buf)@ == old(buf)@ + spec_pad4(len as int),
{
    let k: usize = (4 - len % 4) % 4;
    let ghost orig = buf@;
    let mut j: usize = 0;
    while j < k
        invariant
            0 <= j <= k,
            k == ((4 - (len as int) % 4) % 4),
            buf@ == orig + Seq::new(j as nat, |i: int| 0u8),
        decreases k - j,
    {
        buf.push(0);
        proof {
            assert(buf@ =~= orig + Seq::new((j + 1) as nat, |i: int| 0u8));
        }
        j += 1;
    }
    proof {
        assert(buf@ =~= orig + spec_pad4(len as int));
    }
}

/// Whether a member name is small enough for the archive's header fields
/// and the padding arithmetic.
pub open spec fn spec_name_ok(name: Seq<u8>) -> bool {
    &&& name.len() + 1 <= 0xFFFF_FFFF
    &&& name.len() + 111 <= usize::MAX
}

/// Whether a file fits the archive's header fields under this archive
/// directory.
pub open spec fn spec_file_fits(dir: Seq<char>, f: VolumeFile) -> bool {
    &&& spec_name_ok(encode_utf8(dir + "/"@ + f.name@))
    &&& f.data@.len() <= 0xFFFF_FFFF
}

#[verifier::rlimit(100)]
fn push_cpio_entry(buf: &mut Vec<u8>, name: &str, mode: u32, data: &[u8])
    requires
        spec_name_ok(encode_utf8(name@)),
        data@.len() <= 0xFFFF_FFFF,
    ensures
        final(buf)@ == old(buf)@ + spec_cpio_entry(encode_utf8(name@), mode, data@),
{
    let name_bytes = name.as_bytes();
    let name_size: u32 = name_bytes.len() as u32 + 1;
    let data_size: u32 = data.len() as u32;
    buf.push(48);
    buf.push(55);
    buf.push(48);
    buf.push(55);
    buf.push(48);
    buf.push(49);
    push_hex8(buf, 0);
    push_hex8(buf, mode);
    push_hex8(buf, 0);
    push_hex8(buf, 0);
    push_hex8(buf, 1);
    push_hex8(buf, 0);
    push_hex8(buf, data_size);
    push_hex8(buf, 0);
    push_hex8(buf, 0);
    push_hex8(buf, 0);
    push_hex8(buf, 0);
    push_hex8(buf, name_size);
    push_hex8(buf, 0);
    buf.extend_from_slice(name_bytes);
    buf.push(0);
    push_pad4(buf, 110 + name_bytes.len() + 1);
    buf.extend_from_slice(data);
    push_pad4(buf, data.len());
    proof {
        assert(buf@ =~= old(buf)@ + spec_cpio_entry(encode_utf8(name@), mode, data@));
    }
}

/// Packing failed because a name or a matching file cannot be described by
/// the archive's header fields.
#[derive(Debug, Clone, Copy, PartialEq, Eq, Structural)]
pub enum PackError {
    FileTooLarge,
}

/// Pack the files of one kind into a cpio archive.
///
/// `files` lists the kind's discovery directory; files whose names end in
/// the kind's suffix are packed, in listing order, under the kind's archive
/// directory, with the kind's permission bits. `Ok(None)` reports that no
/// file matched: absence of companions is a normal case, distinct from the
/// hard error of a matching file too large for the format.
pub fn pack_cpio(kind: &CompanionKind, files: &Vec<VolumeFile>) -> (r: Result<
    Option<CompanionInitrd>,
    PackError,
>)
    ensures
        r matches Ok(o) ==> {
            &&& (o is None <==> spec_matching(files@, kind.spec_suffix()).len() == 0)
            &&& (o matches Some(c) ==> c.spec_bytes() == spec_cpio_archive(
                kind.spec_archive_directory(),
                0o500,
                spec_matching(files@, kind.spec_suffix()),
                0o400,
            ))
        },
        r is Err ==> !spec_name_ok(encode_utf8(kind.spec_archive_directory())) || !spec_name_ok(
            encode_utf8("TRAILER!!!"@),
        ) || exists|i: int|
            0 <= i < files@.len() && spec_has_suffix(
                #[trigger] files@[i].name@,
                kind.spec_suffix(),
            ) && !spec_file_fits(kind.spec_archive_directory(), files@[i]),
{
    let suffix = kind.suffix();
    let dir = kind.archive_directory();
    let dir_mode: u32 = 0o040000 | kind.dir_perm();
    let file_mode: u32 = 0o100000 | kind.file_perm();

    let n = files.len();
    let ghost sfx = kind.spec_suffix();
    let ghost dirv = kind.spec_archive_directory();

    // Count the matching files first: none is the common, normal case.
    let mut match_count: usize = 0;
    let mut i: usize = 0;
    proof {
        reveal_with_fuel(Seq::filter, 2);
        assert(files@.subrange(0, 0) =~= Seq::<VolumeFile>::empty());
        assert(spec_matching(files@.subrange(0, 0), sfx).len() == 0);
    }
    while i < n
        invariant
            0 <= i <= n,
            n == files@.len(),
            sfx == kind.spec_suffix(),
            suffix@ == sfx,
            match_count == spec_matching(files@.subrange(0, i as int), sfx).len(),
            match_count <= i,
        decreases n - i,
    {
        let m = has_suffix(files[i].name.as_str(), suffix.as_str());
        proof {
            reveal_with_fuel(Seq::filter, 2);
            let prefix = files@.subrange(0, i + 1);
            assert(prefix.drop_last() =~= files@.subrange(0, i as int));
            assert(prefix.last() == files@[i as int]);
        }
        if m {
            match_count = match_count + 1;
        }
        i += 1;
    }
    proof {
        assert(files@.subrange(0, n as int) =~= files@);
    }
    if match_count == 0 {
        return Ok(None);
    }

    // The fixed directory and trailer names must fit the header fields.
    let dir_len = dir.as_str().as_bytes().len();
    if dir_len >= 0xFFFF_FFFFusize || dir_len > usize::MAX - 111 {
        return Err(PackError::FileTooLarge);
    }
    let trailer_len = "TRAILER!!!".as_bytes().len();
    if trailer_len >= 0xFFFF_FFFFusize || trailer_len > usize::MAX - 111 {
        return Err(PackError::FileTooLarge);
    }

    // Build the archive: directory member, matching files, trailer.
    let mut buf: Vec<u8> = Vec::new();
    push_cpio_entry(&mut buf, dir.as_str(), dir_mode, &[]);
    proof {
        reveal_with_fuel(Seq::filter, 2);
        assert(files@.subrange(0, 0) =~= Seq::<VolumeFile>::empty());
        assert(spec_matching(files@.subrange(0, 0), sfx).len() == 0);
        assert(buf@ =~= spec_cpio_entry(encode_utf8(dirv), dir_mode, Seq::empty())
            + spec_cpio_members(dirv, spec_matching(files@.subrange(0, 0), sfx), file_mode));
    }
    let mut i: usize = 0;
    while i < n
        invariant
            0 <= i <= n,
            n == files@.len(),
            sfx == kind.spec_suffix(),
            suffix@ == sfx,
            dirv == kind.spec_archive_directory(),
            dir@ == dirv,
            dir_mode == (0o040000u32 | 0o500u32),
            file_mode == (0o100000u32 | 0o400u32),
            buf@ == spec_cpio_entry(encode_utf8(dirv), dir_mode, Seq::empty())
                + spec_cpio_members(
                dirv,
                spec_matching(files@.subrange(0, i as int), sfx),
                file_mode,
            ),
        decreases n - i,
    {
        let m = has_suffix(files[i].name.as_str(), suffix.as_str());
        if m {
            let full_name = dir.clone().concat("/").concat(files[i].name.as_str());
            let name_len = full_name.as_str().as_bytes().len();
            let data_len = files[i].data.len();
            if name_len >= 0xFFFF_FFFFusize || name_len > usize::MAX - 111 || data_len
                > 0xFFFF_FFFFusize {
                proof {
                    assert(spec_has_suffix(files@[i as int].name@, sfx) && !spec_file_fits(
                        dirv,
                        files@[i as int],
                    ));
                }
                return Err(PackError::FileTooLarge);
            }
            push_cpio_entry(&mut buf, full_name.as_str(), file_mode, files[i].data.as_slice());
        }
        proof {
            reveal_with_fuel(Seq::filter, 2);
            let prefix = files@.subrange(0, i + 1);
            assert(prefix.drop_last() =~= files@.subrange(0, i as int));
            assert(prefix.last() == files@[i as int]);
            if m {
                assert(spec_matching(prefix, sfx) == spec_matching(
                    files@.subrange(0, i as int),
                    sfx,
                ).push(files@[i as int]));
                assert(spec_matching(prefix, sfx).drop_last() =~= spec_matching(
                    files@.subrange(0, i as int),
                    sfx,
                ));
                assert(buf@ =~= spec_cpio_entry(encode_utf8(dirv), dir_mode, Seq::empty())
                    + spec_cpio_members(dirv, spec_matching(prefix, sfx), file_mode));
            } else {
                assert(spec_matching(prefix, sfx) == spec_matching(
                    files@.subrange(0, i as int),
                    sfx,
                ));
            }
        }
        i += 1;
    }
    push_cpio_entry(&mut buf, "TRAILER!!!", 0, &[]);
    proof {
        assert(files@.subrange(0, n as int) =~= files@);
        assert(buf@ =~= spec_cpio_archive(dirv, 0o500, spec_matching(files@, sfx), 0o400));
    }
    Ok(Some(kind.wrap(buf)))
}

} // verus!
