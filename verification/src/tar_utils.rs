//! The tar packer and the untar path resolver: a folder's entries become a
//! tar container; unpacking resolves the output directory and leaves the
//! container to the caller's unpack primitive.

use vstd::prelude::*;

use crate::config::spec_opt_str_view;
use crate::entry::{
    spec_entries_wf, spec_entry_mode, spec_rel_path_ok, ArchiveEntry, EntryKind, PackedArchive,
};
use crate::error::FcError;
use crate::resolve::{
    base_name, out_dir, resolve_free_target, spec_base_name, spec_file_name, spec_is_resolved,
    spec_out_dir, spec_stem, file_name_of, split_extension, ResolvedTarget,
};

verus! {

/// Holds the tar crate's in-memory archive builder.  The verifier cannot
/// take `tar::Builder`'s generic bounds, so the builder lives opaquely in
/// this struct, modelled by `tar_written`.
#[verifier::external_body]
pub struct TarSink {
    inner: tar::Builder<Vec<u8>>,
}

/// One member recorded in a tar builder: its stored name, kind, contents
/// and permission bits.
pub struct TarMemberV {
    pub name: Seq<char>,
    pub is_dir: bool,
    pub data: Seq<u8>,
    pub mode: u32,
}

/// The members appended to a tar builder so far, in order.
pub uninterp spec fn tar_written(b: TarSink) -> Seq<TarMemberV>;

/// The tar container the builder produces for a member sequence.  With a
/// fixed codec version this depends on the members alone: the headers the
/// wrappers build carry a zero timestamp and no owner information.
pub uninterp spec fn tar_bytes_of(members: Seq<TarMemberV>) -> Seq<u8>;

/// Relies on `tar::Builder::new`: a fresh builder holds no members.
#[verifier::external_body]
fn tar_builder_new() -> (b: TarSink)
    ensures
        tar_written(b) == Seq::<TarMemberV>::empty(),
{
    TarSink { inner: tar::Builder::new(Vec::new()) }
}

/// Relies on `tar::Header::new_gnu` (a blank header with a zero timestamp)
/// and `tar::Builder::append_data`: the archive gains one file member with
/// the given name, contents and permissions.  Appending into a `Vec` fails
/// only on name shapes — empty, absolute, a `..` component, a NUL byte —
/// which the caller's well-formedness precondition excludes; over-long
/// names go through the GNU long-name fallback.
#[verifier::external_body]
fn tar_add_file(b: &mut TarSink, name: &str, data: &Vec<u8>, mode: u32) -> (r: Result<(), ()>)
    requires
        spec_rel_path_ok(name@),
    ensures
        r is Ok,
        r is Ok ==> tar_written(*final(b)) == tar_written(*old(b)).push(
            TarMemberV { name: name@, is_dir: false, data: data@, mode },
        ),
{
    let mut header = tar::Header::new_gnu();
    header.set_entry_type(tar::EntryType::file());
    header.set_mode(mode);
    header.set_size(data.len() as u64);
    b.inner.append_data(&mut header, name, data.as_slice()).map_err(|_| ())
}

/// Relies on `tar::Header::new_gnu` and `tar::Builder::append_data`: the
/// archive gains one directory member with the given name and permissions.
/// As for files, a well-formed name cannot make the append fail.
#[verifier::external_body]
fn tar_add_dir(b: &mut TarSink, name: &str, mode: u32) -> (r: Result<(), ()>)
    requires
        spec_rel_path_ok(name@),
    ensures
        r is Ok,
        r is Ok ==> tar_written(*final(b)) == tar_written(*old(b)).push(
            TarMemberV { name: name@, is_dir: true, data: Seq::empty(), mode },
        ),
{
    let mut header = tar::Header::new_gnu();
    header.set_entry_type(tar::EntryType::dir());
    header.set_mode(mode);
    header.set_size(0);
    b.inner.append_data(&mut header, name, std::io::empty()).map_err(|_| ())
}

/// Relies on `tar::Builder::into_inner`: finishing writes the terminating
/// blocks, which into a `Vec` cannot fail, and the container's bytes are
/// determined by the appended members.
#[verifier::external_body]
fn tar_finish(b: TarSink) -> (r: Result<Vec<u8>, ()>)
    ensures
        r is Ok,
        r is Ok ==> r.unwrap()@ == tar_bytes_of(tar_written(b)),
{
    b.inner.into_inner().map_err(|_| ())
}

/// The member the tar packer records for one walked entry.
pub open spec fn spec_tar_member_of(e: ArchiveEntry) -> TarMemberV {
    if e.kind is Directory {
        TarMemberV {
            name: e.rel_path@,
            is_dir: true,
            data: Seq::empty(),
            mode: spec_entry_mode(e.mode),
        }
    } else {
        TarMemberV {
            name: e.rel_path@,
            is_dir: false,
            data: e.data@,
            mode: spec_entry_mode(e.mode),
        }
    }
}

/// The member sequence the tar packer records for a walked folder.
pub open spec fn spec_tar_members(entries: Seq<ArchiveEntry>) -> Seq<TarMemberV> {
    entries.map_values(|e: ArchiveEntry| spec_tar_member_of(e))
}

/// Pack a folder's entries into a tar container.
///
/// `folder_dir` is where the caller found the folder and `source_is_dir`
/// whether it is a directory; `existing` is the snapshot of occupied paths
/// at the output location.  The output name is the explicit name or the
/// folder's own name, with `.tar` appended and the conflict counter
/// spliced in before it.
pub fn tar_folder(
    folder_dir: &str,
    source_is_dir: bool,
    entries: &Vec<ArchiveEntry>,
    file_name: Option<&str>,
    output_dir: Option<&str>,
    existing: &Vec<String>,
) -> (r: Result<PackedArchive, FcError>)
    requires
        spec_entries_wf(entries@),
    ensures
        match r {
            Ok(p) => {
                &&& source_is_dir
                &&& spec_base_name(folder_dir@, spec_opt_str_view(file_name)) is Some
                &&& spec_is_resolved(
                    spec_out_dir(folder_dir@, spec_opt_str_view(output_dir)),
                    spec_base_name(folder_dir@, spec_opt_str_view(file_name)).unwrap(),
                    ".tar"@,
                    existing@,
                    p.target,
                )
                &&& p.bytes@ == tar_bytes_of(spec_tar_members(entries@))
            },
            Err(e) => match e {
                FcError::NotADirectory => !source_is_dir,
                FcError::InvalidPath => source_is_dir && spec_base_name(
                    folder_dir@,
                    spec_opt_str_view(file_name),
                ) is None,
                _ => false,
            },
        },
{
    if !source_is_dir {
        return Err(FcError::NotADirectory);
    }
    let name = match base_name(folder_dir, file_name) {
        Some(n) => n,
        None => {
            return Err(FcError::InvalidPath);
        },
    };
    let dir = out_dir(folder_dir, output_dir);
    let target = resolve_free_target(dir.as_str(), name.as_str(), ".tar", existing);
    let mut builder = tar_builder_new();
    let mut i: usize = 0;
    while i < entries.len()
        invariant
            i <= entries@.len(),
            spec_entries_wf(entries@),
            tar_written(builder) == spec_tar_members(entries@.take(i as int)),
        decreases entries@.len() - i,
    {
        let e = &entries[i];
        let mode = match e.mode {
            Some(m) => m,
            None => 0o755,
        };
        let step = match e.kind {
            EntryKind::File => tar_add_file(&mut builder, e.rel_path.as_str(), &e.data, mode),
            EntryKind::Directory => tar_add_dir(&mut builder, e.rel_path.as_str(), mode),
        };
        proof {
            assert(step is Ok);
            assert(entries@.take(i + 1).map_values(|e0: ArchiveEntry| spec_tar_member_of(e0))
                =~= entries@.take(i as int).map_values(
                |e0: ArchiveEntry| spec_tar_member_of(e0),
            ).push(spec_tar_member_of(entries@[i as int])));
        }
        i += 1;
    }
    proof {
        assert(entries@.take(entries@.len() as int) =~= entries@);
    }
    let bytes = tar_finish(builder).unwrap();
    Ok(PackedArchive { target, bytes })
}

/// The untar output directory's name: the explicit name, or the archive's
/// stem with `_extracted` appended.
pub open spec fn spec_untar_name(source: Seq<char>, explicit: Option<Seq<char>>) -> Option<
    Seq<char>,
> {
    match explicit {
        Some(n) => Some(n),
        None => match spec_file_name(source) {
            Some(n) => Some(spec_stem(n) + "_extracted"@),
            None => None,
        },
    }
}

/// Resolve where a tar container is unpacked to.
///
/// The container itself is handed whole to the caller's unpack primitive,
/// which preserves member paths; this function only validates the input
/// and resolves the conflict-free output directory.
pub fn untar_file(
    tar_file_path: &str,
    source_is_file: bool,
    file_name: Option<&str>,
    output_dir: Option<&str>,
    existing: &Vec<String>,
) -> (r: Result<ResolvedTarget, FcError>)
    ensures
        match r {
            Ok(t) => {
                &&& source_is_file
                &&& spec_untar_name(tar_file_path@, spec_opt_str_view(file_name)) is Some
                &&& spec_is_resolved(
                    spec_out_dir(tar_file_path@, spec_opt_str_view(output_dir)),
                    spec_untar_name(tar_file_path@, spec_opt_str_view(file_name)).unwrap(),
                    ""@,
                    existing@,
                    t,
                )
            },
            Err(e) => match e {
                FcError::NotAFile => !source_is_file,
                FcError::InvalidPath => source_is_file && spec_untar_name(
                    tar_file_path@,
                    spec_opt_str_view(file_name),
                ) is None,
                _ => false,
            },
        },
{
    if !source_is_file {
        return Err(FcError::NotAFile);
    }
    let name = match file_name {
        Some(n) => String::from_str(n),
        None => {
            let archive_name = match file_name_of(tar_file_path) {
                Some(n) => n,
                None => {
                    return Err(FcError::InvalidPath);
                },
            };
            let (stem, _) = split_extension(archive_name.as_str());
            stem.concat("_extracted")
        },
    };
    let dir = out_dir(tar_file_path, output_dir);
    Ok(resolve_free_target(dir.as_str(), name.as_str(), "", existing))
}

} // verus!
