//! The zip packer and unpacker: a folder's entries become a zip container
//! and back, with output naming, conflict resolution and per-archive
//! compression configuration.

use vstd::prelude::*;

use crate::config::{build_config, spec_build_config, spec_opt_str_view, CompressionMethod};
use crate::entry::{
    spec_entries_wf, spec_entry_mode, spec_sanitized_path, ArchiveEntry, EntryKind, EntryV,
    PackedArchive, UnpackedArchive,
};
use crate::error::FcError;
use crate::resolve::{
    base_name, out_dir, resolve_free_target, spec_base_name, spec_is_resolved, spec_out_dir,
    spec_stem_name, stem_name,
};

verus! {

/// `std::io::Cursor`, the in-memory read/write/seek target the zip codec
/// runs over; opaque to the verifier.
#[verifier::external_type_specification]
#[verifier::external_body]
#[verifier::reject_recursive_types(T)]
pub struct ExCursor<T>(std::io::Cursor<T>);

/// Holds the zip crate's in-memory archive builder.  The verifier cannot
/// take `zip::ZipWriter`'s generic bounds, so the writer lives opaquely in
/// this struct, modelled by `zip_written`.
#[verifier::external_body]
pub struct ZipSink {
    inner: zip::ZipWriter<std::io::Cursor<Vec<u8>>>,
}

/// `zip::ZipArchive`, the zip crate's archive reader; opaque to the
/// verifier, modelled by `zip_archive_members`.
#[verifier::external_type_specification]
#[verifier::external_body]
#[verifier::reject_recursive_types(R)]
pub struct ExZipArchive<R>(zip::ZipArchive<R>);

/// One member recorded in a zip writer: its stored name, kind, contents,
/// permission bits, and — for files — the compression applied to it.
pub struct ZipMemberV {
    pub name: Seq<char>,
    pub is_dir: bool,
    pub data: Seq<u8>,
    pub mode: u32,
    pub compression: Option<(CompressionMethod, i64)>,
}

/// The members written into a zip writer so far, in order.
pub uninterp spec fn zip_written(w: ZipSink) -> Seq<ZipMemberV>;

/// The zip container the writer produces for a member sequence.  This
/// depends on the members alone only because of how the codec is built:
/// the wrappers below pin the archive's system tag, the compressors are
/// deterministic for a given method and level, and — crucially — the zip
/// crate is compiled without its `time` feature, which fixes every entry
/// timestamp at the format's epoch.  Enabling that feature would stamp the
/// current time into each entry and break this model.
pub uninterp spec fn zip_bytes_of(members: Seq<ZipMemberV>) -> Seq<u8>;

/// Whether the writer accepts one more member on top of what it already
/// holds.  The failure conditions — a stored name already taken, a level
/// the chosen codec refuses, contents past the plain zip size limit — are
/// deterministic in the members alone, so acceptance is a function of
/// them; its exact extent lives in the zip crate.
pub uninterp spec fn zip_member_accepted(written: Seq<ZipMemberV>, member: ZipMemberV) -> bool;

/// Whether finishing the container succeeds for a member sequence;
/// deterministic in the members for the same reason.
pub uninterp spec fn zip_finish_ok(members: Seq<ZipMemberV>) -> bool;

/// The levels the zip crate's codecs accept, as its validation ranges
/// state them: Deflate 1 to 264, Bzip2 1 to 9, Zstd -131072 to 22.  Note
/// that the engine's own validation admits Deflate and Bzip2 level 0 —
/// legal levels for this engine — which the codec then refuses.
pub open spec fn spec_zip_codec_level_ok(method: CompressionMethod, level: i64) -> bool {
    match method {
        CompressionMethod::Deflate => 1 <= level <= 264,
        CompressionMethod::Bzip2 => 1 <= level <= 9,
        CompressionMethod::Zstd => -131072 <= level <= 22,
    }
}

/// The writer accepts every member of the sequence, each on top of those
/// before it.
pub open spec fn spec_zip_accepts_all(members: Seq<ZipMemberV>) -> bool
    decreases members.len(),
{
    members.len() == 0 || (spec_zip_accepts_all(members.drop_last()) && zip_member_accepted(
        members.drop_last(),
        members.last(),
    ))
}

/// When a whole sequence is accepted, so is each member on top of its own
/// prefix.
proof fn lemma_zip_accepts_all_prefix(members: Seq<ZipMemberV>, k: int)
    requires
        spec_zip_accepts_all(members),
        0 <= k < members.len(),
    ensures
        zip_member_accepted(members.take(k), members[k]),
    decreases members.len(),
{
    if k == members.len() - 1 {
        assert(members.take(k) =~= members.drop_last());
    } else {
        assert(members.drop_last().take(k) =~= members.take(k));
        lemma_zip_accepts_all_prefix(members.drop_last(), k);
    }
}

/// Relies on `zip::ZipWriter::new`: a fresh writer holds no members.
#[verifier::external_body]
fn zip_writer_new() -> (w: ZipSink)
    ensures
        zip_written(w) == Seq::<ZipMemberV>::empty(),
{
    ZipSink { inner: zip::ZipWriter::new(std::io::Cursor::new(Vec::new())) }
}

/// Relies on `zip::ZipWriter::start_file` and `std::io::Write::write_all`:
/// exactly when the writer accepts the member, the archive gains one file
/// member with the given name, contents, permissions, compression method
/// and level; acceptance implies the level lies in the codec's validation
/// range.
#[verifier::external_body]
fn zip_add_file(
    w: &mut ZipSink,
    name: &str,
    data: &Vec<u8>,
    method: CompressionMethod,
    level: i64,
    mode: u32,
) -> (r: Result<(), ()>)
    ensures
        r is Ok <==> zip_member_accepted(
            zip_written(*old(w)),
            ZipMemberV {
                name: name@,
                is_dir: false,
                data: data@,
                mode,
                compression: Some((method, level)),
            },
        ),
        r is Ok ==> zip_written(*final(w)) == zip_written(*old(w)).push(
            ZipMemberV {
                name: name@,
                is_dir: false,
                data: data@,
                mode,
                compression: Some((method, level)),
            },
        ),
        r is Ok ==> spec_zip_codec_level_ok(method, level),
{
    let m = match method {
        CompressionMethod::Deflate => zip::CompressionMethod::Deflated,
        CompressionMethod::Bzip2 => zip::CompressionMethod::Bzip2,
        CompressionMethod::Zstd => zip::CompressionMethod::Zstd,
    };
    let options = zip::write::SimpleFileOptions::default().compression_method(m)
        .compression_level(Some(level)).unix_permissions(mode).system(zip::System::Unix);
    if w.inner.start_file(name, options).is_err() {
        return Err(());
    }
    std::io::Write::write_all(&mut w.inner, data.as_slice()).map_err(|_| ())
}

/// Relies on `zip::ZipWriter::add_directory`: exactly when the writer
/// accepts the member, the archive gains one uncompressed directory member
/// with the given name and permissions.
#[verifier::external_body]
fn zip_add_dir(w: &mut ZipSink, name: &str, mode: u32) -> (r: Result<(), ()>)
    ensures
        r is Ok <==> zip_member_accepted(
            zip_written(*old(w)),
            ZipMemberV {
                name: name@,
                is_dir: true,
                data: Seq::empty(),
                mode,
                compression: None,
            },
        ),
        r is Ok ==> zip_written(*final(w)) == zip_written(*old(w)).push(
            ZipMemberV {
                name: name@,
                is_dir: true,
                data: Seq::empty(),
                mode,
                compression: None,
            },
        ),
{
    let options = zip::write::SimpleFileOptions::default().unix_permissions(mode)
        .system(zip::System::Unix);
    w.inner.add_directory(name, options).map_err(|_| ())
}

/// Relies on `zip::ZipWriter::finish`: whether finishing succeeds, and the
/// bytes of the finished container, are determined by the members written
/// into it.
#[verifier::external_body]
fn zip_finish(w: ZipSink) -> (r: Result<Vec<u8>, ()>)
    ensures
        r is Ok <==> zip_finish_ok(zip_written(w)),
        r is Ok ==> r.unwrap()@ == zip_bytes_of(zip_written(w)),
{
    match w.inner.finish() {
        Ok(cursor) => Ok(cursor.into_inner()),
        Err(_) => Err(()),
    }
}

/// The members stored in an opened zip archive, in index order, with the
/// names already sanitised the way extraction will use them.  A member is
/// `None` when its data cannot be read — a corrupt or truncated local
/// entry — which, for an in-memory archive, is as deterministic as the
/// member list itself.
pub uninterp spec fn zip_archive_members(a: zip::ZipArchive<std::io::Cursor<Vec<u8>>>) -> Seq<
    Option<EntryV>,
>;

/// What reading a zip container yields: its member list, or nothing when
/// the bytes do not hold a readable central directory.  A function of the
/// bytes alone.
pub uninterp spec fn zip_members_of(bytes: Seq<u8>) -> Option<Seq<Option<EntryV>>>;

/// Every member of the container can be read.
pub open spec fn spec_members_readable(members: Seq<Option<EntryV>>) -> bool {
    forall|i: int| 0 <= i < members.len() ==> (#[trigger] members[i]) is Some
}

/// The entries of a container whose members can all be read.
pub open spec fn spec_member_entries(members: Seq<Option<EntryV>>) -> Seq<EntryV> {
    members.map_values(|o: Option<EntryV>| o.unwrap())
}

/// Relies on `zip::ZipArchive::new`: opening succeeds with the container's
/// member list exactly when the bytes form a readable container.
#[verifier::external_body]
fn zip_open(bytes: &Vec<u8>) -> (r: Result<zip::ZipArchive<std::io::Cursor<Vec<u8>>>, ()>)
    ensures
        match zip_members_of(bytes@) {
            Some(s) => r is Ok && zip_archive_members(r.unwrap()) == s,
            None => r is Err,
        },
{
    zip::ZipArchive::new(std::io::Cursor::new(bytes.clone())).map_err(|_| ())
}

/// Relies on `zip::ZipArchive::len`: the number of members.
#[verifier::external_body]
fn zip_member_count(a: &zip::ZipArchive<std::io::Cursor<Vec<u8>>>) -> (n: usize)
    ensures
        n == zip_archive_members(*a).len(),
{
    a.len()
}

/// Relies on `zip::ZipArchive::by_index` and the member accessors
/// `mangled_name`, `is_dir`, `unix_mode` and `std::io::Read::read_to_end`:
/// reading succeeds with member `i` exactly when that member is readable,
/// and moves no members around.  The name mangling keeps only the normal
/// path components of the stored name, so the returned path is empty or a
/// usable relative path: never absolute and never holding a `..`
/// component.
#[verifier::external_body]
fn zip_read_member(a: &mut zip::ZipArchive<std::io::Cursor<Vec<u8>>>, i: usize) -> (r: Result<
    ArchiveEntry,
    (),
>)
    requires
        i < zip_archive_members(*old(a)).len(),
    ensures
        zip_archive_members(*final(a)) == zip_archive_members(*old(a)),
        match zip_archive_members(*old(a))[i as int] {
            Some(e) => r is Ok && r.unwrap()@ == e,
            None => r is Err,
        },
        r is Ok ==> spec_sanitized_path(r.unwrap().rel_path@),
{
    let mut f = match a.by_index(i) {
        Ok(f) => f,
        Err(_) => return Err(()),
    };
    let rel_path = f.mangled_name().to_string_lossy().into_owned();
    let (is_dir, mode) = (f.is_dir(), f.unix_mode());
    let mut data = Vec::new();
    if !is_dir && std::io::Read::read_to_end(&mut f, &mut data).is_err() {
        return Err(());
    }
    let kind = if is_dir { EntryKind::Directory } else { EntryKind::File };
    Ok(ArchiveEntry { rel_path, kind, mode, data })
}

/// The views of an entry sequence, in order.
pub open spec fn spec_entry_views(entries: Seq<ArchiveEntry>) -> Seq<EntryV> {
    entries.map_values(|e: ArchiveEntry| e@)
}

/// The member the zip packer records for one walked entry.
pub open spec fn spec_zip_member_of(e: ArchiveEntry, method: CompressionMethod, level: i64)
    -> ZipMemberV {
    if e.kind is Directory {
        ZipMemberV {
            name: e.rel_path@,
            is_dir: true,
            data: Seq::empty(),
            mode: spec_entry_mode(e.mode),
            compression: None,
        }
    } else {
        ZipMemberV {
            name: e.rel_path@,
            is_dir: false,
            data: e.data@,
            mode: spec_entry_mode(e.mode),
            compression: Some((method, level)),
        }
    }
}

/// The member sequence the zip packer records for a walked folder.
pub open spec fn spec_zip_members(
    entries: Seq<ArchiveEntry>,
    method: CompressionMethod,
    level: i64,
) -> Seq<ZipMemberV> {
    entries.map_values(|e: ArchiveEntry| spec_zip_member_of(e, method, level))
}

/// The member sequence `zip_folder` writes for its inputs, under the
/// validated configuration.
pub open spec fn spec_zip_plan(
    entries: Seq<ArchiveEntry>,
    compression_type: Option<Seq<char>>,
    compression_level: Option<i64>,
) -> Seq<ZipMemberV> {
    let c = spec_build_config(compression_type, compression_level).unwrap();
    spec_zip_members(entries, c.method, c.level)
}

/// Pack a folder's entries into a zip container.
///
/// `folder_dir` is where the caller found the folder and `source_is_dir`
/// whether it is a directory; `existing` is the snapshot of occupied paths
/// at the output location.  The output name is the explicit name or the
/// folder's own name, with `.zip` appended and the conflict counter
/// spliced in before it.  The compression token and level are validated
/// before any archive bytes are produced.
pub fn zip_folder(
    folder_dir: &str,
    source_is_dir: bool,
    entries: &Vec<ArchiveEntry>,
    file_name: Option<&str>,
    compression_type: Option<&str>,
    compression_level: Option<i64>,
    output_dir: Option<&str>,
    existing: &Vec<String>,
) -> (r: Result<PackedArchive, FcError>)
    requires
        spec_entries_wf(entries@),
    ensures
        match r {
            Ok(p) => {
                &&& source_is_dir
                &&& spec_base_name(folder_dir@, spec_opt_str_view(file_name)) is Some
                &&& spec_build_config(spec_opt_str_view(compression_type), compression_level)
                    is Ok
                &&& spec_is_resolved(
                    spec_out_dir(folder_dir@, spec_opt_str_view(output_dir)),
                    spec_base_name(folder_dir@, spec_opt_str_view(file_name)).unwrap(),
                    ".zip"@,
                    existing@,
                    p.target,
                )
                &&& spec_zip_accepts_all(
                    spec_zip_plan(entries@, spec_opt_str_view(compression_type), compression_level),
                )
                &&& zip_finish_ok(
                    spec_zip_plan(entries@, spec_opt_str_view(compression_type), compression_level),
                )
                &&& p.bytes@ == zip_bytes_of(
                    spec_zip_plan(entries@, spec_opt_str_view(compression_type), compression_level),
                )
                &&& forall|i: int|
                    0 <= i < entries@.len() && (#[trigger] entries@[i]).kind is File
                        ==> spec_zip_codec_level_ok(
                        spec_build_config(
                            spec_opt_str_view(compression_type),
                            compression_level,
                        ).unwrap().method,
                        spec_build_config(
                            spec_opt_str_view(compression_type),
                            compression_level,
                        ).unwrap().level,
                    )
            },
            Err(e) => match e {
                FcError::NotADirectory => !source_is_dir,
                FcError::InvalidPath => source_is_dir && spec_base_name(
                    folder_dir@,
                    spec_opt_str_view(file_name),
                ) is None,
                FcError::UnsupportedCompressionMethod => {
                    &&& source_is_dir
                    &&& spec_base_name(folder_dir@, spec_opt_str_view(file_name)) is Some
                    &&& spec_build_config(spec_opt_str_view(compression_type), compression_level)
                        == Err::<crate::config::CompressionConfig, FcError>(
                        FcError::UnsupportedCompressionMethod,
                    )
                },
                FcError::InvalidCompressionLevel => {
                    &&& source_is_dir
                    &&& spec_base_name(folder_dir@, spec_opt_str_view(file_name)) is Some
                    &&& spec_build_config(spec_opt_str_view(compression_type), compression_level)
                        == Err::<crate::config::CompressionConfig, FcError>(
                        FcError::InvalidCompressionLevel,
                    )
                },
                FcError::ArchiveWriteError => {
                    &&& source_is_dir
                    &&& spec_base_name(folder_dir@, spec_opt_str_view(file_name)) is Some
                    &&& spec_build_config(spec_opt_str_view(compression_type), compression_level)
                        is Ok
                    &&& {
                        ||| !spec_zip_accepts_all(
                            spec_zip_plan(
                                entries@,
                                spec_opt_str_view(compression_type),
                                compression_level,
                            ),
                        )
                        ||| !zip_finish_ok(
                            spec_zip_plan(
                                entries@,
                                spec_opt_str_view(compression_type),
                                compression_level,
                            ),
                        )
                    }
                },
                _ => false,
            },
        },
{
    if !source_is_dir {
        return Err(FcError::NotADirectory);
    }
    let name = match base_name(folder_dir, file_name) {
        Some(n) => n,
        None => {
            return Err(FcError::InvalidPath);
        },
    };
    let config = match build_config(compression_type, compression_level) {
        Ok(c) => c,
        Err(e) => {
            return Err(e);
        },
    };
    let dir = out_dir(folder_dir, output_dir);
    let target = resolve_free_target(dir.as_str(), name.as_str(), ".zip", existing);
    let ghost plan = spec_zip_plan(entries@, spec_opt_str_view(compression_type), compression_level);
    proof {
        assert(plan =~= spec_zip_members(entries@, config.method, config.level));
    }
    let mut writer = zip_writer_new();
    let mut i: usize = 0;
    while i < entries.len()
        invariant
            i <= entries@.len(),
            source_is_dir,
            spec_base_name(folder_dir@, spec_opt_str_view(file_name)) is Some,
            spec_build_config(spec_opt_str_view(compression_type), compression_level) == Ok::<
                crate::config::CompressionConfig,
                FcError,
            >(config),
            plan == spec_zip_plan(entries@, spec_opt_str_view(compression_type), compression_level),
            plan == spec_zip_members(entries@, config.method, config.level),
            zip_written(writer) == spec_zip_members(
                entries@.take(i as int),
                config.method,
                config.level,
            ),
            spec_zip_accepts_all(
                spec_zip_members(entries@.take(i as int), config.method, config.level),
            ),
            forall|j: int|
                0 <= j < i && (#[trigger] entries@[j]).kind is File ==> spec_zip_codec_level_ok(
                    config.method,
                    config.level,
                ),
        decreases entries@.len() - i,
    {
        let e = &entries[i];
        let mode = match e.mode {
            Some(m) => m,
            None => 0o755,
        };
        let ghost before = spec_zip_members(entries@.take(i as int), config.method, config.level);
        let ghost member = spec_zip_member_of(entries@[i as int], config.method, config.level);
        let step = match e.kind {
            EntryKind::File => zip_add_file(
                &mut writer,
                e.rel_path.as_str(),
                &e.data,
                config.method,
                config.level,
                mode,
            ),
            EntryKind::Directory => zip_add_dir(&mut writer, e.rel_path.as_str(), mode),
        };
        if step.is_err() {
            proof {
                assert(!zip_member_accepted(before, member));
                assert(plan.take(i as int) =~= before);
                assert(plan[i as int] == member);
                if spec_zip_accepts_all(plan) {
                    lemma_zip_accepts_all_prefix(plan, i as int);
                }
                assert(!spec_zip_accepts_all(plan));
            }
            return Err(FcError::ArchiveWriteError);
        }
        proof {
            assert(entries@.take(i + 1).map_values(
                |e0: ArchiveEntry| spec_zip_member_of(e0, config.method, config.level),
            ) =~= entries@.take(i as int).map_values(
                |e0: ArchiveEntry| spec_zip_member_of(e0, config.method, config.level),
            ).push(spec_zip_member_of(entries@[i as int], config.method, config.level)));
            let after = spec_zip_members(entries@.take(i + 1), config.method, config.level);
            assert(after.drop_last() =~= before);
            assert(after.last() == member);
            assert(spec_zip_accepts_all(after));
        }
        i += 1;
    }
    proof {
        assert(entries@.take(entries@.len() as int) =~= entries@);
    }
    match zip_finish(writer) {
        Ok(bytes) => Ok(PackedArchive { target, bytes }),
        Err(_) => {
            proof {
                assert(!zip_finish_ok(plan));
            }
            Err(FcError::ArchiveWriteError)
        },
    }
}

/// Unpack a zip container into its member entries.
///
/// The output root is the explicit name or the archive's stem, with the
/// conflict counter appended; the members come back in archive order, with
/// their names already sanitised against path traversal by the zip
/// reader's name mangling.
pub fn unzip_folder(
    zip_file_dir: &str,
    source_is_file: bool,
    bytes: &Vec<u8>,
    file_name: Option<&str>,
    output_dir: Option<&str>,
    existing: &Vec<String>,
) -> (r: Result<UnpackedArchive, FcError>)
    ensures
        match r {
            Ok(u) => {
                &&& source_is_file
                &&& spec_stem_name(zip_file_dir@, spec_opt_str_view(file_name)) is Some
                &&& spec_is_resolved(
                    spec_out_dir(zip_file_dir@, spec_opt_str_view(output_dir)),
                    spec_stem_name(zip_file_dir@, spec_opt_str_view(file_name)).unwrap(),
                    ""@,
                    existing@,
                    u.target,
                )
                &&& zip_members_of(bytes@) is Some
                &&& spec_members_readable(zip_members_of(bytes@).unwrap())
                &&& spec_entry_views(u.entries@) == spec_member_entries(
                    zip_members_of(bytes@).unwrap(),
                )
                &&& forall|i: int|
                    0 <= i < u.entries@.len() ==> spec_sanitized_path(
                        (#[trigger] u.entries@[i]).rel_path@,
                    )
            },
            Err(e) => match e {
                FcError::NotAFile => !source_is_file,
                FcError::InvalidPath => source_is_file && spec_stem_name(
                    zip_file_dir@,
                    spec_opt_str_view(file_name),
                ) is None,
                FcError::ArchiveReadError => {
                    &&& source_is_file
                    &&& spec_stem_name(zip_file_dir@, spec_opt_str_view(file_name)) is Some
                    &&& {
                        ||| zip_members_of(bytes@) is None
                        ||| !spec_members_readable(zip_members_of(bytes@).unwrap())
                    }
                },
                _ => false,
            },
        },
{
    if !source_is_file {
        return Err(FcError::NotAFile);
    }
    let name = match stem_name(zip_file_dir, file_name) {
        Some(n) => n,
        None => {
            return Err(FcError::InvalidPath);
        },
    };
    let dir = out_dir(zip_file_dir, output_dir);
    let target = resolve_free_target(dir.as_str(), name.as_str(), "", existing);
    let mut archive = match zip_open(bytes) {
        Ok(a) => a,
        Err(_) => {
            return Err(FcError::ArchiveReadError);
        },
    };
    let count = zip_member_count(&archive);
    let mut out: Vec<ArchiveEntry> = Vec::new();
    let mut i: usize = 0;
    while i < count
        invariant
            i <= count,
            source_is_file,
            spec_stem_name(zip_file_dir@, spec_opt_str_view(file_name)) is Some,
            count == zip_archive_members(archive).len(),
            zip_archive_members(archive) == zip_members_of(bytes@).unwrap(),
            zip_members_of(bytes@) is Some,
            forall|j: int| 0 <= j < i ==> (#[trigger] zip_archive_members(archive)[j]) is Some,
            spec_entry_views(out@) == spec_member_entries(
                zip_archive_members(archive).take(i as int),
            ),
            forall|j: int|
                0 <= j < out@.len() ==> spec_sanitized_path((#[trigger] out@[j]).rel_path@),
        decreases count - i,
    {
        let entry = match zip_read_member(&mut archive, i) {
            Ok(e) => e,
            Err(_) => {
                proof {
                    assert(!(zip_archive_members(archive)[i as int] is Some));
                    assert(!spec_members_readable(zip_archive_members(archive)));
                }
                return Err(FcError::ArchiveReadError);
            },
        };
        let ghost prev = out@;
        out.push(entry);
        proof {
            let members = zip_archive_members(archive);
            assert(members[i as int] is Some);
            assert(entry@ == members[i as int].unwrap());
            assert(spec_entry_views(prev).len() == prev.len());
            assert(prev.len() == i as int);
            assert(out@ == prev.push(entry));
            assert forall|j: int| 0 <= j < i + 1 implies #[trigger] spec_entry_views(out@)[j]
                == spec_member_entries(members.take(i + 1))[j] by {
                if j < i {
                    assert(spec_entry_views(prev)[j] == spec_member_entries(
                        members.take(i as int),
                    )[j]);
                    assert(out@[j] == prev[j]);
                } else {
                    assert(out@[j] == entry);
                }
            }
            assert(spec_entry_views(out@) =~= spec_member_entries(members.take(i + 1)));
            assert forall|j: int| 0 <= j < out@.len() implies spec_sanitized_path(
                (#[trigger] out@[j]).rel_path@,
            ) by {
                if j < i {
                    assert(out@[j] == prev[j]);
                } else {
                    assert(out@[j] == entry);
                }
            }
        }
        i += 1;
    }
    proof {
        let members = zip_archive_members(archive);
        assert(members.take(count as int) =~= members);
        assert(spec_members_readable(members));
    }
    Ok(UnpackedArchive { target, entries: out })
}

} // verus!
