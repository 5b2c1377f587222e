//! File magic values and format versions.
use vstd::prelude::*;

verus! {

/// `ggjt`: versioned weights, the current layout.
pub const LLAMA_FILE_MAGIC_GGJT: u32 = 0x67676a74;
/// `ggla`: a LoRA adapter.
pub const LLAMA_FILE_MAGIC_GGLA: u32 = 0x67676c61;
/// `ggmf`: versioned weights, the earlier layout.
pub const LLAMA_FILE_MAGIC_GGMF: u32 = 0x67676d66;
/// `ggml`: legacy weights without a version field.
pub const LLAMA_FILE_MAGIC_GGML: u32 = 0x67676d6c;
/// `ggsn`: a session snapshot.
pub const LLAMA_FILE_MAGIC_GGSN: u32 = 0x6767736e;

/// The newest weight-file version this reader understands.
pub const LLAMA_FILE_VERSION: u32 = 3;
/// The magic written to new weight files.
pub const LLAMA_FILE_MAGIC: u32 = LLAMA_FILE_MAGIC_GGJT;
/// The magic of weight files that carry no version.
pub const LLAMA_FILE_MAGIC_UNVERSIONED: u32 = LLAMA_FILE_MAGIC_GGML;
/// The magic of session snapshots.
pub const LLAMA_SESSION_MAGIC: u32 = LLAMA_FILE_MAGIC_GGSN;
/// The one session-snapshot version this reader understands.
pub const LLAMA_SESSION_VERSION: u32 = 1;

/// The kind of file that a header magic names.
#[derive(Debug, Clone, Copy, PartialEq, Eq, Structural)]
pub enum FormatKind {
    /// Versioned weights, current layout (`ggjt`).
    Ggjt,
    /// LoRA adapter (`ggla`).
    Ggla,
    /// Versioned weights, earlier layout (`ggmf`).
    Ggmf,
    /// Unversioned legacy weights (`ggml`).
    Ggml,
    /// Session snapshot (`ggsn`).
    Ggsn,
}

/// Why a file header was rejected.
#[derive(Debug, Clone, Copy, PartialEq, Eq, Structural)]
pub enum FormatError {
    /// The magic is none of the known ones.
    UnknownMagic(u32),
    /// The kind is known but its version is not supported.
    UnsupportedVersion { kind: FormatKind, version: u32 },
}

/// The magic value of each kind.
pub open spec fn magic_of(kind: FormatKind) -> u32 {
    match kind {
        FormatKind::Ggjt => LLAMA_FILE_MAGIC_GGJT,
        FormatKind::Ggla => LLAMA_FILE_MAGIC_GGLA,
        FormatKind::Ggmf => LLAMA_FILE_MAGIC_GGMF,
        FormatKind::Ggml => LLAMA_FILE_MAGIC_GGML,
        FormatKind::Ggsn => LLAMA_FILE_MAGIC_GGSN,
    }
}

/// Whether `magic` is the magic of some kind.
pub open spec fn is_known_magic(magic: u32) -> bool {
    exists|k: FormatKind| magic_of(k) == magic
}

/// Which versions a reader accepts for each kind: none is checked for the
/// unversioned legacy kind, a session snapshot must match exactly, and the
/// other kinds accept every version from 1 up to the current one.
pub open spec fn version_accepted(kind: FormatKind, version: u32) -> bool {
    match kind {
        FormatKind::Ggml => true,
        FormatKind::Ggsn => version == LLAMA_SESSION_VERSION,
        _ => 1 <= version && version <= LLAMA_FILE_VERSION,
    }
}

/// Tells which kind of file a header magic names.
pub fn identify(magic: u32) -> (r: Result<FormatKind, FormatError>)
    ensures
        match r {
            Ok(k) => magic_of(k) == magic,
            Err(e) => e == FormatError::UnknownMagic(magic) && !is_known_magic(magic),
        },
{
    if magic == LLAMA_FILE_MAGIC_GGJT {
        Ok(FormatKind::Ggjt)
    } else if magic == LLAMA_FILE_MAGIC_GGLA {
        Ok(FormatKind::Ggla)
    } else if magic == LLAMA_FILE_MAGIC_GGMF {
        Ok(FormatKind::Ggmf)
    } else if magic == LLAMA_FILE_MAGIC_GGML {
        Ok(FormatKind::Ggml)
    } else if magic == LLAMA_FILE_MAGIC_GGSN {
        Ok(FormatKind::Ggsn)
    } else {
        assert forall|k: FormatKind| magic_of(k) != magic by {
            match k {
                FormatKind::Ggjt => {},
                FormatKind::Ggla => {},
                FormatKind::Ggmf => {},
                FormatKind::Ggml => {},
                FormatKind::Ggsn => {},
            }
        }
        Err(FormatError::UnknownMagic(magic))
    }
}

/// Distinct kinds have distinct magic values, so a magic names at most one
/// kind and `identify` can never mistake one kind for another.
pub proof fn lemma_magic_distinct(a: FormatKind, b: FormatKind)
    ensures
        magic_of(a) == magic_of(b) <==> a == b,
{
}

/// Accepts or rejects the version read from a header of the given kind.
pub fn check_version(kind: FormatKind, version: u32) -> (r: Result<(), FormatError>)
    ensures
        r is Ok <==> version_accepted(kind, version),
        r is Err ==> r == Err::<(), FormatError>(FormatError::UnsupportedVersion { kind, version }),
{
    let ok = match kind {
        FormatKind::Ggml => true,
        FormatKind::Ggsn => version == LLAMA_SESSION_VERSION,
        _ => 1 <= version && version <= LLAMA_FILE_VERSION,
    };
    if ok {
        Ok(())
    } else {
        Err(FormatError::UnsupportedVersion { kind, version })
    }
}

/// Weight files of either versioned layout accept exactly the versions from 1
/// to 3.
pub proof fn lemma_weight_versions(version: u32)
    ensures
        version_accepted(FormatKind::Ggjt, version) <==> 1 <= version <= 3,
        version_accepted(FormatKind::Ggmf, version) <==> 1 <= version <= 3,
{
}

/// A session snapshot accepts version 1 and no other.
pub proof fn lemma_session_version_exact(version: u32)
    ensures
        version_accepted(FormatKind::Ggsn, version) <==> version == 1,
{
}

/// Identifies a header and checks its version: a known magic whose version is
/// accepted gives its kind, and a legacy `ggml` header is accepted whatever
/// its version field holds.
pub fn identify_header(magic: u32, version: u32) -> (r: Result<FormatKind, FormatError>)
    ensures
        match r {
            Ok(k) => magic_of(k) == magic && version_accepted(k, version),
            Err(FormatError::UnknownMagic(m)) => m == magic && !is_known_magic(magic),
            Err(FormatError::UnsupportedVersion { kind, version: v }) => magic_of(kind) == magic
                && v == version && !version_accepted(kind, version),
        },
{
    let kind = identify(magic)?;
    match check_version(kind, version) {
        Ok(()) => Ok(kind),
        Err(e) => Err(e),
    }
}

} // verus!
