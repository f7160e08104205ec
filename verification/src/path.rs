//! Paths are held as their bytes (the encoding of the operating system's
//! path strings), and joined by the rule of `PathBuf::push` on Unix.
use vstd::prelude::*;

use crate::text::append_bytes;

verus! {

/// The separator byte, `b'/'`.
pub open spec fn is_separator(b: u8) -> bool {
    b == 47
}

/// `base` with `rel` adjoined: an absolute `rel` replaces `base`; otherwise a
/// separator is put between them unless `base` is empty or already ends in
/// one.
pub open spec fn join_path(base: Seq<u8>, rel: Seq<u8>) -> Seq<u8> {
    if rel.len() > 0 && is_separator(rel[0]) {
        rel
    } else if base.len() == 0 || is_separator(base.last()) {
        base + rel
    } else {
        base.push(47u8) + rel
    }
}

/// Adjoins `rel` to `base`, as `Path::join` does on Unix.
pub fn join(base: &[u8], rel: &[u8]) -> (joined: Vec<u8>)
    ensures
        joined@ == join_path(base@, rel@),
{
    let mut out: Vec<u8> = Vec::new();
    if rel.len() > 0 && rel[0] == 47 {
        append_bytes(&mut out, rel);
        assert(out@ =~= rel@);
    } else {
        append_bytes(&mut out, base);
        if !(base.len() == 0 || base[base.len() - 1] == 47) {
            out.push(47u8);
        }
        append_bytes(&mut out, rel);
        assert(out@ =~= join_path(base@, rel@));
    }
    out
}

/// Joining a relative name never loses the base: the result starts with it.
pub proof fn lemma_join_relative_keeps_base(base: Seq<u8>, rel: Seq<u8>)
    requires
        !(rel.len() > 0 && is_separator(rel[0])),
    ensures
        join_path(base, rel).subrange(0, base.len() as int) == base,
        join_path(base, rel).subrange(join_path(base, rel).len() - rel.len(), join_path(base, rel).len() as int) == rel,
{
    let j = join_path(base, rel);
    assert(j.subrange(0, base.len() as int) =~= base);
    assert(j.subrange(j.len() - rel.len(), j.len() as int) =~= rel);
}

} // verus!
