//! Content-addressed staging identity: a deterministic hash of the
//! declared result type and the expression body text names the staged
//! auxiliary source file. Keying by the type as well keeps two
//! expressions with identical bodies but different declared types from
//! colliding on one staged filename.

use std::collections::hash_map::DefaultHasher;
use std::hash::Hasher;

use vstd::prelude::*;
use vstd::std_specs::hash::DefaultHasherAdditionalSpecFns;
use vstd::string::*;

use crate::strutil::{spec_dec, u64_to_dec};

verus! {

/// The content hash of a captured expression: the digest of the byte
/// encodings of the declared type and of the body text, written as two
/// chunks. Deterministic in those two texts alone, so two textually
/// identical expressions collapse to the same staged file.
pub open spec fn spec_content_hash(ty: Seq<char>, body: Seq<char>) -> u64 {
    DefaultHasher::spec_finish(
        seq![vstd::utf8::encode_utf8(ty), vstd::utf8::encode_utf8(body)],
    )
}

/// Hashes a captured expression, specified by `spec_content_hash`.
pub fn content_hash(ty: &str, body: &str) -> (h: u64)
    ensures
        h == spec_content_hash(ty@, body@),
{
    let mut hasher = DefaultHasher::new();
    hasher.write(ty.as_bytes());
    hasher.write(body.as_bytes());
    proof {
        assert(hasher@ =~= seq![
            vstd::utf8::encode_utf8(ty@),
            vstd::utf8::encode_utf8(body@),
        ]);
    }
    hasher.finish()
}

/// The file name of the staged auxiliary source for a captured
/// expression.
pub open spec fn spec_staged_name(ty: Seq<char>, body: Seq<char>) -> Seq<char> {
    "edg-"@ + spec_dec(spec_content_hash(ty, body) as nat) + ".rs"@
}

/// The full path of the staged auxiliary source inside the scratch
/// directory.
pub open spec fn spec_staged_path(out_dir: Seq<char>, ty: Seq<char>, body: Seq<char>) -> Seq<
    char,
> {
    out_dir + "/"@ + spec_staged_name(ty, body)
}

/// Builds the staged source path for a captured expression, specified
/// by `spec_staged_path`.
pub fn staged_path(out_dir: &str, ty: &str, body: &str) -> (r: String)
    ensures
        r@ == spec_staged_path(out_dir@, ty@, body@),
{
    let h = content_hash(ty, body);
    let mut r = out_dir.to_owned();
    r.append("/");
    r.append("edg-");
    let digits = u64_to_dec(h);
    r.append(digits.as_str());
    r.append(".rs");
    proof {
        assert(r@ =~= spec_staged_path(out_dir@, ty@, body@));
    }
    r
}

} // verus!
