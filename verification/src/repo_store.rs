use vstd::prelude::*;

use crate::digest::hex_digit;
use crate::text::{decimal, decimal_string, has_sub, opt_view, owned, push_str, string_push, utf8};

verus! {

/// How many rows each table of the repository store holds.
#[derive(Debug, Clone, Copy, PartialEq, Eq, Structural)]
pub struct StoreSummary {
    pub repo_count: usize,
    pub manifest_count: usize,
    pub event_count: usize,
    pub job_count: usize,
}

/// The FNV-1a offset basis.
pub const FNV_OFFSET_BASIS: u64 = 0xcbf29ce484222325;

/// The FNV-1a prime.
pub const FNV_PRIME: u64 = 0x100000001b3;

/// One FNV-1a step: the byte is folded in, then the hash multiplied by the prime,
/// wrapping.
pub open spec fn fnv_step(hash: u64, byte: u8) -> u64 {
    (((hash ^ (byte as u64)) as nat * FNV_PRIME as nat) % 0x1_0000_0000_0000_0000nat) as u64
}

/// The 64-bit FNV-1a hash of `bytes`.
pub open spec fn fnv1a(bytes: Seq<u8>) -> u64
    decreases bytes.len(),
{
    if bytes.len() == 0 {
        FNV_OFFSET_BASIS
    } else {
        fnv_step(fnv1a(bytes.drop_last()), bytes.last())
    }
}

/// The `n` low hexadecimal digits of `h`, most significant first.
pub open spec fn hex_fixed(h: nat, n: nat) -> Seq<char>
    decreases n,
{
    if n == 0 {
        Seq::empty()
    } else {
        hex_fixed(h / 16, (n - 1) as nat).push(hex_digit((h % 16) as u8))
    }
}

fn hex_char(d: u64) -> (c: char)
    requires
        d < 16,
    ensures
        c == hex_digit(d as u8),
{
    if d < 10 {
        ((48 + d) as u8) as char
    } else {
        ((87 + d) as u8) as char
    }
}

fn push_hex_fixed(out: &mut String, h: u64, n: usize)
    ensures
        final(out)@ == old(out)@ + hex_fixed(h as nat, n as nat),
    decreases n,
{
    if n > 0 {
        push_hex_fixed(out, h / 16, n - 1);
        string_push(out, hex_char(h % 16));
    }
}

/// The id of a repository: `repo-` and the FNV-1a hash of its root, as sixteen
/// hexadecimal digits.
pub fn repo_id_for_root(repo_root: &str) -> (r: String)
    ensures
        r@ == "repo-"@ + hex_fixed(fnv1a(utf8(repo_root@)) as nat, 16),
{
    let bytes = repo_root.as_bytes();
    let mut hash: u64 = FNV_OFFSET_BASIS;
    let mut i: usize = 0;
    while i < bytes.len()
        invariant
            0 <= i <= bytes@.len(),
            bytes@ == utf8(repo_root@),
            hash == fnv1a(bytes@.subrange(0, i as int)),
        decreases bytes@.len() - i,
    {
        assert(bytes@.subrange(0, i + 1).drop_last() =~= bytes@.subrange(0, i as int));
        hash = (hash ^ (bytes[i] as u64)).wrapping_mul(FNV_PRIME);
        i = i + 1;
    }
    assert(bytes@.subrange(0, bytes@.len() as int) =~= bytes@);
    let mut r = owned("repo-");
    push_hex_fixed(&mut r, hash, 16);
    r
}

/// The number that stores a flag in a database row.
pub fn bool_to_sqlite(value: bool) -> (r: i64)
    ensures
        r == (if value { 1i64 } else { 0i64 }),
{
    if value { 1 } else { 0 }
}

/// The lower-case form of a text under Unicode case rules.
pub uninterp spec fn unicode_lowercase(s: Seq<char>) -> Seq<char>;

/// `str::to_lowercase`: the text in lower case under Unicode case rules. The contract
/// names the result and says nothing of the case rules.
#[verifier::external_body]
fn lowercase(s: &str) -> (r: String)
    ensures
        r@ == unicode_lowercase(s@),
{
    s.to_lowercase()
}

/// Whether a database error message reports damage that rebuilding the store repairs.
pub open spec fn recoverable_message(lowered: Seq<char>) -> bool {
    has_sub(lowered, "malformed"@) || has_sub(lowered, "not a database"@)
        || has_sub(lowered, "sqlite health check failed"@)
        || has_sub(lowered, "database disk image is malformed"@)
}

/// Whether a database error message, in lower case, reports damage that rebuilding the
/// store repairs.
pub fn is_recoverable_sqlite_error(message: &str) -> (r: bool)
    ensures
        r == recoverable_message(unicode_lowercase(message@)),
{
    let lowered = lowercase(message);
    let l = lowered.as_str();
    crate::text::contains_str(l, "malformed") || crate::text::contains_str(l, "not a database")
        || crate::text::contains_str(l, "sqlite health check failed")
        || crate::text::contains_str(l, "database disk image is malformed")
}

/// The file name a quarantined artifact gets on its `ordinal`-th try.
pub fn quarantine_candidate_name(file_name: &str, ordinal: u32) -> (r: String)
    ensures
        r@ == file_name@ + ".corrupt-"@ + decimal(ordinal as nat),
{
    let mut r = owned(file_name);
    push_str(&mut r, ".corrupt-");
    push_str(&mut r, decimal_string(ordinal as u64).as_str());
    r
}

/// The last component of a path, as `Path::file_name` reads it.
pub uninterp spec fn path_file_name(path: Seq<char>) -> Option<Seq<char>>;

/// `std::path::Path::file_name` on a string path, as text. The contract names the
/// result and says nothing of how components are found.
#[verifier::external_body]
fn file_name_of(path: &str) -> (r: Option<String>)
    ensures
        opt_view(r) == path_file_name(path@),
{
    match std::path::Path::new(path).file_name() {
        Some(name) => match name.to_str() {
            Some(s) => Some(s.to_owned()),
            None => None,
        },
        None => None,
    }
}

/// The display name of a repository: the last component of its root, or the root
/// itself when it has none.
pub fn default_display_name(repo_root: &str) -> (r: String)
    ensures
        r@ == (match path_file_name(repo_root@) {
            Some(name) => name,
            None => repo_root@,
        }),
{
    match file_name_of(repo_root) {
        Some(name) => name,
        None => owned(repo_root),
    }
}

} // verus!
