pub mod embedding_cache;
pub mod migrations;
pub mod schema;
pub mod store;
pub mod vector_index;

use vstd::prelude::*;

use crate::text::{push_str, str_chars};

verus! {

/// `base` joined with the relative or absolute path `part`, as `Path::join` does on Unix:
/// an absolute part replaces the base; otherwise a `/` separates them unless the base is
/// empty or already ends with one.
pub open spec fn path_join(base: Seq<char>, part: Seq<char>) -> Seq<char> {
    if part.len() > 0 && part[0] == '/' {
        part
    } else if base.len() == 0 || base.last() == '/' {
        base + part
    } else {
        base + "/"@ + part
    }
}

/// `base` joined with `part`.
pub fn join_path(base: &str, part: &str) -> (r: String)
    ensures
        r@ == path_join(base@, part@),
{
    let b = str_chars(base);
    let p = str_chars(part);
    if p.len() > 0 && p[0] == '/' {
        return part.to_owned();
    }
    let mut r = base.to_owned();
    if !(b.len() == 0 || b[b.len() - 1] == '/') {
        push_str(&mut r, "/");
    }
    push_str(&mut r, part);
    r
}

/// Where a repository's semantic store lives: `<runtime root>/data/semantic/<repo>/semantic.sqlite3`.
pub fn default_store_path(runtime_root: &str, repo_id: &str) -> (r: String)
    ensures
        r@ == path_join(path_join(path_join(path_join(runtime_root@, "data"@), "semantic"@), repo_id@), "semantic.sqlite3"@),
{
    let a = join_path(runtime_root, "data");
    let b = join_path(a.as_str(), "semantic");
    let c = join_path(b.as_str(), repo_id);
    join_path(c.as_str(), "semantic.sqlite3")
}

} // verus!
