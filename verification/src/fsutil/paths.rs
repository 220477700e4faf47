//! Paths and search paths as text.
//!
//! A search path is a list of directories in one string, as in the `PATH`
//! variable. What separates its entries, and the parts of a path, depends
//! on the platform.

use crate::text::{fields, join, joined, lemma_fields_len, push_char};
use crate::text::{replace_char, replaced, texts};
use camino::Utf8Path;
use vstd::prelude::*;

verus! {

/// The conventions that paths follow.
#[derive(Clone, Copy, Debug, PartialEq, Eq, Structural)]
pub enum Platform {
    /// Slashes in paths, colons in search paths.
    Unix,
    /// Backslashes in paths, semicolons in search paths.
    Windows,
}

impl Platform {
    /// What separates the entries of a search path.
    pub open spec fn list_sep(self) -> char {
        match self {
            Platform::Unix => ':',
            Platform::Windows => ';',
        }
    }

    /// What separates the parts of a path.
    pub open spec fn path_sep(self) -> char {
        match self {
            Platform::Unix => '/',
            Platform::Windows => '\\',
        }
    }

    /// What separates the parts of a path on the other platform.
    pub open spec fn foreign_sep(self) -> char {
        match self {
            Platform::Unix => '\\',
            Platform::Windows => '/',
        }
    }

    /// What separates the entries of a search path.
    pub fn list_separator(self) -> (r: char)
        ensures
            r == self.list_sep(),
    {
        match self {
            Platform::Unix => ':',
            Platform::Windows => ';',
        }
    }

    /// What separates the parts of a path.
    pub fn path_separator(self) -> (r: char)
        ensures
            r == self.path_sep(),
    {
        match self {
            Platform::Unix => '/',
            Platform::Windows => '\\',
        }
    }

    /// What separates the parts of a path on the other platform.
    pub fn foreign_separator(self) -> (r: char)
        ensures
            r == self.foreign_sep(),
    {
        match self {
            Platform::Unix => '\\',
            Platform::Windows => '/',
        }
    }

    /// The platform that a path separator belongs to.
    pub fn of_separator(sep: char) -> (r: Platform)
        ensures
            r == if sep == '\\' {
                Platform::Windows
            } else {
                Platform::Unix
            },
    {
        if sep == '\\' {
            Platform::Windows
        } else {
            Platform::Unix
        }
    }

    /// The platform that this program was built for.
    pub fn current() -> Platform {
        Platform::of_separator(main_separator())
    }
}

/// Reads `std::path::MAIN_SEPARATOR`, the path separator of the platform
/// that the program was built for. Nothing is claimed of it.
#[verifier::external_body]
fn main_separator() -> (r: char) {
    std::path::MAIN_SEPARATOR
}

/// Calls `Utf8Path::new(base).join(part)`, which adjoins `part` to `base`
/// by the rules of the platform. Nothing is claimed of the result.
#[verifier::external_body]
fn join_path(base: &str, part: &str) -> (r: String) {
    Utf8Path::new(base).join(part).into_string()
}

/// `path` with the other platform's separator replaced by `platform`'s.
pub open spec fn normalized(path: Seq<char>, platform: Platform) -> Seq<char> {
    replaced(path, platform.foreign_sep(), platform.path_sep())
}

/// Those of `parts` that are not empty, in order.
pub open spec fn non_empty(parts: Seq<Seq<char>>) -> Seq<Seq<char>>
    decreases parts.len(),
{
    if parts.len() == 0 {
        Seq::empty()
    } else if parts.last().len() > 0 {
        non_empty(parts.drop_last()).push(parts.last())
    } else {
        non_empty(parts.drop_last())
    }
}

/// The entries of the search path `s`: its fields between occurrences of
/// `sep` that are not empty.
pub open spec fn entries(s: Seq<char>, sep: char) -> Seq<Seq<char>> {
    non_empty(fields(s, sep))
}

/// The search path `curr` with `new_dir`, normalized, as its last entry.
pub open spec fn env_path_spec(curr: Seq<char>, new_dir: Seq<char>, platform: Platform) -> Seq<
    char,
> {
    joined(
        entries(curr, platform.list_sep()).push(normalized(new_dir, platform)),
        seq![platform.list_sep()],
    )
}

/// The search path that has each of `dirs`, normalized, before the
/// entries of `curr`.
pub open spec fn tools_paths_spec(dirs: Seq<Seq<char>>, curr: Seq<char>, platform: Platform) -> Seq<
    char,
> {
    joined(
        dirs.map_values(|d: Seq<char>| normalized(d, platform)) + entries(
            curr,
            platform.list_sep(),
        ),
        seq![platform.list_sep()],
    )
}

/// The path with the separators of the other platform replaced by those
/// of `platform`.
pub fn normalize_path_on(path: &str, platform: Platform) -> (r: String)
    ensures
        r@ == normalized(path@, platform),
{
    replace_char(path, platform.foreign_separator(), platform.path_separator())
}

/// The path with the separators of the other platform replaced by those
/// of the platform that the program was built for.
pub fn normalize_path(path: &str) -> (r: String)
    ensures
        exists|platform: Platform| r@ == normalized(path@, platform),
{
    let platform = Platform::current();
    let r = normalize_path_on(path, platform);
    assert(r@ == normalized(path@, platform));
    r
}

/// The entries of the search path `s`: what stands between occurrences of
/// `sep`, where it is not empty.
pub fn split_entries(s: &str, sep: char) -> (r: Vec<String>)
    ensures
        texts(r@) == entries(s@, sep),
{
    let mut out: Vec<String> = Vec::new();
    let mut cur = String::new();
    proof {
        assert(s@.take(0) =~= Seq::<char>::empty());
        assert(fields(s@.take(0), sep).drop_last() =~= Seq::<Seq<char>>::empty());
        assert(texts(out@) =~= Seq::<Seq<char>>::empty());
    }
    for c in it: s.chars()
        invariant
            it.seq() == s@,
            texts(out@) == non_empty(fields(s@.take(it.index() as int), sep).drop_last()),
            cur@ == fields(s@.take(it.index() as int), sep).last(),
    {
        let ghost prefix = s@.take(it.index() as int);
        let ghost next = s@.take(it.index() + 1);
        let ghost before = fields(prefix, sep);
        proof {
            lemma_fields_len(prefix, sep);
            assert(next.drop_last() =~= prefix);
            assert(next.last() == c);
        }
        if c == sep {
            proof {
                assert(before.push(Seq::<char>::empty()).drop_last() =~= before);
            }
            if !cur.as_str().is_empty() {
                let ghost earlier = texts(out@);
                out.push(cur);
                proof {
                    assert(texts(out@) =~= earlier.push(before.last()));
                }
            }
            cur = String::new();
        } else {
            push_char(&mut cur, c);
            proof {
                let grown = before.drop_last().push(before.last().push(c));
                assert(grown.drop_last() =~= before.drop_last());
            }
        }
    }
    proof {
        assert(s@.take(s@.len() as int) =~= s@);
        lemma_fields_len(s@, sep);
    }
    if !cur.as_str().is_empty() {
        let ghost earlier = texts(out@);
        out.push(cur);
        proof {
            assert(texts(out@) =~= earlier.push(fields(s@, sep).last()));
        }
    }
    out
}

/// The search path `curr` with `new_dir` as its last entry, on `platform`.
/// Empty entries of `curr` are left out.
pub fn add_env_path_on(curr: &str, new_dir: &str, platform: Platform) -> (r: String)
    ensures
        r@ == env_path_spec(curr@, new_dir@, platform),
{
    let mut parts = split_entries(curr, platform.list_separator());
    let ghost earlier = texts(parts@);
    let last = normalize_path_on(new_dir, platform);
    parts.push(last);
    proof {
        assert(texts(parts@) =~= earlier.push(last@));
    }
    join_with(&parts, platform.list_separator())
}

/// The search path `curr` with `new_dir` as its last entry, on the
/// platform that the program was built for.
pub fn add_env_path(curr: &str, new_dir: &str) -> (r: String)
    ensures
        exists|platform: Platform| r@ == env_path_spec(curr@, new_dir@, platform),
{
    let platform = Platform::current();
    let r = add_env_path_on(curr, new_dir, platform);
    assert(r@ == env_path_spec(curr@, new_dir@, platform));
    r
}

/// `parts` joined with the one character `sep` between neighbours.
fn join_with(parts: &Vec<String>, sep: char) -> (r: String)
    ensures
        r@ == joined(texts(parts@), seq![sep]),
{
    let mut between = String::new();
    push_char(&mut between, sep);
    proof {
        assert(between@ =~= seq![sep]);
    }
    join(parts, between.as_str())
}

/// The search path that has each of `dirs`, normalized, before the
/// entries of `curr`, on `platform`. Empty entries of `curr` are left out.
pub fn tools_paths_on(dirs: &Vec<String>, curr: &str, platform: Platform) -> (r: String)
    ensures
        r@ == tools_paths_spec(texts(dirs@), curr@, platform),
{
    let mut parts: Vec<String> = Vec::new();
    let ghost front = texts(dirs@).map_values(|d: Seq<char>| normalized(d, platform));
    let mut i: usize = 0;
    proof {
        assert(texts(parts@) =~= front.take(0));
    }
    while i < dirs.len()
        invariant
            i <= dirs.len(),
            front == texts(dirs@).map_values(|d: Seq<char>| normalized(d, platform)),
            texts(parts@) == front.take(i as int),
        decreases dirs.len() - i,
    {
        let ghost earlier = texts(parts@);
        let next = normalize_path_on(dirs[i].as_str(), platform);
        parts.push(next);
        proof {
            assert(texts(parts@) =~= earlier.push(next@));
            assert(earlier.push(next@) =~= front.take(i + 1));
        }
        i += 1;
    }
    let found = split_entries(curr, platform.list_separator());
    let mut j: usize = 0;
    proof {
        assert(front.take(dirs.len() as int) =~= front);
        assert(front + texts(found@).take(0) =~= front);
    }
    while j < found.len()
        invariant
            j <= found.len(),
            texts(parts@) == front + texts(found@).take(j as int),
        decreases found.len() - j,
    {
        let ghost earlier = texts(parts@);
        let next = found[j].clone();
        parts.push(next);
        proof {
            assert(texts(parts@) =~= earlier.push(next@));
            assert(earlier.push(next@) =~= front + texts(found@).take(j + 1));
        }
        j += 1;
    }
    proof {
        assert(texts(found@).take(found.len() as int) =~= texts(found@));
    }
    join_with(&parts, platform.list_separator())
}

/// The search path for a build: three directories, normalized, before
/// the entries of `curr`, on the platform that the program was built for.
/// The three are `cmake`, `gcc` and `ninja`, each adjoined to `root` by the
/// rules of the platform.
pub fn get_tools_paths(root: &str, curr: &str) -> (r: String)
    ensures
        exists|platform: Platform, cmake: Seq<char>, gcc: Seq<char>, ninja: Seq<char>|
            r@ == tools_paths_spec(seq![cmake, gcc, ninja], curr@, platform),
{
    let platform = Platform::current();
    let cmake = join_path(root, "cmake");
    let gcc = join_path(root, "gcc");
    let ninja = join_path(root, "ninja");
    let mut dirs: Vec<String> = Vec::new();
    dirs.push(cmake);
    dirs.push(gcc);
    dirs.push(ninja);
    let r = tools_paths_on(&dirs, curr, platform);
    proof {
        assert(texts(dirs@) =~= seq![cmake@, gcc@, ninja@]);
        assert(r@ == tools_paths_spec(seq![cmake@, gcc@, ninja@], curr@, platform));
    }
    r
}

} // verus!
