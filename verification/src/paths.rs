//! Timing, and the joining of paths.
use vstd::prelude::*;
use vstd::string::*;
use std::time::{Duration, Instant};
use crate::failure::{Error, Result};
use crate::text::{lemma_trimmed_shorter, occurs_at, starts_with, trim_start_all, trimmed};

verus! {

/// `std::time::Instant`, a point in time, carried as it is.
#[verifier::external_type_specification]
#[verifier::external_body]
pub struct ExInstant(Instant);

/// The present instant, from `Instant::now`. Nothing is claimed of it.
#[verifier::external_body]
fn now() -> Instant {
    Instant::now()
}

/// The time from `start` to `end`, from
/// `Instant::saturating_duration_since`, which gives zero where `end` is the
/// earlier of the two. Nothing is claimed of it.
#[verifier::external_body]
fn between(start: &Instant, end: &Instant) -> Duration {
    end.saturating_duration_since(*start)
}

/// The parent that `Path::parent` gives for the path written as `path`;
/// `None` where the path ends in a root or is empty.
pub uninterp spec fn path_parent(path: Seq<char>) -> Option<Seq<char>>;

/// The path that `Path::join` makes of the paths written as `base` and
/// `rest`.
pub uninterp spec fn path_joined(base: Seq<char>, rest: Seq<char>) -> Seq<char>;

/// The parent of `path`, from `Path::parent`, as text.
#[verifier::external_body]
fn parent_of(path: &str) -> (r: Option<String>)
    ensures
        match r {
            Some(p) => path_parent(path@) == Some(p@),
            None => path_parent(path@) is None,
        },
{
    std::path::Path::new(path).parent().map(|p| p.to_string_lossy().into_owned())
}

/// `rest` adjoined to `base`, from `Path::join`, as text.
#[verifier::external_body]
pub(crate) fn adjoin(base: &str, rest: &str) -> (r: String)
    ensures
        r@ == path_joined(base@, rest@),
{
    std::path::Path::new(base).join(rest).to_string_lossy().into_owned()
}

/// The path written as `path` taken relative to `root`: `path` itself where
/// it is absolute.
pub fn resolve(path: &str, root: &str) -> (r: String)
    ensures
        r@ == path_joined(root@, path@),
{
    adjoin(root, path)
}

/// Runs `f` and gives back what it returns, with the time that it took.
pub fn measure<T, F: FnOnce() -> T>(f: F) -> (r: (Duration, T))
    requires
        f.requires(()),
    ensures
        f.ensures((), r.1),
{
    let start = now();
    let r = f();
    let end = now();
    (between(&start, &end), r)
}

/// The base and the path that are left once every leading `../` of `path`
/// has been paid for with a step from `base` to its parent; `None` where a
/// parent is missing.
pub open spec fn climbed(base: Seq<char>, path: Seq<char>) -> Option<(Seq<char>, Seq<char>)>
    decreases path.len(),
{
    if occurs_at(path, 0, "../"@) && trimmed(path, ".."@).len() < path.len() {
        match path_parent(base) {
            Some(parent) => climbed(parent, trimmed(path, ".."@)),
            None => None,
        }
    } else {
        Some((base, path))
    }
}

/// The path that joining `part` to `base` gives: the leading `./` of `part`
/// are dropped, each leading `../` climbs from the base to its parent, and
/// what is left is adjoined.
pub open spec fn joined_path(base: Seq<char>, part: Seq<char>) -> Option<Seq<char>> {
    match climbed(base, trimmed(part, "./"@)) {
        Some((b, p)) => Some(path_joined(b, p)),
        None => None,
    }
}

/// Joins the path `part` to `base`. Fails where `part` climbs above a base
/// that has no parent.
pub fn join(base: &str, part: &str) -> (r: Result<String>)
    ensures
        match r {
            Ok(p) => joined_path(base@, part@) == Some(p@),
            Err(e) => joined_path(base@, part@) is None && (e.kind matches crate::failure::ErrorKind::Msg(
                m,
            ) && m@ == "could not resolve"@),
        },
{
    let mut path = String::from_str(trim_start_all(part, "./"));
    let mut at = String::from_str(base);
    while starts_with(path.as_str(), "../")
        invariant
            climbed(at@, path@) == climbed(base@, trimmed(part@, "./"@)),
        decreases path@.len(),
    {
        proof {
            reveal_strlit("../");
            reveal_strlit("..");
            assert(path@.subrange(0, 2) =~= path@.subrange(0, 3).subrange(0, 2));
            assert(path@.subrange(0, 2) =~= ".."@);
            assert(occurs_at(path@, 0, ".."@));
            lemma_trimmed_shorter(path@, ".."@);
        }
        let parent = match parent_of(at.as_str()) {
            Some(p) => p,
            None => {
                return Err(Error::msg("could not resolve"));
            },
        };
        at = parent;
        path = String::from_str(trim_start_all(path.as_str(), ".."));
    }
    Ok(adjoin(at.as_str(), path.as_str()))
}

/// The path that joining each of the first `n` of `parts` in turn gives,
/// starting from `base`.
pub open spec fn joined_all(base: Seq<char>, parts: Seq<String>, n: nat) -> Option<Seq<char>>
    decreases n,
{
    if n == 0 || n > parts.len() {
        Some(base)
    } else {
        match joined_all(base, parts, (n - 1) as nat) {
            Some(p) => joined_path(p, parts[n - 1]@),
            None => None,
        }
    }
}

/// Joins each of `parts` in turn, starting from `base`. Fails as the first
/// join that fails.
pub fn join_slice(base: &str, parts: &Vec<String>) -> (r: Result<String>)
    ensures
        match r {
            Ok(p) => joined_all(base@, parts@, parts.len() as nat) == Some(p@),
            Err(_) => joined_all(base@, parts@, parts.len() as nat) is None,
        },
{
    let mut path = String::from_str(base);
    let mut i: usize = 0;
    while i < parts.len()
        invariant
            i <= parts.len(),
            joined_all(base@, parts@, i as nat) == Some(path@),
        decreases parts.len() - i,
    {
        match join(path.as_str(), parts[i].as_str()) {
            Ok(p) => {
                path = p;
            },
            Err(e) => {
                proof {
                    lemma_joined_all_fails(base@, parts@, (i + 1) as nat, parts.len() as nat);
                }
                return Err(e);
            },
        }
        i += 1;
    }
    Ok(path)
}

/// Once a join has failed, joining more fails too.
pub proof fn lemma_joined_all_fails(base: Seq<char>, parts: Seq<String>, m: nat, n: nat)
    requires
        m <= n <= parts.len(),
        joined_all(base, parts, m) is None,
    ensures
        joined_all(base, parts, n) is None,
    decreases n,
{
    if m < n {
        lemma_joined_all_fails(base, parts, m, (n - 1) as nat);
    }
}

} // verus!
