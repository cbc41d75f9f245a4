//! What a page-extraction script hands back, as outcomes.
use vstd::prelude::*;
use vstd::string::*;
use crate::package::{Content, Package};
use crate::text::str_eq;
use crate::value::Value;
use crate::work::{Outcome, WorkOutput};

verus! {

/// The content of a package that a script hands back.
#[derive(Debug)]
pub enum ScriptContent {
    Text(String),
    Bytes(Vec<u8>),
    /// A value that is neither text nor bytes, by the name of its type.
    Other(String),
}

/// One entry of what a script hands back: its type, `ok` or `then`, and the
/// name and the content of its package.
#[derive(Debug)]
pub struct ScriptEntry {
    pub kind: String,
    pub name: String,
    pub content: ScriptContent,
}

/// The failure of an entry whose type is neither `ok` nor `then`.
pub open spec fn unknown_type() -> Seq<char> {
    "unknown entry type"@
}

/// The failure of an entry whose content is neither text nor bytes.
pub open spec fn invalid_content() -> Seq<char> {
    "invalid package content type"@
}

/// The outcome that an entry stands for: the package as a result for `ok`,
/// as a deferred payload for `then`; else the failure.
pub open spec fn entry_output(entry: ScriptEntry) -> Result<WorkOutput<Package>, Seq<char>> {
    if entry.kind@ != "ok"@ && entry.kind@ != "then"@ {
        Err(unknown_type())
    } else {
        match entry.content {
            ScriptContent::Other(_) => Err(invalid_content()),
            ScriptContent::Text(s) => Ok(
                wrapped(
                    entry.kind@,
                    Package { name: entry.name, content: Content::Value(Value::Text(s)) },
                ),
            ),
            ScriptContent::Bytes(b) => Ok(
                wrapped(entry.kind@, Package { name: entry.name, content: Content::Bytes(b) }),
            ),
        }
    }
}

/// The package as a result for the type `ok`, as a deferred payload else.
pub open spec fn wrapped(kind: Seq<char>, package: Package) -> WorkOutput<Package> {
    if kind == "ok"@ {
        WorkOutput::Result(Ok(package))
    } else {
        WorkOutput::Then(package)
    }
}

/// The outcomes that the entries stand for, in their order, or the failure
/// of the first entry that stands for none.
pub open spec fn parsed(entries: Seq<ScriptEntry>) -> Result<
    Seq<WorkOutput<Package>>,
    Seq<char>,
>
    decreases entries.len(),
{
    if entries.len() == 0 {
        Ok(Seq::empty())
    } else {
        match parsed(entries.drop_last()) {
            Err(e) => Err(e),
            Ok(rest) => match entry_output(entries.last()) {
                Ok(output) => Ok(rest.push(output)),
                Err(e) => Err(e),
            },
        }
    }
}

/// Reads what a script handed back as outcomes: an `ok` entry is a
/// successful result, a `then` entry a deferred payload. The first entry of
/// another type, or with a content that is neither text nor bytes, fails
/// the execution.
pub fn parse(entries: Vec<ScriptEntry>) -> (r: Outcome<Package>)
    ensures
        match r {
            Ok(list) => parsed(entries@) == Ok::<_, Seq<char>>(list@),
            Err(message) => parsed(entries@) == Err::<Seq<WorkOutput<Package>>, _>(message@),
        },
{
    let mut out: Vec<WorkOutput<Package>> = Vec::new();
    let ghost all = entries@;
    for entry in it: entries
        invariant
            it.seq() == all,
            parsed(all.take(it.index() as int)) == Ok::<_, Seq<char>>(out@),
    {
        let ghost i = it.index() as int;
        proof {
            assert(all.take(i + 1).drop_last() == all.take(i));
            assert(all.take(i + 1).last() == all[i]);
        }
        let ok = str_eq(entry.kind.as_str(), "ok");
        if !ok && !str_eq(entry.kind.as_str(), "then") {
            proof {
                lemma_parsed_fails(all, i + 1);
            }
            return Err(String::from_str("unknown entry type"));
        }
        let content = match entry.content {
            ScriptContent::Text(s) => Content::Value(Value::Text(s)),
            ScriptContent::Bytes(b) => Content::Bytes(b),
            ScriptContent::Other(_) => {
                proof {
                    lemma_parsed_fails(all, i + 1);
                }
                return Err(String::from_str("invalid package content type"));
            },
        };
        let package = Package { name: entry.name, content };
        if ok {
            out.push(WorkOutput::Result(Ok(package)));
        } else {
            out.push(WorkOutput::Then(package));
        }
    }
    proof {
        assert(all.take(all.len() as int) == all);
    }
    Ok(out)
}

/// Entries fail as their shortest failing beginning does.
pub proof fn lemma_parsed_fails(entries: Seq<ScriptEntry>, n: int)
    requires
        0 <= n <= entries.len(),
        parsed(entries.take(n)) is Err,
    ensures
        parsed(entries) == parsed(entries.take(n)),
    decreases entries.len() - n,
{
    if n == entries.len() {
        assert(entries.take(n) == entries);
    } else {
        assert(entries.take(n + 1).drop_last() == entries.take(n));
        lemma_parsed_fails(entries, n + 1);
    }
}

} // verus!
