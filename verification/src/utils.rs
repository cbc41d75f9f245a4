//! Placeholder interpolation: `${name}` in a text stands for the argument of
//! that name.
use vstd::prelude::*;
use vstd::string::*;
use crate::text::{occurs_at, occurs_in, replace_all, replaced};
use crate::value::{Args, ValueView};

verus! {

/// What `regex::Regex::find_iter` yields on `text` for the regular expression
/// that `regex::Regex::new` makes of `pattern`: the matched texts from left to
/// right, or `None` where the pattern is refused.
pub uninterp spec fn regex_matches(pattern: Seq<char>, text: Seq<char>) -> Option<Seq<Seq<char>>>;

/// The character sequences of a list of strings.
pub open spec fn texts(strings: Seq<String>) -> Seq<Seq<char>> {
    strings.map_values(|s: String| s@)
}

/// The character sequences of an optional list of strings.
pub open spec fn optional_texts(strings: Option<Vec<String>>) -> Option<Seq<Seq<char>>> {
    match strings {
        Some(v) => Some(texts(v@)),
        None => None,
    }
}

/// Compiles `pattern` with `regex::Regex::new` and collects the text of every
/// match that `regex::Regex::find_iter` yields on `text`. The contract names
/// the result and claims one thing of it: every match was cut out of `text`,
/// which is how `regex::Match::as_str` makes it.
#[verifier::external_body]
fn find_matches(pattern: &str, text: &str) -> (r: Option<Vec<String>>)
    ensures
        optional_texts(r) == regex_matches(pattern@, text@),
        r matches Some(v) ==> forall|i: int| 0 <= i < v.len() ==> occurs_in(text@, #[trigger] v[i]@),
{
    match regex::Regex::new(pattern) {
        Ok(re) => Some(re.find_iter(text).map(|m| m.as_str().to_string()).collect()),
        Err(_) => None,
    }
}

/// The regular expression of a placeholder: a dollar sign and, in braces, a
/// name of one or more word characters.
pub open spec fn placeholder_pattern() -> Seq<char> {
    "\\$\\{(\\w+)\\}"@
}

/// The placeholders of `text`, each as it stands there, from left to right.
pub open spec fn placeholders(text: Seq<char>) -> Seq<Seq<char>> {
    match regex_matches(placeholder_pattern(), text) {
        Some(found) => found,
        None => Seq::empty(),
    }
}

/// The name inside a placeholder: what stands between `${` and `}`.
pub open spec fn placeholder_key(placeholder: Seq<char>) -> Option<Seq<char>> {
    if placeholder.len() >= 3 && placeholder[0] == '$' && placeholder[1] == '{'
        && placeholder.last() == '}' {
        Some(placeholder.subrange(2, placeholder.len() - 1))
    } else {
        None
    }
}

/// `text` after one placeholder has been dealt with: each occurrence replaced
/// by the argument of its name, or `text` as it is where no argument has
/// that name.
pub open spec fn substituted_one(
    text: Seq<char>,
    placeholder: Seq<char>,
    args: Map<Seq<char>, ValueView>,
) -> Seq<char> {
    match placeholder_key(placeholder) {
        Some(key) => if args.contains_key(key) {
            replaced(text, placeholder, args[key].rendered())
        } else {
            text
        },
        None => text,
    }
}

/// `text` after the given placeholders have been dealt with, one after the
/// other.
pub open spec fn substituted(
    text: Seq<char>,
    found: Seq<Seq<char>>,
    args: Map<Seq<char>, ValueView>,
) -> Seq<char>
    decreases found.len(),
{
    if found.len() == 0 {
        text
    } else {
        substituted(substituted_one(text, found[0], args), found.skip(1), args)
    }
}

/// `text` with its placeholders replaced by the arguments of their names.
pub open spec fn interpolated(text: Seq<char>, args: Map<Seq<char>, ValueView>) -> Seq<char> {
    substituted(text, placeholders(text), args)
}

/// Whether `text` holds a placeholder.
pub open spec fn has_placeholder(text: Seq<char>) -> bool {
    placeholders(text).len() > 0
}

/// The name inside a placeholder, if it has the shape of one.
fn key_of(placeholder: &str) -> (r: Option<&str>)
    ensures
        match r {
            Some(key) => placeholder_key(placeholder@) == Some(key@),
            None => placeholder_key(placeholder@) is None,
        },
{
    let n = placeholder.unicode_len();
    if n >= 3 && placeholder.get_char(0) == '$' && placeholder.get_char(1) == '{'
        && placeholder.get_char(n - 1) == '}' {
        Some(placeholder.substring_char(2, n - 1))
    } else {
        None
    }
}

/// Replaces in `input`, for each of the placeholders `found` in turn, every
/// occurrence by the argument of its name. A placeholder whose name has no
/// argument stays as it is.
pub fn substitute(input: &str, found: &Vec<String>, args: &Args) -> (r: String)
    ensures
        r@ == substituted(input@, texts(found@), args@),
{
    let mut output = String::from_str(input);
    let mut i: usize = 0;
    assert(texts(found@).skip(0) == texts(found@));
    while i < found.len()
        invariant
            i <= found.len(),
            substituted(input@, texts(found@), args@) == substituted(
                output@,
                texts(found@).skip(i as int),
                args@,
            ),
        decreases found.len() - i,
    {
        let ghost rest = texts(found@).skip(i as int);
        assert(rest[0] == found@[i as int]@);
        assert(rest.skip(1) == texts(found@).skip(i + 1));
        let placeholder = found[i].as_str();
        match key_of(placeholder) {
            Some(key) => {
                match args.get(key) {
                    Some(value) => {
                        output = replace_all(output.as_str(), placeholder, value.rendered());
                    },
                    None => {},
                }
            },
            None => {},
        }
        i += 1;
    }
    output
}

/// Whether `input` holds a placeholder.
pub fn is_interpolated(input: &str) -> (r: bool)
    ensures
        r == has_placeholder(input@),
{
    match find_matches("\\$\\{(\\w+)\\}", input) {
        Some(found) => found.len() > 0,
        None => false,
    }
}

/// Replaces every placeholder of `input` by the argument of its name. A
/// placeholder whose name has no argument stays as it is, and so does an
/// input in which `${` does not occur.
pub fn interpolate(input: &str, args: &Args) -> (r: String)
    ensures
        r@ == interpolated(input@, args@),
        !occurs_in(input@, "${"@) ==> r@ == input@,
{
    match find_matches("\\$\\{(\\w+)\\}", input) {
        Some(found) => {
            proof {
                if !occurs_in(input@, "${"@) {
                    lemma_substituted_without_marker(input@, texts(found@), args@);
                }
            }
            substitute(input, &found, args)
        },
        None => String::from_str(input),
    }
}

/// A text without placeholders is its own interpolation.
pub proof fn lemma_interpolate_without_placeholder(text: Seq<char>, args: Map<Seq<char>, ValueView>)
    requires
        !has_placeholder(text),
    ensures
        interpolated(text, args) == text,
{
}

/// Substituting placeholders that were cut out of a text changes nothing
/// where `${` does not occur in the text.
pub proof fn lemma_substituted_without_marker(
    text: Seq<char>,
    found: Seq<Seq<char>>,
    args: Map<Seq<char>, ValueView>,
)
    requires
        forall|i: int| 0 <= i < found.len() ==> occurs_in(text, #[trigger] found[i]),
        !occurs_in(text, "${"@),
    ensures
        substituted(text, found, args) == text,
    decreases found.len(),
{
    if found.len() > 0 {
        if placeholder_key(found[0]) is Some {
            let at = choose|at: int| occurs_at(text, at, found[0]);
            reveal_strlit("${");
            let cut = text.subrange(at, at + found[0].len());
            assert(text.subrange(at, at + 2) =~= "${"@) by {
                assert(cut[0] == '$');
                assert(cut[1] == '{');
            }
            assert(occurs_at(text, at, "${"@));
        }
        assert forall|i: int| 0 <= i < found.skip(1).len() implies occurs_in(
            text,
            #[trigger] found.skip(1)[i],
        ) by {
            assert(found.skip(1)[i] == found[i + 1]);
        }
        lemma_substituted_without_marker(text, found.skip(1), args);
    }
}

/// Placeholders whose names have no argument are left as they stand.
pub proof fn lemma_unresolved_left_verbatim(
    text: Seq<char>,
    found: Seq<Seq<char>>,
    args: Map<Seq<char>, ValueView>,
)
    requires
        forall|i: int|
            0 <= i < found.len() ==> (#[trigger] placeholder_key(found[i]) matches Some(key)
                ==> !args.contains_key(key)),
    ensures
        substituted(text, found, args) == text,
    decreases found.len(),
{
    if found.len() > 0 {
        assert(placeholder_key(found[0]) matches Some(key) ==> !args.contains_key(key));
        assert forall|i: int| 0 <= i < found.skip(1).len() implies (#[trigger] placeholder_key(
            found.skip(1)[i],
        ) matches Some(key) ==> !args.contains_key(key)) by {
            assert(found.skip(1)[i] == found[i + 1]);
            assert(placeholder_key(found[i + 1]) matches Some(key) ==> !args.contains_key(key));
        }
        lemma_unresolved_left_verbatim(text, found.skip(1), args);
    }
}

/// A text that is one placeholder, with an argument of its name, becomes
/// that argument.
pub proof fn lemma_placeholder_alone(key: Seq<char>, args: Map<Seq<char>, ValueView>)
    requires
        args.contains_key(key),
    ensures
        substituted("${"@ + key + "}"@, seq!["${"@ + key + "}"@], args) == args[key].rendered(),
{
    reveal_strlit("${");
    reveal_strlit("}");
    let p = "${"@ + key + "}"@;
    let v = args[key].rendered();
    assert(p.subrange(2, p.len() - 1) =~= key);
    assert(placeholder_key(p) == Some(key));
    assert(p.take(p.len() as int) == p);
    assert(p.skip(p.len() as int) == Seq::<char>::empty());
    assert(replaced(Seq::<char>::empty(), p, v) == Seq::<char>::empty());
    assert(replaced(p, p, v) == v + replaced(p.skip(p.len() as int), p, v));
    assert(v + Seq::<char>::empty() == v);
    let found = seq![p];
    assert(found.skip(1).len() == 0);
    assert(substituted(p, found, args) == substituted(substituted_one(p, found[0], args), found.skip(1), args));
}

} // verus!
