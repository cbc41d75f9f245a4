//! Argument values and argument maps.
use vstd::prelude::*;
use vstd::string::*;
use crate::text::str_eq;

verus! {

/// A JSON value as far as the engine looks into it: a string, or any other
/// value carried as its JSON text.
#[derive(Debug, PartialEq, Eq)]
pub enum Value {
    /// A JSON string, by its characters.
    Text(String),
    /// Any other JSON value, by its serialized text.
    Json(String),
}

/// The mathematical model of a [`Value`].
pub enum ValueView {
    Text(Seq<char>),
    Json(Seq<char>),
}

impl ValueView {
    /// The value as it appears inside an interpolated text: a string by its
    /// characters, any other value by its JSON text.
    pub open spec fn rendered(self) -> Seq<char> {
        match self {
            ValueView::Text(s) => s,
            ValueView::Json(s) => s,
        }
    }
}

impl View for Value {
    type V = ValueView;

    open spec fn view(&self) -> ValueView {
        match *self {
            Value::Text(s) => ValueView::Text(s@),
            Value::Json(s) => ValueView::Json(s@),
        }
    }
}

impl Value {
    /// The string value with the characters of `s`.
    pub fn text(s: &str) -> (r: Value)
        ensures
            r@ == ValueView::Text(s@),
    {
        Value::Text(String::from_str(s))
    }

    pub fn is_string(&self) -> (r: bool)
        ensures
            r == (self@ is Text),
    {
        match self {
            Value::Text(_) => true,
            Value::Json(_) => false,
        }
    }

    /// The characters of a string value; `None` for any other value.
    pub fn as_str(&self) -> (r: Option<&str>)
        ensures
            match r {
                Some(s) => self@ == ValueView::Text(s@),
                None => !(self@ is Text),
            },
    {
        match self {
            Value::Text(s) => Some(s.as_str()),
            Value::Json(_) => None,
        }
    }

    /// The value as it appears inside an interpolated text.
    pub fn rendered(&self) -> (r: &str)
        ensures
            r@ == self@.rendered(),
    {
        match self {
            Value::Text(s) => s.as_str(),
            Value::Json(s) => s.as_str(),
        }
    }
}

impl Clone for Value {
    fn clone(&self) -> (r: Value)
        ensures
            r == *self,
    {
        match self {
            Value::Text(s) => Value::Text(s.clone()),
            Value::Json(s) => Value::Json(s.clone()),
        }
    }
}

/// The map that a list of entries stands for: of two entries with one key
/// the later one counts.
pub open spec fn entries_map(entries: Seq<(String, Value)>) -> Map<Seq<char>, ValueView>
    decreases entries.len(),
{
    if entries.len() == 0 {
        Map::empty()
    } else {
        entries_map(entries.drop_last()).insert(entries.last().0@, entries.last().1@)
    }
}

/// The map of two lists of entries, one after the other, is the map of the
/// first overridden by the map of the second.
pub proof fn lemma_entries_map_concat(a: Seq<(String, Value)>, b: Seq<(String, Value)>)
    ensures
        entries_map(a + b) == entries_map(a).union_prefer_right(entries_map(b)),
    decreases b.len(),
{
    if b.len() == 0 {
        assert(a + b == a);
        assert(entries_map(a).union_prefer_right(entries_map(b)) =~= entries_map(a));
    } else {
        assert((a + b).drop_last() == a + b.drop_last());
        assert((a + b).last() == b.last());
        lemma_entries_map_concat(a, b.drop_last());
        assert(entries_map(a + b) =~= entries_map(a).union_prefer_right(entries_map(b)));
    }
}

/// Named argument values: a map from names to values.
#[derive(Debug)]
pub struct Args {
    pub entries: Vec<(String, Value)>,
}

impl View for Args {
    type V = Map<Seq<char>, ValueView>;

    open spec fn view(&self) -> Map<Seq<char>, ValueView> {
        entries_map(self.entries@)
    }
}

impl Args {
    /// The empty map.
    pub fn new() -> (r: Args)
        ensures
            r@ == Map::<Seq<char>, ValueView>::empty(),
    {
        Args { entries: Vec::new() }
    }

    /// Binds `key` to `value`, in place of what it was bound to.
    pub fn insert(&mut self, key: String, value: Value)
        ensures
            final(self)@ == old(self)@.insert(key@, value@),
    {
        let ghost before = self.entries@;
        self.entries.push((key, value));
        assert(self.entries@.drop_last() == before);
    }

    /// The value that `key` is bound to.
    pub fn get(&self, key: &str) -> (r: Option<&Value>)
        ensures
            match r {
                Some(v) => self@.contains_key(key@) && self@[key@] == v@,
                None => !self@.contains_key(key@),
            },
    {
        let mut i: usize = self.entries.len();
        assert(self.entries@.take(i as int) == self.entries@);
        while i > 0
            invariant
                i <= self.entries.len(),
                self@.contains_key(key@) == entries_map(self.entries@.take(i as int)).contains_key(
                    key@,
                ),
                self@.contains_key(key@) ==> self@[key@] == entries_map(
                    self.entries@.take(i as int),
                )[key@],
            decreases i,
        {
            let ghost prefix = self.entries@.take(i as int);
            assert(prefix.drop_last() == self.entries@.take(i - 1));
            assert(prefix.last() == self.entries@[i - 1]);
            i -= 1;
            if str_eq(self.entries[i].0.as_str(), key) {
                return Some(&self.entries[i].1);
            }
        }
        None
    }

    pub fn contains_key(&self, key: &str) -> (r: bool)
        ensures
            r == self@.contains_key(key@),
    {
        self.get(key).is_some()
    }

    /// Binds every name of `other` to its value there, in place of what it
    /// was bound to.
    pub fn extend(&mut self, other: &Args)
        ensures
            final(self)@ == old(self)@.union_prefer_right(other@),
    {
        let ghost before = self.entries@;
        let mut i: usize = 0;
        assert(other.entries@.take(0) == Seq::<(String, Value)>::empty());
        assert(before + other.entries@.take(0) == before);
        while i < other.entries.len()
            invariant
                i <= other.entries.len(),
                entries_map(self.entries@) == entries_map(before + other.entries@.take(i as int)),
            decreases other.entries.len() - i,
        {
            let ghost now = self.entries@;
            let key = other.entries[i].0.clone();
            let value = other.entries[i].1.clone();
            self.entries.push((key, value));
            proof {
                let grown = before + other.entries@.take(i + 1);
                assert(self.entries@.drop_last() == now);
                assert(grown.drop_last() == before + other.entries@.take(i as int));
                assert(grown.last() == other.entries@[i as int]);
            }
            i += 1;
        }
        proof {
            assert(other.entries@.take(i as int) == other.entries@);
            lemma_entries_map_concat(before, other.entries@);
        }
    }
}

impl Clone for Args {
    fn clone(&self) -> (r: Args)
        ensures
            r@ == self@,
    {
        let mut r = Args::new();
        r.extend(self);
        assert(r@ =~= self@);
        r
    }
}

} // verus!
