//! What the rendezvous server asks of its backing store, as plain values.
//!
//! The server keeps sessions and rooms in a keyed store that offers
//! conditional writes. The tables of this crate hold their records in memory,
//! oldest first; a deployment may keep them elsewhere and hand the store's
//! answers to the same decision functions.
use vstd::prelude::*;
use vstd::string::StringExecFns;

verus! {

/// How a conditional write ended.
#[derive(Debug, Clone, Copy, PartialEq, Eq, Structural)]
pub enum PutOutcome {
    /// The condition held and the record was written.
    Written,
    /// The condition did not hold; nothing was written.
    ConditionFailed,
    /// The store could not be reached or refused; nothing was written.
    Failed,
}

/// The position of the first element of `s` that satisfies `p`.
pub open spec fn first_index<T>(s: Seq<T>, p: spec_fn(T) -> bool) -> Option<int>
    decreases s.len(),
{
    if s.len() == 0 {
        None
    } else if p(s[0]) {
        Some(0)
    } else {
        match first_index(s.drop_first(), p) {
            Some(i) => Some(i + 1),
            None => None,
        }
    }
}

/// The first element of `s` that satisfies `p`.
pub open spec fn first_match<T>(s: Seq<T>, p: spec_fn(T) -> bool) -> Option<T> {
    match first_index(s, p) {
        Some(i) => Some(s[i]),
        None => None,
    }
}

/// `first_index` finds a position inside the sequence whose element
/// satisfies the predicate, with none before it that does; where it finds
/// nothing, no element does.
pub proof fn lemma_first_index<T>(s: Seq<T>, p: spec_fn(T) -> bool)
    ensures
        match first_index(s, p) {
            Some(i) => 0 <= i < s.len() && p(s[i]) && forall|j: int|
                0 <= j < i ==> !p(#[trigger] s[j]),
            None => forall|j: int| 0 <= j < s.len() ==> !p(#[trigger] s[j]),
        },
    decreases s.len(),
{
    if s.len() == 0 {
    } else if p(s[0]) {
    } else {
        let rest = s.drop_first();
        lemma_first_index(rest, p);
        match first_index(rest, p) {
            Some(i) => {
                assert(rest[i] == s[i + 1]);
                assert forall|j: int| 0 <= j < i + 1 implies !p(#[trigger] s[j]) by {
                    if j > 0 {
                        assert(rest[j - 1] == s[j]);
                    }
                }
            },
            None => {
                assert forall|j: int| 0 <= j < s.len() implies !p(#[trigger] s[j]) by {
                    if j > 0 {
                        assert(rest[j - 1] == s[j]);
                    }
                }
            },
        }
    }
}

/// A position whose element satisfies the predicate, with none before it
/// that does, is the one `first_index` finds.
pub proof fn lemma_first_index_is<T>(s: Seq<T>, p: spec_fn(T) -> bool, i: int)
    requires
        0 <= i < s.len(),
        p(s[i]),
        forall|j: int| 0 <= j < i ==> !p(#[trigger] s[j]),
    ensures
        first_index(s, p) == Some(i),
        first_match(s, p) == Some(s[i]),
{
    lemma_first_index(s, p);
}

/// Where no element satisfies the predicate, `first_index` finds nothing.
pub proof fn lemma_first_index_none<T>(s: Seq<T>, p: spec_fn(T) -> bool)
    requires
        forall|j: int| 0 <= j < s.len() ==> !p(#[trigger] s[j]),
    ensures
        first_index(s, p) is None,
        first_match(s, p) is None,
{
    lemma_first_index(s, p);
}

/// Appending an element changes what is found only where nothing was found
/// before.
pub proof fn lemma_first_match_push<T>(s: Seq<T>, x: T, p: spec_fn(T) -> bool)
    ensures
        first_match(s.push(x), p) == match first_match(s, p) {
            Some(y) => Some(y),
            None => if p(x) {
                Some(x)
            } else {
                None
            },
        },
{
    let t = s.push(x);
    lemma_first_index(s, p);
    match first_index(s, p) {
        Some(i) => {
            assert(t[i] == s[i]);
            assert forall|j: int| 0 <= j < i implies !p(#[trigger] t[j]) by {
                assert(t[j] == s[j]);
            }
            lemma_first_index_is(t, p, i);
        },
        None => {
            assert forall|j: int| 0 <= j < s.len() implies !p(#[trigger] t[j]) by {
                assert(t[j] == s[j]);
            }
            if p(x) {
                assert(t[s.len() as int] == x);
                lemma_first_index_is(t, p, s.len() as int);
            } else {
                assert forall|j: int| 0 <= j < t.len() implies !p(#[trigger] t[j]) by {
                    if j < s.len() {
                        assert(t[j] == s[j]);
                    }
                }
                lemma_first_index_none(t, p);
            }
        },
    }
}

/// One attribute of a stored record: text, a number written as text, or
/// bytes.
#[derive(Debug)]
pub enum AttributeValue {
    /// Text.
    S(String),
    /// A number, in decimal.
    N(String),
    /// Bytes.
    B(Vec<u8>),
}

/// An attribute as plain values.
pub enum AttributeView {
    S(Seq<char>),
    N(Seq<char>),
    B(Seq<u8>),
}

impl View for AttributeValue {
    type V = AttributeView;

    open spec fn view(&self) -> AttributeView {
        match self {
            AttributeValue::S(s) => AttributeView::S(s@),
            AttributeValue::N(n) => AttributeView::N(n@),
            AttributeValue::B(b) => AttributeView::B(b@),
        }
    }
}

/// A stored record: attributes under their names. Where a name occurs more
/// than once, the first occurrence counts.
#[derive(Debug)]
pub struct Item {
    entries: Vec<(String, AttributeValue)>,
}

/// Whether an entry goes by the name `name`.
pub open spec fn has_name(name: Seq<char>) -> spec_fn((Seq<char>, AttributeView)) -> bool {
    |e: (Seq<char>, AttributeView)| e.0 == name
}

/// The attribute called `name` among `entries`.
pub open spec fn attribute(entries: Seq<(Seq<char>, AttributeView)>, name: Seq<char>) -> Option<
    AttributeView,
> {
    match first_match(entries, has_name(name)) {
        Some(e) => Some(e.1),
        None => None,
    }
}

/// The text attribute called `name`, if there is one and it is text.
pub open spec fn text_attribute(entries: Seq<(Seq<char>, AttributeView)>, name: Seq<char>) -> Option<
    Seq<char>,
> {
    match attribute(entries, name) {
        Some(AttributeView::S(s)) => Some(s),
        _ => None,
    }
}

/// The number attribute called `name`, if there is one and it is a number.
pub open spec fn number_attribute(entries: Seq<(Seq<char>, AttributeView)>, name: Seq<char>) -> Option<
    Seq<char>,
> {
    match attribute(entries, name) {
        Some(AttributeView::N(n)) => Some(n),
        _ => None,
    }
}

/// The bytes attribute called `name`, if there is one and it is bytes.
pub open spec fn bytes_attribute(entries: Seq<(Seq<char>, AttributeView)>, name: Seq<char>) -> Option<
    Seq<u8>,
> {
    match attribute(entries, name) {
        Some(AttributeView::B(b)) => Some(b),
        _ => None,
    }
}

impl Item {
    /// The attributes with their names, in the order they were added.
    pub closed spec fn entries(&self) -> Seq<(Seq<char>, AttributeView)> {
        self.entries@.map_values(|e: (String, AttributeValue)| (e.0@, e.1@))
    }

    /// A record without attributes.
    pub fn new() -> (r: Item)
        ensures
            r.entries() == Seq::<(Seq<char>, AttributeView)>::empty(),
    {
        let r = Item { entries: Vec::new() };
        assert(r.entries() =~= Seq::<(Seq<char>, AttributeView)>::empty());
        r
    }

    /// The record with one more attribute at its end.
    pub fn item(self, name: &str, value: AttributeValue) -> (r: Item)
        ensures
            r.entries() == self.entries().push((name@, value@)),
    {
        let mut entries = self.entries;
        let entry = (String::from_str(name), value);
        assert(entries@.push(entry).map_values(|e: (String, AttributeValue)| (e.0@, e.1@))
            =~= entries@.map_values(|e: (String, AttributeValue)| (e.0@, e.1@)).push(
            (name@, value@),
        ));
        entries.push(entry);
        Item { entries }
    }

    /// The attributes with their names, in the order they were added.
    pub fn into_entries(self) -> (r: Vec<(String, AttributeValue)>)
        ensures
            r@.map_values(|e: (String, AttributeValue)| (e.0@, e.1@)) == self.entries(),
    {
        self.entries
    }

    /// The attribute called `name`.
    pub fn get(&self, name: &str) -> (r: Option<&AttributeValue>)
        ensures
            match r {
                Some(v) => attribute(self.entries(), name@) == Some(v@),
                None => attribute(self.entries(), name@) is None,
            },
    {
        let wanted = String::from_str(name);
        let ghost p = has_name(name@);
        let mut i: usize = 0;
        while i < self.entries.len()
            invariant
                i <= self.entries@.len(),
                wanted@ == name@,
                p == has_name(name@),
                forall|j: int| 0 <= j < i ==> !p(#[trigger] self.entries()[j]),
            decreases self.entries@.len() - i,
        {
            if self.entries[i].0 == wanted {
                proof {
                    lemma_first_index_is(self.entries(), p, i as int);
                }
                return Some(&self.entries[i].1);
            }
            i += 1;
        }
        proof {
            lemma_first_index_none(self.entries(), p);
        }
        None
    }

    /// The text attribute called `name`.
    pub fn get_s(&self, name: &str) -> (r: Option<&String>)
        ensures
            match r {
                Some(s) => text_attribute(self.entries(), name@) == Some(s@),
                None => text_attribute(self.entries(), name@) is None,
            },
    {
        match self.get(name) {
            Some(AttributeValue::S(s)) => Some(s),
            _ => None,
        }
    }

    /// The number attribute called `name`.
    pub fn get_n(&self, name: &str) -> (r: Option<&String>)
        ensures
            match r {
                Some(n) => number_attribute(self.entries(), name@) == Some(n@),
                None => number_attribute(self.entries(), name@) is None,
            },
    {
        match self.get(name) {
            Some(AttributeValue::N(n)) => Some(n),
            _ => None,
        }
    }

    /// The bytes attribute called `name`.
    pub fn get_b(&self, name: &str) -> (r: Option<&Vec<u8>>)
        ensures
            match r {
                Some(b) => bytes_attribute(self.entries(), name@) == Some(b@),
                None => bytes_attribute(self.entries(), name@) is None,
            },
    {
        match self.get(name) {
            Some(AttributeValue::B(b)) => Some(b),
            _ => None,
        }
    }
}

/// An attribute added at the end is found under its name unless an earlier
/// one has that name, and hides no other.
pub proof fn lemma_attribute_push(
    entries: Seq<(Seq<char>, AttributeView)>,
    name: Seq<char>,
    value: AttributeView,
    wanted: Seq<char>,
)
    ensures
        attribute(entries.push((name, value)), wanted) == match attribute(entries, wanted) {
            Some(v) => Some(v),
            None => if name == wanted {
                Some(value)
            } else {
                None
            },
        },
{
    lemma_first_match_push(entries, (name, value), has_name(wanted));
}

} // verus!
