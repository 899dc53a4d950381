//! The attributes that describe a table where its row type is declared: a
//! list of `name`, of `pk` as often as the key has components, and of
//! `draft`.

use vstd::prelude::*;
use crate::text::{same, text_of};

verus! {

/// One attribute of a row type, as it was written.
#[derive(Debug)]
pub enum Attribute {
    /// What was written cannot be read as an attribute.
    Unreadable,
    /// A word, or a single key with a value: no list.
    Plain,
    /// A list, with its entries in the order in which they were written.
    List(Vec<Entry>),
}

/// One entry of a list.
#[derive(Debug)]
pub enum Entry {
    /// A key with a value. The key is missing where nothing stands in its
    /// place, and the value where it is no string.
    Pair { key: Option<String>, value: Option<String> },
    /// Anything else. It says nothing.
    Other,
}

/// What the attributes of a row type say.
#[derive(Debug)]
pub struct Attributes {
    /// The name of the table.
    pub name: String,
    /// The fields of the primary key, in the order in which they were named.
    pub pks: Vec<String>,
    /// The type of the rows to insert or to set, where it is another.
    pub draft: Option<String>,
}

/// What the attributes say, as characters.
pub struct AttributesView {
    pub name: Seq<char>,
    pub pks: Seq<Seq<char>>,
    pub draft: Option<Seq<char>>,
}

impl View for Attributes {
    type V = AttributesView;

    open spec fn view(&self) -> AttributesView {
        AttributesView {
            name: self.name@,
            pks: self.pks@.map_values(|pk: String| pk@),
            draft: text_of(self.draft),
        }
    }
}

/// The value that `entry` gives to `key`, where it is a pair of that key
/// with a string.
pub open spec fn given(entry: Entry, key: Seq<char>) -> Option<Seq<char>> {
    match entry {
        Entry::Pair { key: Some(k), value: Some(v) } => if k@ == key {
            Some(v@)
        } else {
            None
        },
        _ => None,
    }
}

/// Whether an entry is understood: it is no pair, or it gives a string to
/// one of the three keys.
pub open spec fn understood(entry: Entry) -> bool {
    entry is Other || given(entry, "name"@) is Some || given(entry, "pk"@) is Some || given(
        entry,
        "draft"@,
    ) is Some
}

/// What is said of an entry that is not understood: that its name is
/// invalid where it has no key, and else that the attribute of that key is.
pub open spec fn complaint(entry: Entry) -> Seq<char> {
    match entry {
        Entry::Pair { key: Some(k), .. } => "invalid attribute: "@ + k@,
        _ => "invalid name"@,
    }
}

/// The value that the last of `entries` gives to `key`.
pub open spec fn last_value(entries: Seq<Entry>, key: Seq<char>) -> Option<Seq<char>>
    decreases entries.len(),
{
    if entries.len() == 0 {
        None
    } else if given(entries.last(), key) is Some {
        given(entries.last(), key)
    } else {
        last_value(entries.drop_last(), key)
    }
}

/// The values that `entries` give to `key`, in order.
pub open spec fn values(entries: Seq<Entry>, key: Seq<char>) -> Seq<Seq<char>>
    decreases entries.len(),
{
    if entries.len() == 0 {
        Seq::empty()
    } else if given(entries.last(), key) is Some {
        values(entries.drop_last(), key).push(given(entries.last(), key)->0)
    } else {
        values(entries.drop_last(), key)
    }
}

/// What the entries of a list say: the complaint about the first that is
/// not understood; else, without a name, the complaint about that; else the
/// name and the draft that were given last, and every field of the key.
pub open spec fn listed(entries: Seq<Entry>) -> Result<AttributesView, Seq<char>> {
    if exists|i: int| 0 <= i < entries.len() && !understood(#[trigger] entries[i]) {
        let first = choose|i: int|
            0 <= i < entries.len() && !understood(#[trigger] entries[i]) && forall|j: int|
                0 <= j < i ==> understood(#[trigger] entries[j]);
        Err(complaint(entries[first]))
    } else {
        match last_value(entries, "name"@) {
            None => Err("no name found"@),
            Some(name) => Ok(
                AttributesView {
                    name,
                    pks: values(entries, "pk"@),
                    draft: last_value(entries, "draft"@),
                },
            ),
        }
    }
}

/// What the attributes of a row type say. Only the first is read: without
/// one the name is asked for; one that cannot be read, or that is no list,
/// is complained about as such; a list says what its entries say.
pub open spec fn described(attrs: Seq<Attribute>) -> Result<AttributesView, Seq<char>> {
    if attrs.len() == 0 {
        Err("must specify name in attributes"@)
    } else {
        match attrs[0] {
            Attribute::Unreadable => Err("invalid attribute"@),
            Attribute::Plain => Err("must be attribute list"@),
            Attribute::List(entries) => listed(entries@),
        }
    }
}

/// What a result of reading attributes says.
pub open spec fn reading(result: Result<Attributes, String>) -> Result<AttributesView, Seq<char>> {
    match result {
        Ok(attributes) => Ok(attributes@),
        Err(message) => Err(message@),
    }
}

/// The entry at `first` is the first that is not understood: that is the
/// one that is complained about.
proof fn lemma_first(entries: Seq<Entry>, first: int)
    requires
        0 <= first < entries.len(),
        !understood(entries[first]),
        forall|j: int| 0 <= j < first ==> understood(#[trigger] entries[j]),
    ensures
        listed(entries) == Err::<AttributesView, _>(complaint(entries[first])),
{
}

/// What is said of `entry`, which is not understood.
fn complain(entry: &Entry) -> (out: String)
    ensures
        out@ == complaint(*entry),
{
    match entry {
        Entry::Pair { key: Some(key), .. } => {
            let mut message = String::from_str("invalid attribute: ");
            message.append(key.as_str());
            message
        },
        _ => String::from_str("invalid name"),
    }
}

/// The value that `entry` gives to `key`.
fn value_of<'a>(entry: &'a Entry, key: &str) -> (out: Option<&'a String>)
    ensures
        match out {
            Some(value) => given(*entry, key@) == Some(value@),
            None => given(*entry, key@) is None,
        },
{
    match entry {
        Entry::Pair { key: Some(k), value: Some(v) } => if same(k.as_str(), key) {
            Some(v)
        } else {
            None
        },
        _ => None,
    }
}

/// Reads the entries of a list.
fn read(entries: &Vec<Entry>) -> (out: Result<Attributes, String>)
    ensures
        reading(out) == listed(entries@),
{
    let mut name: Option<String> = None;
    let mut pks: Vec<String> = Vec::new();
    let mut draft: Option<String> = None;
    let mut i: usize = 0;
    while i < entries.len()
        invariant
            i <= entries.len(),
            forall|j: int| 0 <= j < i ==> understood(#[trigger] entries@[j]),
            text_of(name) == last_value(entries@.take(i as int), "name"@),
            text_of(draft) == last_value(entries@.take(i as int), "draft"@),
            pks@.map_values(|pk: String| pk@) == values(entries@.take(i as int), "pk"@),
        decreases entries.len() - i,
    {
        let entry = &entries[i];
        proof {
            reveal_strlit("name");
            reveal_strlit("pk");
            reveal_strlit("draft");
            assert("name"@.len() == 4 && "pk"@.len() == 2 && "draft"@.len() == 5);
            assert(entries@.take(i + 1).drop_last() == entries@.take(i as int));
        }
        let ghost before = pks@;
        if let Some(value) = value_of(entry, "name") {
            name = Some(value.clone());
        } else if let Some(value) = value_of(entry, "pk") {
            pks.push(value.clone());
            assert(pks@.map_values(|pk: String| pk@) == before.map_values(|pk: String| pk@).push(
                value@,
            ));
        } else if let Some(value) = value_of(entry, "draft") {
            draft = Some(value.clone());
        } else {
            match entry {
                Entry::Other => {},
                Entry::Pair { .. } => {
                    proof {
                        lemma_first(entries@, i as int);
                    }
                    return Err(complain(entry));
                },
            }
        }
        i += 1;
    }
    assert(entries@.take(entries.len() as int) == entries@);
    match name {
        None => Err(String::from_str("no name found")),
        Some(name) => Ok(Attributes { name, pks, draft }),
    }
}

impl Attributes {
    /// Reads what the attributes of a row type say about its table.
    pub fn from_syn_attrs(attrs: &[Attribute]) -> (out: Result<Attributes, String>)
        ensures
            reading(out) == described(attrs@),
    {
        if attrs.len() == 0 {
            return Err(String::from_str("must specify name in attributes"));
        }
        match &attrs[0] {
            Attribute::Unreadable => Err(String::from_str("invalid attribute")),
            Attribute::Plain => Err(String::from_str("must be attribute list")),
            Attribute::List(entries) => read(entries),
        }
    }
}

} // verus!
