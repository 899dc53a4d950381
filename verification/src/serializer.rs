//! Input literals: the values that stand as arguments in a document, and
//! their text.

use vstd::prelude::*;
use crate::text::{
    all_digits, decimal, is_numeral, join, joined, lemma_integer_numeral, lemma_numeral_plain,
    number, numeral, push_decimal, quote, quoted, signed, signed_decimal, views,
};

verus! {

broadcast use vstd::std_specs::vec::group_vec_axioms;

/// A value that can stand as an argument of an operation.
#[derive(Debug)]
pub enum Literal {
    /// An absent optional.
    Null,
    Bool(bool),
    Unsigned(u64),
    Signed(i64),
    /// A number that is no integer, given by its decimal text.
    Decimal(String),
    /// A string, or a date or time.
    Text(String),
    List(Vec<Literal>),
    /// A struct: its members in the declared order.
    Object(Vec<Member>),
}

/// One field of a struct.
#[derive(Debug)]
pub struct Member {
    pub name: String,
    pub value: Literal,
    /// Leave the member out where its value is empty.
    pub skip_if_empty: bool,
}

impl Literal {
    /// Whether the literal is well formed: every number in it that is given
    /// by its text is given by a decimal numeral.
    pub open spec fn wf(self) -> bool
        decreases self, 0nat,
    {
        match self {
            Literal::Decimal(text) => is_numeral(text@),
            Literal::List(items) => forall|i: int|
                0 <= i < items@.len() ==> (#[trigger] items@[i]).wf(),
            Literal::Object(members) => forall|i: int|
                0 <= i < members@.len() ==> (#[trigger] members@[i]).wf(),
            _ => true,
        }
    }

    /// Whether the literal is a number.
    pub open spec fn is_number(self) -> bool {
        self is Unsigned || self is Signed || self is Decimal
    }

    /// The decimal text of a number.
    pub open spec fn decimal_text(self) -> Seq<char> {
        match self {
            Literal::Unsigned(n) => decimal(n as nat),
            Literal::Signed(i) => signed_decimal(i as int),
            Literal::Decimal(text) => text@,
            _ => Seq::empty(),
        }
    }

    /// Whether a member that is skipped when empty would be left out with this
    /// value: it is absent, or a struct none of whose members is written.
    pub open spec fn is_empty(self) -> bool
        decreases self, 0nat,
    {
        match self {
            Literal::Null => true,
            Literal::Object(members) => forall|i: int|
                0 <= i < members@.len() ==> !(#[trigger] members@[i]).is_written(),
            _ => false,
        }
    }

    /// The text of the literal. A struct stands between braces unless it is
    /// the outermost value and `braces` is unset.
    pub open spec fn rendered(self, braces: bool) -> Seq<char>
        decreases self, 0nat,
    {
        match self {
            Literal::Null => "null"@,
            Literal::Bool(b) => if b {
                "true"@
            } else {
                "false"@
            },
            Literal::Unsigned(n) => seq!['"'] + decimal(n as nat) + seq!['"'],
            Literal::Signed(i) => seq!['"'] + signed_decimal(i as int) + seq!['"'],
            Literal::Decimal(s) => quoted(s@),
            Literal::Text(s) => quoted(s@),
            Literal::List(items) => seq!['['] + joined(
                item_texts_of(items@),
                ","@,
            ) + seq![']'],
            Literal::Object(members) => {
                let body = joined(written(members@, members@.len()), ","@);
                if braces {
                    seq!['{'] + body + seq!['}']
                } else {
                    body
                }
            },
        }
    }
}

impl Member {
    /// Whether the value of the member is well formed.
    pub open spec fn wf(self) -> bool
        decreases self, 1nat,
    {
        self.value.wf()
    }

    /// Whether the member appears in the text of its struct.
    pub open spec fn is_written(self) -> bool
        decreases self, 1nat,
    {
        !(self.skip_if_empty && self.value.is_empty())
    }

    /// The text of the member: its name, a colon, its value.
    pub open spec fn rendered(self) -> Seq<char>
        decreases self, 1nat,
    {
        self.name@ + ":"@ + self.value.rendered(true)
    }
}

/// The text of each item of a list, in order.
pub open spec fn item_texts_of(items: Seq<Literal>) -> Seq<Seq<char>>
    decreases items, 0nat,
{
    Seq::new(
        items.len(),
        |i: int|
            if 0 <= i < items.len() {
                items[i].rendered(true)
            } else {
                Seq::empty()
            },
    )
}

/// The texts of the members among the first `n` that are written, in order.
pub open spec fn written(members: Seq<Member>, n: nat) -> Seq<Seq<char>>
    decreases members, n,
{
    if n == 0 || n > members.len() {
        Seq::empty()
    } else if members[n - 1].is_written() {
        written(members, (n - 1) as nat).push(members[n - 1].rendered())
    } else {
        written(members, (n - 1) as nat)
    }
}

impl Literal {
    /// The number that the decimal numeral `text` stands for; none where
    /// `text` is no numeral.
    pub fn decimal(text: String) -> (out: Option<Literal>)
        ensures
            out == if is_numeral(text@) {
                Some(Literal::Decimal(text))
            } else {
                None
            },
            out matches Some(value) ==> value.wf(),
    {
        if numeral(text.as_str()) {
            Some(Literal::Decimal(text))
        } else {
            None
        }
    }

    /// Whether a member that is skipped when empty would be left out with this
    /// value.
    pub fn empty(&self) -> (out: bool)
        ensures
            out == self.is_empty(),
        decreases self, 0nat,
    {
        match self {
            Literal::Null => true,
            Literal::Object(members) => none_written(members),
            _ => false,
        }
    }
}

impl Literal {
    /// Whether the literal is well formed.
    pub fn well_formed(&self) -> (out: bool)
        ensures
            out == self.wf(),
        decreases self, 0nat,
    {
        match self {
            Literal::Decimal(text) => numeral(text.as_str()),
            Literal::List(items) => items_well_formed(items),
            Literal::Object(members) => members_well_formed(members),
            _ => true,
        }
    }
}

/// Whether every item of a list is well formed.
fn items_well_formed(items: &Vec<Literal>) -> (out: bool)
    ensures
        out == forall|i: int| 0 <= i < items@.len() ==> (#[trigger] items@[i]).wf(),
    decreases items,
{
    let mut i: usize = 0;
    while i < items.len()
        invariant
            i <= items.len(),
            forall|j: int| 0 <= j < i ==> (#[trigger] items@[j]).wf(),
        decreases items.len() - i,
    {
        if !items[i].well_formed() {
            return false;
        }
        i += 1;
    }
    true
}

/// Whether the value of every member of a struct is well formed.
fn members_well_formed(members: &Vec<Member>) -> (out: bool)
    ensures
        out == forall|i: int| 0 <= i < members@.len() ==> (#[trigger] members@[i]).wf(),
    decreases members,
{
    let mut i: usize = 0;
    while i < members.len()
        invariant
            i <= members.len(),
            forall|j: int| 0 <= j < i ==> (#[trigger] members@[j]).wf(),
        decreases members.len() - i,
    {
        if !members[i].value.well_formed() {
            return false;
        }
        i += 1;
    }
    true
}

/// Whether no member of a struct is written.
fn none_written(members: &Vec<Member>) -> (out: bool)
    ensures
        out == forall|i: int| 0 <= i < members@.len() ==> !(#[trigger] members@[i]).is_written(),
    decreases members,
{
    let mut i: usize = 0;
    while i < members.len()
        invariant
            i <= members.len(),
            forall|j: int| 0 <= j < i ==> !(#[trigger] members@[j]).is_written(),
        decreases members.len() - i,
    {
        if members[i].written() {
            return false;
        }
        i += 1;
    }
    true
}

impl Member {
    /// Whether the member appears in the text of its struct.
    pub fn written(&self) -> (out: bool)
        ensures
            out == self.is_written(),
        decreases self, 1nat,
    {
        !(self.skip_if_empty && self.value.empty())
    }
}

/// The text of each item of a list.
fn item_texts(items: &Vec<Literal>) -> (out: Vec<String>)
    ensures
        views(out@) == item_texts_of(items@),
    decreases items,
{
    let mut out: Vec<String> = Vec::new();
    let mut i: usize = 0;
    while i < items.len()
        invariant
            i <= items.len(),
            out@.len() == i,
            forall|j: int| 0 <= j < i ==> (#[trigger] out@[j])@ == items@[j].rendered(true),
        decreases items.len() - i,
    {
        out.push(to_string(&items[i], true));
        i += 1;
    }
    out
}

/// The text of each member of a struct that is written.
fn member_texts(members: &Vec<Member>) -> (out: Vec<String>)
    ensures
        views(out@) == written(members@, members@.len()),
    decreases members,
{
    let mut out: Vec<String> = Vec::new();
    let mut i: usize = 0;
    while i < members.len()
        invariant
            i <= members.len(),
            views(out@) == written(members@, i as nat),
        decreases members.len() - i,
    {
        let member = &members[i];
        if member.written() {
            let mut part = member.name.clone();
            part.push(':');
            part.append(to_string(&member.value, true).as_str());
            proof {
                reveal_strlit(":");
                assert(part@ == member.rendered());
            }
            out.push(part);
        }
        i += 1;
    }
    out
}

/// The text of a literal. With `braces` unset, a struct is written flat:
/// its members without the braces around them.
pub fn to_string(value: &Literal, braces: bool) -> (out: String)
    ensures
        out@ == value.rendered(braces),
    decreases value, 0nat,
{
    match value {
        Literal::Null => String::from_str("null"),
        Literal::Bool(b) => if *b {
            String::from_str("true")
        } else {
            String::from_str("false")
        },
        Literal::Unsigned(n) => {
            let mut out = String::new();
            out.push('"');
            push_decimal(&mut out, *n);
            out.push('"');
            out
        },
        Literal::Signed(i) => {
            let mut out = String::new();
            out.push('"');
            out.append(signed(*i).as_str());
            out.push('"');
            out
        },
        Literal::Decimal(s) => quote(s.as_str()),
        Literal::Text(s) => quote(s.as_str()),
        Literal::List(items) => {
            let parts = item_texts(items);
            let mut out = String::new();
            out.push('[');
            out.append(join(&parts, ",").as_str());
            out.push(']');
            out
        },
        Literal::Object(members) => {
            let parts = member_texts(members);
            let body = join(&parts, ",");
            if braces {
                let mut out = String::new();
                out.push('{');
                out.append(body.as_str());
                out.push('}');
                out
            } else {
                body
            }
        },
    }
}

/// An absent value is written `null`, wherever it stands.
pub proof fn lemma_null(braces: bool)
    ensures
        Literal::Null.rendered(braces) == "null"@,
{
}

/// A number is always written as a decimal numeral between double quotes:
/// in every well-formed literal, and for an integer in any literal. The
/// digits of an integer stand for that integer.
pub proof fn lemma_numbers_quoted(value: Literal, braces: bool)
    requires
        value.is_number(),
        value.wf(),
    ensures
        value.rendered(braces) == seq!['"'] + value.decimal_text() + seq!['"'],
        is_numeral(value.decimal_text()),
        value matches Literal::Unsigned(n) ==> all_digits(value.decimal_text()) && number(
            value.decimal_text(),
        ) == n,
        value matches Literal::Signed(i) ==> if i < 0 {
            value.decimal_text() == seq!['-'] + decimal((-i) as nat) && number(decimal((-i) as nat))
                == -i
        } else {
            all_digits(value.decimal_text()) && number(value.decimal_text()) == i
        },
{
    match value {
        Literal::Unsigned(n) => {
            lemma_integer_numeral(n as int);
        },
        Literal::Signed(i) => {
            lemma_integer_numeral(i as int);
        },
        Literal::Decimal(text) => {
            lemma_numeral_plain(text@);
        },
        _ => {},
    }
}

} // verus!
