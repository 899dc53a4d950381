//! The condition algebra: comparisons of one field, and trees of them under
//! and, or and not.

use vstd::prelude::*;
use crate::fields::Field;
use crate::serializer::{to_string, Literal};
use crate::text::{join, joined, views};
use crate::traits::{IsEmpty, Render};

verus! {

/// The comparison that a condition makes.
#[derive(Clone, Copy, PartialEq, Eq, Structural, Debug)]
pub enum Operator {
    Eq,
    Neq,
    Gt,
    Gte,
    Lt,
    Ilike,
    Like,
}

/// One comparison of a field with a scalar.
#[derive(Debug)]
pub struct Condition {
    pub operator: Operator,
    pub value: Literal,
}

/// A tree of conditions.
#[derive(Debug)]
pub enum Conditions {
    And(Box<Conditions>, Box<Conditions>),
    Or(Box<Conditions>, Box<Conditions>),
    Not(Box<Conditions>),
    /// The comparisons that one field has to meet, all of them.
    Leaf(Field, Vec<Condition>),
    /// No condition at all.
    Empty,
}

impl Operator {
    /// The operator as it is written in a document.
    pub open spec fn text(self) -> Seq<char> {
        match self {
            Operator::Eq => "_eq"@,
            Operator::Neq => "_neq"@,
            Operator::Gt => "_gt"@,
            Operator::Gte => "_gte"@,
            Operator::Lt => "_lt"@,
            Operator::Ilike => "_ilike"@,
            Operator::Like => "_like"@,
        }
    }

    /// Whether the operator can compare with `value`: equality with every
    /// scalar, an order with numbers and strings, a pattern with strings.
    pub open spec fn applies_to(self, value: Literal) -> bool {
        match self {
            Operator::Eq | Operator::Neq => value is Bool || value is Unsigned || value is Signed
                || value is Decimal || value is Text,
            Operator::Gt | Operator::Gte | Operator::Lt => value is Unsigned || value is Signed
                || value is Decimal || value is Text,
            Operator::Ilike | Operator::Like => value is Text,
        }
    }

    /// The operator as it is written in a document.
    pub fn to_string(&self) -> (out: String)
        ensures
            out@ == self.text(),
    {
        match self {
            Operator::Eq => String::from_str("_eq"),
            Operator::Neq => String::from_str("_neq"),
            Operator::Gt => String::from_str("_gt"),
            Operator::Gte => String::from_str("_gte"),
            Operator::Lt => String::from_str("_lt"),
            Operator::Ilike => String::from_str("_ilike"),
            Operator::Like => String::from_str("_like"),
        }
    }

    /// Whether the operator can compare with `value`.
    pub fn accepts(&self, value: &Literal) -> (out: bool)
        ensures
            out == self.applies_to(*value),
    {
        match self {
            Operator::Eq | Operator::Neq => match value {
                Literal::Bool(_) | Literal::Unsigned(_) | Literal::Signed(_) | Literal::Decimal(
                    _,
                ) | Literal::Text(_) => true,
                _ => false,
            },
            Operator::Gt | Operator::Gte | Operator::Lt => match value {
                Literal::Unsigned(_) | Literal::Signed(_) | Literal::Decimal(_) | Literal::Text(
                    _,
                ) => true,
                _ => false,
            },
            Operator::Ilike | Operator::Like => match value {
                Literal::Text(_) => true,
                _ => false,
            },
        }
    }
}

impl Condition {
    /// Whether the operator can compare with the value.
    pub open spec fn wf(self) -> bool {
        self.operator.applies_to(self.value)
    }

    /// The text of the condition: the operator, a colon with a space on
    /// either side, the value as a literal.
    pub open spec fn text(self) -> Seq<char> {
        self.operator.text() + " : "@ + self.value.rendered(true)
    }

    /// The comparison of a field with `value` by `operator`, where the
    /// operator can compare with that value.
    pub fn new(operator: Operator, value: Literal) -> (out: Option<Condition>)
        ensures
            out == if operator.applies_to(value) {
                Some(Condition { operator, value })
            } else {
                None
            },
    {
        if operator.accepts(&value) {
            Some(Condition { operator, value })
        } else {
            None
        }
    }

    /// The text of the condition.
    pub fn to_string(&self) -> (out: String)
        ensures
            out@ == self.text(),
    {
        let mut out = self.operator.to_string();
        out.append(" : ");
        out.append(to_string(&self.value, true).as_str());
        out
    }
}

/// The text of each condition, in order.
pub open spec fn condition_texts(conditions: Seq<Condition>) -> Seq<Seq<char>> {
    conditions.map_values(|c: Condition| c.text())
}

impl Conditions {
    /// Whether the tree stands for no condition at all: it is empty, or an
    /// and or an or of two such trees. A negation always stands for one.
    pub open spec fn vacant(self) -> bool
        decreases self,
    {
        match self {
            Conditions::And(l, r) => l.vacant() && r.vacant(),
            Conditions::Or(l, r) => l.vacant() && r.vacant(),
            Conditions::Not(_) => false,
            Conditions::Leaf(_, _) => false,
            Conditions::Empty => true,
        }
    }

    /// The text of the tree. An empty tree has no text, and under and and
    /// or it leaves no trace: the other side stands alone. A negation
    /// always writes its operand between its braces.
    pub open spec fn text(self) -> Seq<char>
        decreases self,
    {
        match self {
            Conditions::And(l, r) => if l.vacant() {
                r.text()
            } else if r.vacant() {
                l.text()
            } else {
                "_and{ "@ + l.text() + ", "@ + r.text() + " }"@
            },
            Conditions::Or(l, r) => if l.vacant() {
                r.text()
            } else if r.vacant() {
                l.text()
            } else {
                "_or{ "@ + l.text() + ", "@ + r.text() + " }"@
            },
            Conditions::Not(c) => "_not{ "@ + c.text() + " }"@,
            Conditions::Leaf(field, conditions) => field@.text() + ": { "@ + joined(
                condition_texts(conditions@),
                ", "@,
            ) + " }"@,
            Conditions::Empty => Seq::empty(),
        }
    }

    /// Both trees have to hold.
    pub fn and(self, other: Conditions) -> (out: Conditions)
        ensures
            out == Conditions::And(Box::new(self), Box::new(other)),
    {
        Conditions::And(Box::new(self), Box::new(other))
    }

    /// One of the trees has to hold.
    pub fn or(self, other: Conditions) -> (out: Conditions)
        ensures
            out == Conditions::Or(Box::new(self), Box::new(other)),
    {
        Conditions::Or(Box::new(self), Box::new(other))
    }

    /// The tree must not hold.
    pub fn not(self) -> (out: Conditions)
        ensures
            out == Conditions::Not(Box::new(self)),
    {
        Conditions::Not(Box::new(self))
    }

    /// One comparison of one field.
    pub fn single(field: Field, condition: Condition) -> (out: Conditions)
        ensures
            out matches Conditions::Leaf(f, conditions) && f == field && conditions@ == seq![
                condition,
            ],
    {
        let mut conditions: Vec<Condition> = Vec::new();
        conditions.push(condition);
        Conditions::Leaf(field, conditions)
    }

    /// Several comparisons of one field.
    pub fn many(field: Field, conditions: Vec<Condition>) -> (out: Conditions)
        ensures
            out == Conditions::Leaf(field, conditions),
    {
        Conditions::Leaf(field, conditions)
    }

    /// Whether the tree stands for no condition at all.
    pub fn is_vacant(&self) -> (out: bool)
        ensures
            out == self.vacant(),
        decreases self,
    {
        match self {
            Conditions::And(l, r) => l.is_vacant() && r.is_vacant(),
            Conditions::Or(l, r) => l.is_vacant() && r.is_vacant(),
            Conditions::Not(_) => false,
            Conditions::Leaf(_, _) => false,
            Conditions::Empty => true,
        }
    }

    /// The text of the tree.
    pub fn to_string(&self) -> (out: String)
        ensures
            out@ == self.text(),
        decreases self,
    {
        match self {
            Conditions::And(l, r) => if l.is_vacant() {
                r.to_string()
            } else if r.is_vacant() {
                l.to_string()
            } else {
                Conditions::pair("_and{ ", l.to_string(), r.to_string())
            },
            Conditions::Or(l, r) => if l.is_vacant() {
                r.to_string()
            } else if r.is_vacant() {
                l.to_string()
            } else {
                Conditions::pair("_or{ ", l.to_string(), r.to_string())
            },
            Conditions::Not(c) => {
                let mut out = String::from_str("_not{ ");
                out.append(c.to_string().as_str());
                out.append(" }");
                out
            },
            Conditions::Leaf(field, conditions) => {
                let mut parts: Vec<String> = Vec::new();
                let mut i: usize = 0;
                while i < conditions.len()
                    invariant
                        i <= conditions.len(),
                        parts@.len() == i,
                        forall|j: int|
                            0 <= j < i ==> (#[trigger] parts@[j])@ == conditions@[j].text(),
                    decreases conditions.len() - i,
                {
                    parts.push(conditions[i].to_string());
                    i += 1;
                }
                assert(views(parts@) == condition_texts(conditions@));
                let mut out = field.to_string();
                out.append(": { ");
                out.append(join(&parts, ", ").as_str());
                out.append(" }");
                out
            },
            Conditions::Empty => String::new(),
        }
    }

    /// Two texts under one combinator, which `open` starts.
    fn pair(open: &str, l: String, r: String) -> (out: String)
        ensures
            out@ == open@ + l@ + ", "@ + r@ + " }"@,
    {
        let mut out = String::from_str(open);
        out.append(l.as_str());
        out.append(", ");
        out.append(r.as_str());
        out.append(" }");
        out
    }
}

/// A tree has no text exactly when it stands for no condition.
pub proof fn lemma_vacant_without_text(conditions: Conditions)
    ensures
        conditions.vacant() <==> conditions.text().len() == 0,
    decreases conditions,
{
    match conditions {
        Conditions::And(l, r) => {
            lemma_vacant_without_text(*l);
            lemma_vacant_without_text(*r);
            if !l.vacant() && !r.vacant() {
                reveal_strlit("_and{ ");
            }
        },
        Conditions::Or(l, r) => {
            lemma_vacant_without_text(*l);
            lemma_vacant_without_text(*r);
            if !l.vacant() && !r.vacant() {
                reveal_strlit("_or{ ");
            }
        },
        Conditions::Not(_) => {
            reveal_strlit("_not{ ");
        },
        Conditions::Leaf(_, _) => {
            reveal_strlit(": { ");
        },
        Conditions::Empty => {},
    }
}

/// The empty tree is the identity of and and of or: combined with it, a
/// tree keeps its text.
pub proof fn lemma_empty_is_identity(conditions: Conditions)
    ensures
        Conditions::And(Box::new(Conditions::Empty), Box::new(conditions)).text()
            == conditions.text(),
        Conditions::And(Box::new(conditions), Box::new(Conditions::Empty)).text()
            == conditions.text(),
        Conditions::Or(Box::new(Conditions::Empty), Box::new(conditions)).text()
            == conditions.text(),
        Conditions::Or(Box::new(conditions), Box::new(Conditions::Empty)).text()
            == conditions.text(),
{
    lemma_vacant_without_text(conditions);
    assert(Conditions::Empty.text() == Seq::<char>::empty());
}

/// Where both sides stand for a condition, and and or write them side by
/// side between their braces, the left before the right. A negation writes
/// its operand between its braces whatever the operand is, and always stands
/// for a condition.
pub proof fn lemma_combinators(l: Conditions, r: Conditions, c: Conditions)
    ensures
        !l.vacant() && !r.vacant() ==> Conditions::And(Box::new(l), Box::new(r)).text()
            == "_and{ "@ + l.text() + ", "@ + r.text() + " }"@,
        !l.vacant() && !r.vacant() ==> Conditions::Or(Box::new(l), Box::new(r)).text() == "_or{ "@
            + l.text() + ", "@ + r.text() + " }"@,
        Conditions::Not(Box::new(c)).text() == "_not{ "@ + c.text() + " }"@,
        !Conditions::Not(Box::new(c)).vacant(),
{
}

/// Trees are never flattened: three trees that each stand for a condition,
/// combined by and one after the other, are written as the and of the first
/// two, and the third.
pub proof fn lemma_and_nests(a: Conditions, b: Conditions, c: Conditions)
    requires
        !a.vacant(),
        !b.vacant(),
        !c.vacant(),
    ensures
        Conditions::And(
            Box::new(Conditions::And(Box::new(a), Box::new(b))),
            Box::new(c),
        ).text() == "_and{ "@ + ("_and{ "@ + a.text() + ", "@ + b.text() + " }"@) + ", "@
            + c.text() + " }"@,
{
    let inner = Conditions::And(Box::new(a), Box::new(b));
    assert(Conditions::And(Box::new(inner), Box::new(c)).text() == "_and{ "@ + inner.text()
        + ", "@ + c.text() + " }"@);
}

impl Render for Condition {
    open spec fn text(&self) -> Seq<char> {
        Condition::text(*self)
    }

    fn render(&self) -> (out: String) {
        self.to_string()
    }
}

impl Render for Conditions {
    open spec fn text(&self) -> Seq<char> {
        Conditions::text(*self)
    }

    fn render(&self) -> (out: String) {
        self.to_string()
    }
}

impl IsEmpty for Conditions {
    open spec fn holds_nothing(&self) -> bool {
        self.vacant()
    }

    fn is_empty(&self) -> (out: bool) {
        self.is_vacant()
    }
}

} // verus!
