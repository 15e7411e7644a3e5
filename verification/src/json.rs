//! The documents that resources are read from and written to.

use vstd::prelude::*;

verus! {

/// A number of a document.
///
/// A literal that is a whole number from zero up to 2^64 - 1 is held as
/// `Whole`. A whole number below zero, down to -2^63, is held as `Negative`.
/// Any other literal is held as `Real`: the nearest IEEE 754 double, as its
/// 64 bits.
#[derive(Clone, Copy, Debug, PartialEq, Eq)]
pub enum Number {
    Whole(u64),
    Negative(i64),
    Real(u64),
}

/// One named member of a record.
#[derive(Debug, PartialEq, Eq)]
pub struct Member {
    pub name: String,
    pub value: Json,
}

/// A document: a tree of records, lists and scalars.
#[derive(Debug, PartialEq, Eq)]
pub enum Json {
    Null,
    Bool(bool),
    Number(Number),
    Text(String),
    List(Vec<Json>),
    Record(Vec<Member>),
}

/// What a document says, with strings as character sequences.
pub enum JsonValue {
    Null,
    Bool(bool),
    Number(Number),
    Text(Seq<char>),
    List(Seq<JsonValue>),
    Record(Seq<(Seq<char>, JsonValue)>),
}

impl View for Json {
    type V = JsonValue;

    open spec fn view(&self) -> JsonValue
        decreases self,
    {
        match self {
            Json::Null => JsonValue::Null,
            Json::Bool(b) => JsonValue::Bool(*b),
            Json::Number(n) => JsonValue::Number(*n),
            Json::Text(s) => JsonValue::Text(s@),
            Json::List(items) => JsonValue::List(list_view(items@)),
            Json::Record(members) => JsonValue::Record(record_view(members@)),
        }
    }
}

/// The views of the documents of a list, in order.
pub open spec fn list_view(items: Seq<Json>) -> Seq<JsonValue>
    decreases items,
{
    if items.len() == 0 {
        Seq::empty()
    } else {
        list_view(items.drop_last()).push(items.last()@)
    }
}

/// The names and views of the members of a record, in order.
pub open spec fn record_view(members: Seq<Member>) -> Seq<(Seq<char>, JsonValue)>
    decreases members,
{
    if members.len() == 0 {
        Seq::empty()
    } else {
        record_view(members.drop_last()).push((members.last().name@, members.last().value@))
    }
}

/// `list_view` keeps the length and views each document in place.
pub proof fn lemma_list_view(items: Seq<Json>)
    ensures
        list_view(items).len() == items.len(),
        forall|i: int| 0 <= i < items.len() ==> (#[trigger] list_view(items)[i]) == items[i]@,
    decreases items.len(),
{
    reveal_with_fuel(list_view, 2);
    if items.len() > 0 {
        lemma_list_view(items.drop_last());
    }
}

/// `record_view` keeps the length and views each member in place.
pub proof fn lemma_record_view(members: Seq<Member>)
    ensures
        record_view(members).len() == members.len(),
        forall|i: int|
            0 <= i < members.len() ==> (#[trigger] record_view(members)[i]) == (
                members[i].name@,
                members[i].value@,
            ),
    decreases members.len(),
{
    reveal_with_fuel(record_view, 2);
    if members.len() > 0 {
        lemma_record_view(members.drop_last());
    }
}

/// The views of the first `n` members are the first `n` member views.
pub proof fn lemma_record_view_take(members: Seq<Member>, n: int)
    requires
        0 <= n <= members.len(),
    ensures
        record_view(members.take(n)) == record_view(members).take(n),
{
    lemma_record_view(members);
    lemma_record_view(members.take(n));
    assert(record_view(members.take(n)) =~= record_view(members).take(n));
}

impl Number {
    /// Whether the number is greater than zero. Of a double this holds for
    /// the bit patterns from the smallest subnormal up to positive infinity;
    /// a NaN is not greater than anything.
    pub open spec fn positive(self) -> bool {
        match self {
            Number::Whole(n) => n > 0,
            Number::Negative(n) => n > 0,
            Number::Real(bits) => 0 < bits <= 0x7FF0_0000_0000_0000u64,
        }
    }

    /// Whether the number is zero or greater. Of a double this holds for
    /// both zeros and for every positive value up to infinity.
    pub open spec fn non_negative(self) -> bool {
        match self {
            Number::Whole(_) => true,
            Number::Negative(n) => n >= 0,
            Number::Real(bits) => bits <= 0x7FF0_0000_0000_0000u64 || bits
                == 0x8000_0000_0000_0000u64,
        }
    }

    /// Decides `positive`.
    pub fn is_positive(&self) -> (b: bool)
        ensures
            b == self.positive(),
    {
        match self {
            Number::Whole(n) => *n > 0,
            Number::Negative(n) => *n > 0,
            Number::Real(bits) => 0 < *bits && *bits <= 0x7FF0_0000_0000_0000u64,
        }
    }

    /// Decides `non_negative`.
    pub fn is_non_negative(&self) -> (b: bool)
        ensures
            b == self.non_negative(),
    {
        match self {
            Number::Whole(_) => true,
            Number::Negative(n) => *n >= 0,
            Number::Real(bits) => *bits <= 0x7FF0_0000_0000_0000u64 || *bits
                == 0x8000_0000_0000_0000u64,
        }
    }
}

/// The values of the members called `name`, in the order of the record.
pub open spec fn occurrences(fields: Seq<(Seq<char>, JsonValue)>, name: Seq<char>) -> Seq<
    JsonValue,
>
    decreases fields.len(),
{
    if fields.len() == 0 {
        Seq::empty()
    } else if fields.last().0 == name {
        occurrences(fields.drop_last(), name).push(fields.last().1)
    } else {
        occurrences(fields.drop_last(), name)
    }
}

/// The value of a member that has to be there: the record holds exactly one
/// member of that name.
pub open spec fn required(fields: Seq<(Seq<char>, JsonValue)>, name: Seq<char>) -> Option<
    JsonValue,
> {
    let found = occurrences(fields, name);
    if found.len() == 1 {
        Some(found[0])
    } else {
        None
    }
}

/// The value of a member that may be left out. The outer `None` stands for a
/// record that names the member more than once; the inner `None` for a member
/// that is absent or null.
pub open spec fn optional(fields: Seq<(Seq<char>, JsonValue)>, name: Seq<char>) -> Option<
    Option<JsonValue>,
> {
    let found = occurrences(fields, name);
    if found.len() == 0 {
        Some(None)
    } else if found.len() == 1 {
        if found[0] is Null {
            Some(None)
        } else {
            Some(Some(found[0]))
        }
    } else {
        None
    }
}

/// A member of another name, wherever it stands in the record, changes
/// nothing of what is found under `name`.
pub proof fn law_other_member_passed_over(
    fields: Seq<(Seq<char>, JsonValue)>,
    at: int,
    other: (Seq<char>, JsonValue),
    name: Seq<char>,
)
    requires
        0 <= at <= fields.len(),
        other.0 != name,
    ensures
        occurrences(fields.insert(at, other), name) == occurrences(fields, name),
        required(fields.insert(at, other), name) == required(fields, name),
        optional(fields.insert(at, other), name) == optional(fields, name),
    decreases fields.len(),
{
    let longer = fields.insert(at, other);
    if at == fields.len() {
        assert(longer.drop_last() =~= fields);
    } else {
        assert(longer.drop_last() =~= fields.drop_last().insert(at, other));
        assert(longer.last() == fields.last());
        law_other_member_passed_over(fields.drop_last(), at, other, name);
    }
}

/// What a search for a member by name came to.
pub enum Found<'a> {
    Missing,
    One(&'a Json),
    Repeated,
}

/// Looks a member up by name.
pub fn find<'a>(members: &'a Vec<Member>, name: &str) -> (r: Found<'a>)
    ensures
        match r {
            Found::Missing => occurrences(record_view(members@), name@).len() == 0,
            Found::One(value) => occurrences(record_view(members@), name@) == seq![value@],
            Found::Repeated => occurrences(record_view(members@), name@).len() >= 2,
        },
{
    let key = name.to_owned();
    let mut first: Option<&'a Json> = None;
    let mut repeated = false;
    let mut i: usize = 0;
    proof {
        lemma_record_view(members@);
        assert(members@.take(0) =~= Seq::<Member>::empty());
    }
    while i < members.len()
        invariant
            i <= members.len(),
            key@ == name@,
            match first {
                None => !repeated && occurrences(record_view(members@.take(i as int)), name@).len()
                    == 0,
                Some(value) => if repeated {
                    occurrences(record_view(members@.take(i as int)), name@).len() >= 2
                } else {
                    occurrences(record_view(members@.take(i as int)), name@) == seq![value@]
                },
            },
        decreases members.len() - i,
    {
        let member = &members[i];
        proof {
            let next = members@.take(i + 1);
            assert(next.drop_last() =~= members@.take(i as int));
            lemma_record_view(next);
            lemma_record_view_take(next, i as int);
            assert(record_view(next).drop_last() =~= record_view(members@.take(i as int)));
            assert(record_view(next).last() == (member.name@, member.value@));
        }
        if member.name == key {
            match first {
                None => {
                    first = Some(&member.value);
                    assert(occurrences(record_view(members@.take(i + 1)), name@) =~= seq![
                        member.value@,
                    ]);
                },
                Some(_) => {
                    repeated = true;
                },
            }
        }
        i += 1;
    }
    assert(members@.take(i as int) =~= members@);
    match first {
        None => Found::Missing,
        Some(value) => if repeated {
            Found::Repeated
        } else {
            Found::One(value)
        },
    }
}

} // verus!
