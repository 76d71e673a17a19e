//! A value as it stands in a payload, before any field is given its type.

use vstd::prelude::*;
use vstd::string::StringExecFns;

verus! {

/// A value of a payload: what the wire format can write down.
#[derive(Debug)]
pub enum WireValue {
    /// The value that says "nothing here".
    Null,
    /// A truth value.
    Bool(bool),
    /// An integer that is not negative.
    Unsigned(u64),
    /// A negative integer.
    Negative(i64),
    /// A number that is no integer; what it was is not kept.
    Fraction,
    /// A text.
    Text(String),
    /// A list of values.
    List(Vec<WireValue>),
    /// Named values, in the order in which they were written. Where a name
    /// stands twice, the later one counts.
    Record(Vec<(String, WireValue)>),
}

/// The value that a list of named values holds under `name`: the last one
/// written under it.
pub open spec fn member(members: Seq<(String, WireValue)>, name: Seq<char>) -> Option<WireValue>
    decreases members.len(),
{
    if members.len() == 0 {
        None
    } else if members.last().0@ == name {
        Some(members.last().1)
    } else {
        member(members.drop_last(), name)
    }
}

/// The value that `value` holds under `name`, if `value` is a record that has
/// the name.
pub open spec fn field(value: WireValue, name: Seq<char>) -> Option<WireValue> {
    match value {
        WireValue::Record(members) => member(members@, name),
        _ => None,
    }
}

/// A name that does not occur among the later members is looked up among the
/// earlier ones.
pub proof fn lemma_member_skips(members: Seq<(String, WireValue)>, name: Seq<char>, from: int)
    requires
        0 <= from <= members.len(),
        forall|i: int| from <= i < members.len() ==> (#[trigger] members[i]).0@ != name,
    ensures
        member(members, name) == member(members.take(from), name),
    decreases members.len(),
{
    if from == members.len() {
        assert(members.take(from) =~= members);
    } else {
        assert(members.last() == members[members.len() - 1]);
        lemma_member_skips(members.drop_last(), name, from);
        assert(members.drop_last().take(from) =~= members.take(from));
    }
}

impl WireValue {
    /// Whether the value is `Null`.
    pub fn is_null(&self) -> (null: bool)
        ensures
            null == (*self is Null),
    {
        matches!(self, WireValue::Null)
    }

    /// The text of a `Text` value.
    pub fn as_text(&self) -> (text: Option<&String>)
        ensures
            match *self {
                WireValue::Text(t) => text == Some(&t),
                _ => text.is_none(),
            },
    {
        match self {
            WireValue::Text(t) => Some(t),
            _ => None,
        }
    }

    /// The integer of an `Unsigned` value.
    pub fn as_unsigned(&self) -> (number: Option<u64>)
        ensures
            match *self {
                WireValue::Unsigned(n) => number == Some(n),
                _ => number.is_none(),
            },
    {
        match self {
            WireValue::Unsigned(n) => Some(*n),
            _ => None,
        }
    }

    /// The items of a `List` value.
    pub fn as_list(&self) -> (items: Option<&Vec<WireValue>>)
        ensures
            match *self {
                WireValue::List(l) => items == Some(&l),
                _ => items.is_none(),
            },
    {
        match self {
            WireValue::List(l) => Some(l),
            _ => None,
        }
    }

    /// Looks a name up in a record. Gives `None` for a value that is no
    /// record and for a record without the name.
    pub fn get(&self, name: &str) -> (found: Option<&WireValue>)
        ensures
            match found {
                Some(v) => field(*self, name@) == Some(*v),
                None => field(*self, name@).is_none(),
            },
    {
        match self {
            WireValue::Record(members) => {
                let wanted = String::from_str(name);
                let mut i: usize = members.len();
                while i > 0
                    invariant
                        i <= members.len(),
                        wanted@ == name@,
                        field(*self, name@) == member(members@, name@),
                        forall|j: int|
                            i <= j < members.len() ==> (#[trigger] members@[j]).0@ != name@,
                    decreases i,
                {
                    i = i - 1;
                    if members[i].0 == wanted {
                        proof {
                            let upto = members@.take(i + 1);
                            lemma_member_skips(members@, name@, i + 1);
                            assert(upto.last() == members@[i as int]);
                            assert(upto.last().0@ == name@);
                            assert(member(upto, name@) == Some(upto.last().1));
                        }
                        return Some(&members[i].1);
                    }
                }
                proof {
                    lemma_member_skips(members@, name@, 0);
                    assert(members@.take(0).len() == 0);
                }
                None
            },
            _ => None,
        }
    }
}

} // verus!
