//! The buttons of an activity, which the service writes in two shapes: as
//! bare labels, or as records of a label and an address.

use vstd::prelude::*;
use vstd::string::StringExecFns;
use crate::activity::ActivityButton;
use crate::activity::ButtonView;
use crate::error::DecodeError;
use crate::wire::field;
use crate::wire::member;
use crate::wire::WireValue;

verus! {

/// The buttons of a list as their texts.
pub open spec fn button_views(buttons: Seq<ActivityButton>) -> Seq<ButtonView> {
    buttons.map_values(|b: ActivityButton| b@)
}

/// The button that one item of the list stands for. A text is a label
/// without an address. A record needs a text under `label`; under `url` it
/// has a text or nothing.
pub open spec fn button_of(value: WireValue) -> Result<ButtonView, DecodeError> {
    match value {
        WireValue::Text(label) => Ok(ButtonView { label: label@, url: Seq::empty() }),
        WireValue::Record(_) => match field(value, "label"@) {
            None => Err(DecodeError::MissingRequiredField),
            Some(WireValue::Text(label)) => match field(value, "url"@) {
                None => Ok(ButtonView { label: label@, url: Seq::empty() }),
                Some(WireValue::Text(url)) => Ok(ButtonView { label: label@, url: url@ }),
                Some(_) => Err(DecodeError::WrongShape),
            },
            Some(_) => Err(DecodeError::WrongShape),
        },
        _ => Err(DecodeError::WrongShape),
    }
}

/// The buttons that the items of a list stand for, or the failure of the
/// first item that stands for none.
pub open spec fn buttons_of_items(items: Seq<WireValue>) -> Result<Seq<ButtonView>, DecodeError>
    decreases items.len(),
{
    if items.len() == 0 {
        Ok(Seq::empty())
    } else {
        match buttons_of_items(items.drop_last()) {
            Err(e) => Err(e),
            Ok(front) => match button_of(items.last()) {
                Ok(b) => Ok(front.push(b)),
                Err(e) => Err(e),
            },
        }
    }
}

/// The buttons that the field of an activity stands for. An absent field and
/// `Null` stand for no buttons; anything but a list is refused.
pub open spec fn buttons_of(value: Option<WireValue>) -> Result<Seq<ButtonView>, DecodeError> {
    match value {
        None => Ok(Seq::empty()),
        Some(WireValue::Null) => Ok(Seq::empty()),
        Some(WireValue::List(items)) => buttons_of_items(items@),
        Some(_) => Err(DecodeError::WrongShape),
    }
}

/// A list whose beginning fails, fails in the same way.
pub proof fn lemma_failure_stays(items: Seq<WireValue>, n: int)
    requires
        0 <= n <= items.len(),
        buttons_of_items(items.take(n)).is_err(),
    ensures
        buttons_of_items(items) == buttons_of_items(items.take(n)),
    decreases items.len(),
{
    if n == items.len() {
        assert(items.take(n) =~= items);
    } else {
        assert(items.drop_last().take(n) =~= items.take(n));
        lemma_failure_stays(items.drop_last(), n);
    }
}

/// A list decodes to as many buttons as it has items, each the button of its
/// item, in the order of the items.
pub proof fn lemma_buttons_follow_items(items: Seq<WireValue>)
    requires
        buttons_of_items(items).is_ok(),
    ensures
        buttons_of_items(items).unwrap().len() == items.len(),
        forall|i: int|
            0 <= i < items.len() ==> button_of(#[trigger] items[i]) == Ok::<
                ButtonView,
                DecodeError,
            >(buttons_of_items(items).unwrap()[i]),
    decreases items.len(),
{
    if items.len() > 0 {
        lemma_buttons_follow_items(items.drop_last());
        assert forall|i: int| 0 <= i < items.len() implies button_of(#[trigger] items[i]) == Ok::<
            ButtonView,
            DecodeError,
        >(buttons_of_items(items).unwrap()[i]) by {
            if i < items.len() - 1 {
                assert(items.drop_last()[i] == items[i]);
            }
        }
    }
}

/// Decodes one item of the list of buttons.
pub fn decode_button(value: &WireValue) -> (button: Result<ActivityButton, DecodeError>)
    ensures
        match button {
            Ok(b) => button_of(*value) == Ok::<ButtonView, DecodeError>(b@),
            Err(e) => button_of(*value) == Err::<ButtonView, DecodeError>(e),
        },
{
    match value {
        WireValue::Text(label) => Ok(ActivityButton { label: label.clone(), url: String::new() }),
        WireValue::Record(_) => {
            let label = match value.get("label") {
                None => {
                    return Err(DecodeError::MissingRequiredField);
                },
                Some(WireValue::Text(label)) => label.clone(),
                Some(_) => {
                    return Err(DecodeError::WrongShape);
                },
            };
            let url = match value.get("url") {
                None => String::new(),
                Some(WireValue::Text(url)) => url.clone(),
                Some(_) => {
                    return Err(DecodeError::WrongShape);
                },
            };
            Ok(ActivityButton { label, url })
        },
        _ => Err(DecodeError::WrongShape),
    }
}

/// Decodes the buttons of an activity from either shape of the field. An
/// absent field, `Null` and the empty list give no buttons. The first item
/// that is neither a text nor a record of the expected members fails the
/// whole field.
pub fn decode_buttons(value: Option<&WireValue>) -> (buttons: Result<
    Vec<ActivityButton>,
    DecodeError,
>)
    ensures
        match buttons {
            Ok(b) => buttons_of(deref_value(value)) == Ok::<Seq<ButtonView>, DecodeError>(
                button_views(b@),
            ) && b@.len() == buttons_of(deref_value(value)).unwrap().len(),
            Err(e) => buttons_of(deref_value(value)) == Err::<Seq<ButtonView>, DecodeError>(e),
        },
{
    let items = match value {
        None => {
            let none: Vec<ActivityButton> = Vec::new();
            assert(button_views(none@) =~= Seq::empty());
            return Ok(none);
        },
        Some(WireValue::Null) => {
            let none: Vec<ActivityButton> = Vec::new();
            assert(button_views(none@) =~= Seq::empty());
            return Ok(none);
        },
        Some(WireValue::List(items)) => items,
        Some(_) => {
            return Err(DecodeError::WrongShape);
        },
    };
    let mut out: Vec<ActivityButton> = Vec::new();
    let mut i: usize = 0;
    assert(button_views(out@) =~= Seq::empty());
    assert(items@.take(0) =~= Seq::empty());
    while i < items.len()
        invariant
            i <= items.len(),
            buttons_of(deref_value(value)) == buttons_of_items(items@),
            buttons_of_items(items@.take(i as int)) == Ok::<Seq<ButtonView>, DecodeError>(
                button_views(out@),
            ),
        decreases items.len() - i,
    {
        proof {
            assert(items@.take(i + 1).drop_last() =~= items@.take(i as int));
            assert(items@.take(i + 1).last() == items@[i as int]);
        }
        match decode_button(&items[i]) {
            Ok(b) => {
                let ghost before = out@;
                out.push(b);
                assert(button_views(out@) =~= button_views(before).push(b@));
            },
            Err(e) => {
                proof {
                    lemma_failure_stays(items@, i + 1);
                }
                return Err(e);
            },
        }
        i = i + 1;
    }
    proof {
        assert(items@.take(i as int) =~= items@);
    }
    Ok(out)
}

/// The value behind an optional reference.
pub open spec fn deref_value(value: Option<&WireValue>) -> Option<WireValue> {
    match value {
        Some(v) => Some(*v),
        None => None,
    }
}

/// Encodes a button as a record of its label and its address.
pub fn encode_button(button: ActivityButton) -> (value: WireValue)
    ensures
        button_of(value) == Ok::<ButtonView, DecodeError>(button@),
        field(value, "label"@) == Some(WireValue::Text(button.label)),
        field(value, "url"@) == Some(WireValue::Text(button.url)),
{
    let mut members: Vec<(String, WireValue)> = Vec::new();
    members.push((String::from_str("label"), WireValue::Text(button.label)));
    members.push((String::from_str("url"), WireValue::Text(button.url)));
    proof {
        reveal_strlit("label");
        reveal_strlit("url");
        assert("label"@ != "url"@) by {
            assert("label"@.len() == 5);
            assert("url"@.len() == 3);
        }
        let both = members@;
        assert(both.last().0@ == "url"@);
        assert(member(both, "url"@) == Some(both.last().1));
        let first = both.drop_last();
        assert(first.last().0@ == "label"@);
        assert(member(first, "label"@) == Some(first.last().1));
        assert(member(both, "label"@) == member(first, "label"@));
    }
    WireValue::Record(members)
}

/// Encodes the buttons of an activity as a list of records. The list
/// decodes to the same buttons in the same order.
pub fn encode_buttons(buttons: Vec<ActivityButton>) -> (value: WireValue)
    ensures
        buttons_of(Some(value)) == Ok::<Seq<ButtonView>, DecodeError>(button_views(buttons@)),
        value is List,
{
    let ghost all = buttons@;
    let mut items: Vec<WireValue> = Vec::new();
    assert(button_views(all.take(0)) =~= Seq::empty());
    for button in it: buttons.into_iter()
        invariant
            it.seq() == all,
            items@.len() == it.index(),
            buttons_of_items(items@) == Ok::<Seq<ButtonView>, DecodeError>(
                button_views(all.take(it.index() as int)),
            ),
    {
        let ghost before = items@;
        let ghost n = it.index() as int;
        let item = encode_button(button);
        items.push(item);
        proof {
            assert(items@.drop_last() =~= before);
            assert(all.take(n + 1) =~= all.take(n).push(button));
            assert(button_views(all.take(n + 1)) =~= button_views(all.take(n)).push(button@));
        }
    }
    proof {
        assert(all.take(all.len() as int) =~= all);
    }
    WireValue::List(items)
}

} // verus!
