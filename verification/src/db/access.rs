//! Per-number authorization applied to rows read back from storage.

use vstd::prelude::*;
use crate::db::models::{ApiToken, Message, PhoneNumber};

verus! {

/// The phone numbers, in their stored order, that the token may access.
pub open spec fn accessible(token: ApiToken, numbers: Seq<PhoneNumber>) -> Seq<PhoneNumber> {
    numbers.filter(number_pred(token))
}

/// The test that `accessible` keeps numbers by.
pub open spec fn number_pred(token: ApiToken) -> spec_fn(PhoneNumber) -> bool {
    |p: PhoneNumber| token.may_access(p.phone_number@)
}

/// Keeps the phone numbers the token may access, in order.
pub fn accessible_numbers(numbers: Vec<PhoneNumber>, token: &ApiToken) -> (r: Vec<PhoneNumber>)
    ensures
        r@ == accessible(*token, numbers@),
{
    let ghost all = numbers@;
    let ghost pred = number_pred(*token);
    let mut rest = numbers;
    let mut reversed: Vec<PhoneNumber> = Vec::new();
    while rest.len() > 0
        invariant
            rest@.len() + reversed@.len() == all.len(),
            rest@ == all.take(rest@.len() as int),
            forall|k: int| 0 <= k < reversed@.len() ==> #[trigger] reversed@[k] == all[all.len() - 1 - k],
        decreases rest@.len(),
    {
        let x = rest.pop().unwrap();
        reversed.push(x);
        assert(all.take(rest@.len() + 1 as int).drop_last() =~= all.take(rest@.len() as int));
    }
    let mut r: Vec<PhoneNumber> = Vec::new();
    while reversed.len() > 0
        invariant
            reversed@.len() <= all.len(),
            forall|k: int| 0 <= k < reversed@.len() ==> #[trigger] reversed@[k] == all[all.len() - 1 - k],
            pred == number_pred(*token),
            r@ == all.take(all.len() - reversed@.len()).filter(pred),
        decreases reversed@.len(),
    {
        let ghost done = all.len() - reversed@.len();
        let x = reversed.pop().unwrap();
        assert(x == all[done]);
        assert(all.take(done + 1) =~= all.take(done).push(x));
        proof {
            all.take(done).lemma_filter_push(x, pred);
        }
        assert(pred(x) == token.may_access(x.phone_number@));
        if token.can_access_number(x.phone_number.as_str()) {
            r.push(x);
        }
        assert(all.len() - reversed@.len() == done + 1);
    }
    assert(all.take(all.len() as int) =~= all);
    r
}

/// The message, if there is one and the token may access its recipient number.
pub open spec fn visible(token: ApiToken, msg: Option<Message>) -> Option<Message> {
    match msg {
        Some(m) => if token.may_access(m.recipient_number@) { Some(m) } else { None },
        None => None,
    }
}

/// Hides a message whose recipient number the token may not access.
pub fn visible_message(msg: Option<Message>, token: &ApiToken) -> (r: Option<Message>)
    ensures
        r == visible(*token, msg),
{
    match msg {
        Some(m) => {
            if token.can_access_number(m.recipient_number.as_str()) {
                Some(m)
            } else {
                None
            }
        },
        None => None,
    }
}

/// Whether a message may be deleted: the token must see it (`visible` is its lookup through
/// `visible_message`) and hold delete or admin rights.
pub open spec fn deletion_allowed(token: ApiToken, visible: Option<Message>) -> bool {
    visible is Some && (token.can_delete || token.is_admin)
}

/// Decides whether a message that was looked up may be deleted.
pub fn may_delete(visible: &Option<Message>, token: &ApiToken) -> (r: bool)
    ensures
        r == deletion_allowed(*token, *visible),
{
    if visible.is_none() {
        return false;
    }
    if !token.can_delete && !token.is_admin {
        return false;
    }
    true
}

/// Every listed number is one the token may access, and every stored number it may access
/// is listed.
pub proof fn law_listed_numbers_are_exactly_the_accessible_ones(
    token: ApiToken,
    numbers: Seq<PhoneNumber>,
    p: PhoneNumber,
)
    ensures
        accessible(token, numbers).contains(p) <==> (numbers.contains(p) && token.may_access(p.phone_number@)),
{
    broadcast use vstd::seq_lib::group_filter_ensures;
    let pred = number_pred(token);
    if numbers.contains(p) && token.may_access(p.phone_number@) {
        let i = choose|i: int| 0 <= i < numbers.len() && numbers[i] == p;
        numbers.lemma_filter_contains(pred, i);
    }
    if accessible(token, numbers).contains(p) {
        let i = choose|i: int| 0 <= i < numbers.filter(pred).len() && numbers.filter(pred)[i] == p;
        numbers.lemma_filter_pred(pred, i);
        numbers.lemma_filter_contains_rev(pred, p);
    }
}

} // verus!

verus! {

/// A message is only ever deleted when the token may access its recipient number and
/// holds delete or admin rights.
pub proof fn law_deletion_needs_access_and_rights(token: ApiToken, msg: Option<Message>)
    requires
        deletion_allowed(token, visible(token, msg)),
    ensures
        msg matches Some(m) && token.may_access(m.recipient_number@),
        token.can_delete || token.is_admin,
{
}

} // verus!
