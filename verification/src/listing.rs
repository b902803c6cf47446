//! The order in which contacts and threads are listed.
//!
//! Contacts come by category and then by name, texts ordered by their bytes,
//! so that upper case comes before lower case. A thread comes oldest first,
//! messages of the same second in the order of their ids.

use vstd::prelude::*;
use vstd::string::*;
use vstd::utf8::encode_utf8;
use crate::commands::{Contact, Message};

verus! {

/// How one key stands to another.
#[derive(Debug, Clone, Copy, PartialEq, Eq, Structural)]
pub enum Rank {
    Before,
    Same,
    After,
}

/// `a` comes before `b` in the order of byte strings: at the first place
/// where they differ `a` has the smaller byte, or `a` ends there and `b`
/// goes on.
pub open spec fn bytes_before(a: Seq<u8>, b: Seq<u8>) -> bool {
    exists|k: int| parts_at(a, b, k)
}

/// `a` and `b` agree on their first `k` bytes, and there `a` ends while `b`
/// goes on, or `a` has the smaller byte.
pub open spec fn parts_at(a: Seq<u8>, b: Seq<u8>, k: int) -> bool {
    &&& 0 <= k <= a.len()
    &&& k < b.len()
    &&& a.subrange(0, k) == b.subrange(0, k)
    &&& k < a.len() ==> a[k] < b[k]
}

/// What `rank_bytes` says of two byte strings.
pub open spec fn ranked(a: Seq<u8>, b: Seq<u8>, r: Rank) -> bool {
    match r {
        Rank::Before => bytes_before(a, b),
        Rank::Same => a == b,
        Rank::After => bytes_before(b, a),
    }
}

/// Compares two byte strings.
pub fn rank_bytes(a: &[u8], b: &[u8]) -> (r: Rank)
    ensures
        ranked(a@, b@, r),
{
    let mut i: usize = 0;
    while i < a.len() && i < b.len()
        invariant
            i <= a@.len(),
            i <= b@.len(),
            a@.subrange(0, i as int) == b@.subrange(0, i as int),
        decreases a@.len() - i,
    {
        if a[i] < b[i] {
            proof {
                assert(parts_at(a@, b@, i as int));
            }
            return Rank::Before;
        }
        if a[i] > b[i] {
            proof {
                assert(parts_at(b@, a@, i as int));
            }
            return Rank::After;
        }
        proof {
            assert(a@.subrange(0, i + 1) =~= a@.subrange(0, i as int).push(a@[i as int]));
            assert(b@.subrange(0, i + 1) =~= b@.subrange(0, i as int).push(b@[i as int]));
        }
        i = i + 1;
    }
    if a.len() < b.len() {
        proof {
            assert(parts_at(a@, b@, i as int));
        }
        Rank::Before
    } else if a.len() > b.len() {
        proof {
            assert(parts_at(b@, a@, i as int));
        }
        Rank::After
    } else {
        proof {
            assert(a@ =~= a@.subrange(0, i as int));
            assert(b@ =~= b@.subrange(0, i as int));
        }
        Rank::Same
    }
}

/// The order of byte strings is transitive.
pub proof fn bytes_before_is_transitive(a: Seq<u8>, b: Seq<u8>, c: Seq<u8>)
    requires
        bytes_before(a, b),
        bytes_before(b, c),
    ensures
        bytes_before(a, c),
{
    let k1 = choose|k: int| parts_at(a, b, k);
    let k2 = choose|k: int| parts_at(b, c, k);
    let k = if k1 <= k2 { k1 } else { k2 };
    assert forall|i: int| 0 <= i < k implies a[i] == c[i] by {
        assert(a.subrange(0, k1)[i] == b.subrange(0, k1)[i]);
        assert(b.subrange(0, k2)[i] == c.subrange(0, k2)[i]);
    }
    assert(a.subrange(0, k) =~= c.subrange(0, k));
    if k1 < k2 {
        assert(b.subrange(0, k2)[k1] == c.subrange(0, k2)[k1]);
    } else if k2 < k1 {
        assert(a.subrange(0, k1)[k2] == b.subrange(0, k1)[k2]);
    }
    assert(parts_at(a, c, k));
}

/// Of two byte strings at most one comes before the other, and none comes
/// before itself: with `rank_bytes`, exactly one rank holds of a pair.
pub proof fn bytes_before_is_asymmetric(a: Seq<u8>, b: Seq<u8>)
    requires
        bytes_before(a, b),
    ensures
        !bytes_before(b, a),
        a != b,
{
    let k1 = choose|k: int| parts_at(a, b, k);
    if bytes_before(b, a) {
        let k2 = choose|k: int| parts_at(b, a, k);
        if k1 < k2 {
            assert(b.subrange(0, k2)[k1] == a.subrange(0, k2)[k1]);
        } else if k2 < k1 {
            assert(a.subrange(0, k1)[k2] == b.subrange(0, k1)[k2]);
        }
    }
}

/// The key by which a text is ordered: its bytes.
pub open spec fn text_key(text: Seq<char>) -> Seq<u8> {
    encode_utf8(text)
}

/// `a` is listed strictly before `b`: its category comes first, or the
/// categories are the same and its name comes first.
pub open spec fn contact_before(a: Contact, b: Contact) -> bool {
    bytes_before(text_key(a.category@), text_key(b.category@)) || (text_key(a.category@) == text_key(
        b.category@,
    ) && bytes_before(text_key(a.name@), text_key(b.name@)))
}

/// `a` and `b` have the same category and the same name.
pub open spec fn contact_alike(a: Contact, b: Contact) -> bool {
    text_key(a.category@) == text_key(b.category@) && text_key(a.name@) == text_key(b.name@)
}

/// `a` may stand directly before `b` in a list of contacts.
pub open spec fn contact_precedes(a: Contact, b: Contact) -> bool {
    contact_before(a, b) || contact_alike(a, b)
}

/// A list of contacts in order: each contact may stand before the next.
pub open spec fn contacts_in_order(list: Seq<Contact>) -> bool {
    forall|i: int| 0 <= i < list.len() - 1 ==> contact_precedes(#[trigger] list[i], list[i + 1])
}

/// The order of contacts is transitive.
pub proof fn contact_precedes_is_transitive(a: Contact, b: Contact, c: Contact)
    requires
        contact_precedes(a, b),
        contact_precedes(b, c),
    ensures
        contact_precedes(a, c),
{
    let (ac, bc, cc) = (text_key(a.category@), text_key(b.category@), text_key(c.category@));
    let (an, bn, cn) = (text_key(a.name@), text_key(b.name@), text_key(c.name@));
    if bytes_before(ac, bc) && bytes_before(bc, cc) {
        bytes_before_is_transitive(ac, bc, cc);
    }
    if ac == bc && bc == cc && bytes_before(an, bn) && bytes_before(bn, cn) {
        bytes_before_is_transitive(an, bn, cn);
    }
}

/// In a list of contacts in order, every contact may stand before every
/// later one.
pub proof fn contacts_in_order_pairwise(list: Seq<Contact>, i: int, j: int)
    requires
        contacts_in_order(list),
        0 <= i < j < list.len(),
    ensures
        contact_precedes(list[i], list[j]),
    decreases j - i,
{
    if i + 1 < j {
        contacts_in_order_pairwise(list, i, j - 1);
        assert(contact_precedes(list[j - 1], list[j - 1 + 1]));
        contact_precedes_is_transitive(list[i], list[j - 1], list[j]);
    }
}

/// A contact that is listed strictly before another is not alike to it.
pub proof fn contact_before_is_not_alike(a: Contact, b: Contact)
    requires
        contact_before(a, b),
    ensures
        !contact_alike(a, b),
        !contact_before(b, a),
{
    if bytes_before(text_key(a.category@), text_key(b.category@)) {
        bytes_before_is_asymmetric(text_key(a.category@), text_key(b.category@));
    } else {
        bytes_before_is_asymmetric(text_key(a.name@), text_key(b.name@));
    }
    if contact_before(b, a) {
        if bytes_before(text_key(b.category@), text_key(a.category@)) {
            bytes_before_is_asymmetric(text_key(b.category@), text_key(a.category@));
        } else {
            bytes_before_is_asymmetric(text_key(b.name@), text_key(a.name@));
        }
    }
}

/// The contacts that are alike to `c`.
pub open spec fn alike_to(c: Contact) -> spec_fn(Contact) -> bool {
    |x: Contact| contact_alike(x, c)
}

/// Contacts that are alike stand in `list` in the order in which they stand
/// in `rows`.
pub open spec fn alike_keep_their_order(rows: Seq<Contact>, list: Seq<Contact>) -> bool {
    forall|c: Contact| #[trigger] list.filter(alike_to(c)) == rows.filter(alike_to(c))
}

/// Where no contact is chosen, none is kept.
pub proof fn none_chosen(s: Seq<Contact>, p: spec_fn(Contact) -> bool)
    requires
        forall|i: int| 0 <= i < s.len() ==> !p(#[trigger] s[i]),
    ensures
        s.filter(p) == Seq::<Contact>::empty(),
    decreases s.len(),
{
    reveal(Seq::filter);
    if s.len() > 0 {
        assert forall|i: int| 0 <= i < s.drop_last().len() implies !p(#[trigger] s.drop_last()[i]) by {
            assert(s.drop_last()[i] == s[i]);
        }
        none_chosen(s.drop_last(), p);
    }
}

/// Of a single contact the choice keeps it or nothing.
pub proof fn one_chosen(x: Contact, p: spec_fn(Contact) -> bool)
    ensures
        seq![x].filter(p) == if p(x) {
            seq![x]
        } else {
            Seq::<Contact>::empty()
        },
{
    reveal_with_fuel(Seq::filter, 2);
    let s = seq![x];
    assert(s.drop_last() =~= Seq::<Contact>::empty());
    assert(s.last() == x);
    assert(Seq::<Contact>::empty().push(x) =~= seq![x]);
}

/// Compares two contacts by category and then by name.
pub fn rank_contacts(a: &Contact, b: &Contact) -> (r: Rank)
    ensures
        match r {
            Rank::Before => contact_before(*a, *b),
            Rank::Same => contact_alike(*a, *b),
            Rank::After => contact_before(*b, *a),
        },
{
    match rank_bytes(a.category.as_str().as_bytes(), b.category.as_str().as_bytes()) {
        Rank::Before => Rank::Before,
        Rank::After => Rank::After,
        Rank::Same => rank_bytes(a.name.as_str().as_bytes(), b.name.as_str().as_bytes()),
    }
}

/// The messages of the contact with the given id.
pub open spec fn of_contact(contact_id: i64) -> spec_fn(Message) -> bool {
    |m: Message| m.contact_id == contact_id
}

/// The choice from a list with one more message at its end keeps that
/// message where it is chosen, after what was kept of the list.
pub proof fn choice_with_one_more(s: Seq<Message>, x: Message, p: spec_fn(Message) -> bool)
    ensures
        s.push(x).filter(p) == if p(x) {
            s.filter(p).push(x)
        } else {
            s.filter(p)
        },
{
    reveal(Seq::filter);
    assert(s.push(x).drop_last() =~= s);
    assert(s.push(x).last() == x);
}

/// `a` is listed strictly before `b`: it is older, or of the same second
/// and of the smaller id.
pub open spec fn message_before(a: Message, b: Message) -> bool {
    a.timestamp < b.timestamp || (a.timestamp == b.timestamp && a.id < b.id)
}

/// `a` may stand before `b` in a thread.
pub open spec fn message_precedes(a: Message, b: Message) -> bool {
    a.timestamp < b.timestamp || (a.timestamp == b.timestamp && a.id <= b.id)
}

/// A thread in order: of any two messages the earlier in the list may stand
/// before the later, so timestamps never decrease along the list.
pub open spec fn thread_in_order(list: Seq<Message>) -> bool {
    forall|i: int, j: int|
        #![trigger list[i], list[j]]
        0 <= i < j < list.len() ==> message_precedes(list[i], list[j])
}

/// Whether `a` is listed strictly before `b`.
pub fn is_message_before(a: &Message, b: &Message) -> (r: bool)
    ensures
        r == message_before(*a, *b),
{
    a.timestamp < b.timestamp || (a.timestamp == b.timestamp && a.id < b.id)
}

/// Along a thread in order timestamps never decrease, and of two messages
/// of the same second the one of the smaller id comes first.
pub proof fn thread_timestamps_never_decrease(list: Seq<Message>, i: int, j: int)
    requires
        thread_in_order(list),
        0 <= i < j < list.len(),
    ensures
        list[i].timestamp <= list[j].timestamp,
        list[i].timestamp == list[j].timestamp ==> list[i].id <= list[j].id,
{
}

} // verus!
