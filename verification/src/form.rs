//! Form-encoded request bodies.
//!
//! The gateway posts its notifications as `application/x-www-form-urlencoded`
//! bodies. Decoding the bytes is left to `serde_urlencoded`; what the
//! library keeps of a body is a [`FormData`]: its fields ordered by key, each
//! key once, a key that occurs several times holding its last value.

use vstd::prelude::*;
use vstd::string::*;
use vstd::utf8::valid_utf8;
use crate::error::BillingError;
use crate::text::{str_equal, str_le, str_le_is_a_total_order, str_less_or_equal};

verus! {

/// A field of a form: its key and its value.
pub type Field = (Seq<char>, Seq<char>);

/// The pairs that `serde_urlencoded` decodes from a body, in the order in
/// which the body holds them; `None` where it reports an error.
pub uninterp spec fn form_pairs(body: Seq<u8>) -> Option<Seq<(Seq<char>, Seq<char>)>>;

/// Decodes a body with `serde_urlencoded::from_bytes`, as a sequence of
/// pairs of strings. What the crate makes of the bytes is only named.
#[verifier::external_body]
pub(crate) fn decode_form_pairs(body: &[u8]) -> (r: Option<Vec<(String, String)>>)
    ensures
        match r {
            Some(pairs) => form_pairs(body@) == Some(pairs.deep_view()),
            None => form_pairs(body@).is_none(),
        },
{
    serde_urlencoded::from_bytes::<Vec<(String, String)>>(body).ok()
}

/// Tests with `std::str::from_utf8` whether a body is valid UTF-8.
#[verifier::external_body]
pub(crate) fn is_valid_utf8(body: &[u8]) -> (r: bool)
    ensures
        r == valid_utf8(body@),
{
    std::str::from_utf8(body).is_ok()
}

/// The fields `sorted` with `key` set to `value`: in place where the key is
/// there already, else at the place that keeps the keys in order.
pub open spec fn upsert(sorted: Seq<Field>, key: Seq<char>, value: Seq<char>) -> Seq<Field>
    decreases sorted.len(),
{
    if sorted.len() == 0 {
        seq![(key, value)]
    } else if sorted[0].0 == key {
        seq![(key, value)] + sorted.drop_first()
    } else if str_le(key, sorted[0].0) {
        seq![(key, value)] + sorted
    } else {
        seq![sorted[0]] + upsert(sorted.drop_first(), key, value)
    }
}

/// The fields of a sequence of pairs: each pair set in turn, so that the
/// keys end up in order and a later pair replaces an earlier one of the
/// same key.
pub open spec fn sorted_fields(pairs: Seq<Field>) -> Seq<Field>
    decreases pairs.len(),
{
    if pairs.len() == 0 {
        Seq::empty()
    } else {
        upsert(sorted_fields(pairs.drop_last()), pairs.last().0, pairs.last().1)
    }
}

/// The value of the first field with the key given.
pub open spec fn lookup(fields: Seq<Field>, key: Seq<char>) -> Option<Seq<char>>
    decreases fields.len(),
{
    if fields.len() == 0 {
        None
    } else if fields[0].0 == key {
        Some(fields[0].1)
    } else {
        lookup(fields.drop_first(), key)
    }
}

/// Whether the keys of `fields` strictly increase.
pub open spec fn strictly_sorted(fields: Seq<Field>) -> bool {
    forall|i: int, j: int|
        0 <= i < j < fields.len() ==> fields[i].0 != fields[j].0 && str_le(
            #[trigger] fields[i].0,
            #[trigger] fields[j].0,
        )
}

/// The fields of a form, ordered by key.
#[derive(Debug)]
pub struct FormData {
    fields: Vec<(String, String)>,
}

impl View for FormData {
    type V = Seq<Field>;

    closed spec fn view(&self) -> Seq<Field> {
        self.fields.deep_view()
    }
}

/// Setting a key whose place lies at or after `i` leaves the first `i`
/// fields alone.
proof fn lemma_upsert_skips(sorted: Seq<Field>, key: Seq<char>, value: Seq<char>, i: int)
    requires
        0 <= i <= sorted.len(),
        forall|j: int| 0 <= j < i ==> sorted[j].0 != key && !str_le(key, sorted[j].0),
    ensures
        upsert(sorted, key, value) == sorted.take(i) + upsert(sorted.skip(i), key, value),
    decreases i,
{
    if i == 0 {
        assert(sorted.skip(0) =~= sorted);
        assert(sorted.take(0) + upsert(sorted, key, value) =~= upsert(sorted, key, value));
    } else {
        let rest = sorted.drop_first();
        assert forall|j: int| 0 <= j < i - 1 implies rest[j].0 != key && !str_le(
            key,
            rest[j].0,
        ) by {
            assert(rest[j] == sorted[j + 1]);
        }
        lemma_upsert_skips(rest, key, value, i - 1);
        assert(rest.skip(i - 1) =~= sorted.skip(i));
        assert(seq![sorted[0]] + (rest.take(i - 1) + upsert(sorted.skip(i), key, value))
            =~= sorted.take(i) + upsert(sorted.skip(i), key, value));
    }
}

impl FormData {
    /// A form without fields.
    pub fn new() -> (f: FormData)
        ensures
            f@ == Seq::<Field>::empty(),
            strictly_sorted(f@),
    {
        let f = FormData { fields: Vec::new() };
        assert(f@ =~= Seq::<Field>::empty());
        f
    }

    /// The number of fields.
    pub fn len(&self) -> (n: usize)
        ensures
            n == self@.len(),
    {
        self.fields.len()
    }

    /// Sets `key` to `value`; see [`upsert`].
    pub fn insert(&mut self, key: String, value: String)
        ensures
            final(self)@ == upsert(old(self)@, key@, value@),
            strictly_sorted(old(self)@) ==> strictly_sorted(final(self)@),
    {
        let ghost before = self@;
        proof {
            if strictly_sorted(before) {
                lemma_upsert_keeps_sorted(before, key@, value@);
            }
        }
        let n = self.fields.len();
        let mut i: usize = 0;
        while i < n
            invariant
                n == self.fields@.len(),
                i <= n,
                self@ == before,
                before == old(self)@,
                strictly_sorted(before) ==> strictly_sorted(upsert(before, key@, value@)),
                forall|j: int| 0 <= j < i ==> before[j].0 != key@ && !str_le(key@, before[j].0),
            decreases n - i,
        {
            let same = str_equal(self.fields[i].0.as_str(), key.as_str());
            let before_here = str_less_or_equal(key.as_str(), self.fields[i].0.as_str());
            assert(before[i as int].0 == self.fields@[i as int].0@);
            if same {
                proof {
                    lemma_upsert_skips(before, key@, value@, i as int);
                    assert(before.skip(i as int)[0] == before[i as int]);
                    assert(before.skip(i as int).drop_first() =~= before.skip(i + 1));
                }
                self.fields.set(i, (key, value));
                assert(self@ =~= before.take(i as int) + (seq![(key@, value@)] + before.skip(
                    i + 1,
                )));
                return ;
            }
            if before_here {
                proof {
                    lemma_upsert_skips(before, key@, value@, i as int);
                    assert(before.skip(i as int)[0] == before[i as int]);
                }
                self.fields.insert(i, (key, value));
                assert(self@ =~= before.take(i as int) + (seq![(key@, value@)] + before.skip(
                    i as int,
                )));
                return ;
            }
            i += 1;
        }
        proof {
            lemma_upsert_skips(before, key@, value@, n as int);
            assert(before.skip(n as int) =~= Seq::<Field>::empty());
            assert(before.take(n as int) =~= before);
        }
        self.fields.push((key, value));
        assert(self@ =~= before + seq![(key@, value@)]);
    }

    /// The form that holds the pairs given, each set in turn; see
    /// [`sorted_fields`].
    pub fn from_pairs(pairs: &Vec<(String, String)>) -> (f: FormData)
        ensures
            f@ == sorted_fields(pairs.deep_view()),
            strictly_sorted(f@),
    {
        proof {
            sorted_fields_are_sorted(pairs.deep_view());
        }
        let mut f = FormData::new();
        let n = pairs.len();
        let mut i: usize = 0;
        while i < n
            invariant
                n == pairs@.len(),
                i <= n,
                f@ == sorted_fields(pairs.deep_view().take(i as int)),
            decreases n - i,
        {
            let key = pairs[i].0.clone();
            let value = pairs[i].1.clone();
            proof {
                let next = pairs.deep_view().take(i + 1);
                assert(next.drop_last() =~= pairs.deep_view().take(i as int));
                assert(next.last() == (key@, value@));
            }
            f.insert(key, value);
            i += 1;
        }
        assert(pairs.deep_view().take(n as int) =~= pairs.deep_view());
        f
    }

    /// The form that a body holds. A body that is not valid UTF-8, or that
    /// `serde_urlencoded` cannot decode, is refused as malformed.
    pub fn parse(body: &[u8]) -> (r: Result<FormData, BillingError>)
        ensures
            match r {
                Ok(f) => valid_utf8(body@) && form_pairs(body@).is_some() && f@ == sorted_fields(
                    form_pairs(body@).unwrap(),
                ) && strictly_sorted(f@),
                Err(e) => e == BillingError::MalformedBody && (!valid_utf8(body@) || form_pairs(
                    body@,
                ).is_none()),
            },
    {
        if !is_valid_utf8(body) {
            return Err(BillingError::MalformedBody);
        }
        match decode_form_pairs(body) {
            Some(pairs) => Ok(FormData::from_pairs(&pairs)),
            None => Err(BillingError::MalformedBody),
        }
    }

    /// The value of the field `key`, if the form has one.
    pub fn get(&self, key: &str) -> (r: Option<&String>)
        ensures
            match r {
                Some(v) => lookup(self@, key@) == Some(v@),
                None => lookup(self@, key@).is_none(),
            },
    {
        let n = self.fields.len();
        let mut i: usize = 0;
        proof {
            assert(self@.skip(0) =~= self@);
        }
        while i < n
            invariant
                n == self.fields@.len(),
                i <= n,
                lookup(self@, key@) == lookup(self@.skip(i as int), key@),
            decreases n - i,
        {
            assert(self@.skip(i as int)[0] == self@[i as int]);
            assert(self@[i as int] == (self.fields@[i as int].0@, self.fields@[i as int].1@));
            if str_equal(self.fields[i].0.as_str(), key) {
                return Some(&self.fields[i].1);
            }
            proof {
                assert(self@.skip(i as int).drop_first() =~= self@.skip(i + 1));
            }
            i += 1;
        }
        None
    }

    /// The key of the field at `index`.
    pub fn key_at(&self, index: usize) -> (k: &String)
        requires
            index < self@.len(),
        ensures
            k@ == self@[index as int].0,
    {
        &self.fields[index].0
    }

    /// The value of the field at `index`.
    pub fn value_at(&self, index: usize) -> (v: &String)
        requires
            index < self@.len(),
        ensures
            v@ == self@[index as int].1,
    {
        &self.fields[index].1
    }
}

/// The value of the last pair with the key given.
pub open spec fn last_value(pairs: Seq<Field>, key: Seq<char>) -> Option<Seq<char>>
    decreases pairs.len(),
{
    if pairs.len() == 0 {
        None
    } else if pairs.last().0 == key {
        Some(pairs.last().1)
    } else {
        last_value(pairs.drop_last(), key)
    }
}

/// Every field of `upsert(sorted, key, value)` is the field set or a field
/// of `sorted`.
proof fn lemma_upsert_fields(sorted: Seq<Field>, key: Seq<char>, value: Seq<char>)
    ensures
        forall|i: int|
            0 <= i < upsert(sorted, key, value).len() ==> (#[trigger] upsert(
                sorted,
                key,
                value,
            )[i]) == (key, value) || sorted.contains(upsert(sorted, key, value)[i]),
    decreases sorted.len(),
{
    let after = upsert(sorted, key, value);
    if sorted.len() == 0 {
    } else if sorted[0].0 == key {
        assert forall|i: int| 0 <= i < after.len() implies (#[trigger] after[i]) == (key, value)
            || sorted.contains(after[i]) by {
            if i > 0 {
                assert(after[i] == sorted[i]);
            }
        }
    } else if str_le(key, sorted[0].0) {
        assert forall|i: int| 0 <= i < after.len() implies (#[trigger] after[i]) == (key, value)
            || sorted.contains(after[i]) by {
            if i > 0 {
                assert(after[i] == sorted[i - 1]);
            }
        }
    } else {
        let rest = sorted.drop_first();
        lemma_upsert_fields(rest, key, value);
        let inner = upsert(rest, key, value);
        assert forall|i: int| 0 <= i < after.len() implies (#[trigger] after[i]) == (key, value)
            || sorted.contains(after[i]) by {
            if i == 0 {
                assert(after[0] == sorted[0]);
            } else {
                assert(after[i] == inner[i - 1]);
                if inner[i - 1] != (key, value) {
                    let j = choose|j: int| 0 <= j < rest.len() && rest[j] == inner[i - 1];
                    assert(sorted[j + 1] == inner[i - 1]);
                }
            }
        }
    }
}

/// Setting a field keeps the keys in strictly increasing order.
pub proof fn lemma_upsert_keeps_sorted(sorted: Seq<Field>, key: Seq<char>, value: Seq<char>)
    requires
        strictly_sorted(sorted),
    ensures
        strictly_sorted(upsert(sorted, key, value)),
    decreases sorted.len(),
{
    let after = upsert(sorted, key, value);
    if sorted.len() == 0 {
    } else if sorted[0].0 == key {
        assert forall|i: int, j: int| 0 <= i < j < after.len() implies after[i].0 != after[j].0
            && str_le(#[trigger] after[i].0, #[trigger] after[j].0) by {
            assert(after[j] == sorted[j]);
            assert(after[i].0 == sorted[i].0);
        }
    } else if str_le(key, sorted[0].0) {
        assert forall|i: int, j: int| 0 <= i < j < after.len() implies after[i].0 != after[j].0
            && str_le(#[trigger] after[i].0, #[trigger] after[j].0) by {
            assert(after[j] == sorted[j - 1]);
            if i == 0 {
                let first = sorted[0].0;
                let other = sorted[j - 1].0;
                str_le_is_a_total_order(key, first, other);
                str_le_is_a_total_order(first, other, key);
                str_le_is_a_total_order(first, first, first);
                if j - 1 > 0 {
                    assert(first != other && str_le(first, other));
                }
            } else {
                assert(after[i] == sorted[i - 1]);
            }
        }
    } else {
        let rest = sorted.drop_first();
        assert forall|i: int, j: int| 0 <= i < j < rest.len() implies rest[i].0 != rest[j].0
            && str_le(#[trigger] rest[i].0, #[trigger] rest[j].0) by {
            assert(rest[i] == sorted[i + 1]);
            assert(rest[j] == sorted[j + 1]);
        }
        lemma_upsert_keeps_sorted(rest, key, value);
        lemma_upsert_fields(rest, key, value);
        let inner = upsert(rest, key, value);
        let first = sorted[0].0;
        str_le_is_a_total_order(key, first, first);
        assert forall|i: int, j: int| 0 <= i < j < after.len() implies after[i].0 != after[j].0
            && str_le(#[trigger] after[i].0, #[trigger] after[j].0) by {
            assert(after[j] == inner[j - 1]);
            if i == 0 {
                assert(after[0] == sorted[0]);
                if inner[j - 1] != (key, value) {
                    let k = choose|k: int| 0 <= k < rest.len() && rest[k] == inner[j - 1];
                    assert(sorted[k + 1] == inner[j - 1]);
                    assert(sorted[0].0 != sorted[k + 1].0 && str_le(sorted[0].0, sorted[k + 1].0));
                }
            } else {
                assert(after[i] == inner[i - 1]);
            }
        }
    }
}

/// The fields of a form are ordered by key, each key once.
pub proof fn sorted_fields_are_sorted(pairs: Seq<Field>)
    ensures
        strictly_sorted(sorted_fields(pairs)),
    decreases pairs.len(),
{
    if pairs.len() > 0 {
        sorted_fields_are_sorted(pairs.drop_last());
        lemma_upsert_keeps_sorted(sorted_fields(pairs.drop_last()), pairs.last().0, pairs.last().1);
    }
}

/// Setting a field changes what is found under its key and nothing else.
pub proof fn lemma_lookup_upsert(
    sorted: Seq<Field>,
    key: Seq<char>,
    value: Seq<char>,
    other: Seq<char>,
)
    ensures
        lookup(upsert(sorted, key, value), other) == if other == key {
            Some(value)
        } else {
            lookup(sorted, other)
        },
    decreases sorted.len(),
{
    let after = upsert(sorted, key, value);
    if sorted.len() == 0 {
        assert(after.drop_first() =~= sorted);
    } else if sorted[0].0 == key {
        assert(after.drop_first() =~= sorted.drop_first());
    } else if str_le(key, sorted[0].0) {
        assert(after.drop_first() =~= sorted);
    } else {
        lemma_lookup_upsert(sorted.drop_first(), key, value, other);
        assert(after.drop_first() =~= upsert(sorted.drop_first(), key, value));
    }
}

/// A form holds, under each key, the value of the last pair with that key,
/// and nothing under a key that no pair has.
pub proof fn sorted_fields_hold_last_values(pairs: Seq<Field>, key: Seq<char>)
    ensures
        lookup(sorted_fields(pairs), key) == last_value(pairs, key),
    decreases pairs.len(),
{
    if pairs.len() > 0 {
        sorted_fields_hold_last_values(pairs.drop_last(), key);
        lemma_lookup_upsert(
            sorted_fields(pairs.drop_last()),
            pairs.last().0,
            pairs.last().1,
            key,
        );
    }
}

} // verus!
