//! Query parameters: a record of optional fields becomes a flat list of
//! key/value pairs, one pair for each field that is set, in field order.
use vstd::prelude::*;
use crate::text::{bool_string, bool_text, decimal, signed_decimal, signed_text, unsigned_text};

verus! {

/// A key and its value, as text.
pub type PairView = (Seq<char>, Seq<char>);

/// The pair that one field contributes, if it is set.
pub type Slot = Option<PairView>;

/// The pairs of the fields that are set, in order.
pub open spec fn present(slots: Seq<Slot>) -> Seq<PairView>
    decreases slots.len(),
{
    if slots.len() == 0 {
        seq![]
    } else {
        present(slots.drop_last()) + match slots.last() {
            Some(p) => seq![p],
            None => Seq::<PairView>::empty(),
        }
    }
}

/// Values joined with commas.
pub open spec fn comma_joined(values: Seq<Seq<char>>) -> Seq<char>
    decreases values.len(),
{
    if values.len() == 0 {
        seq![]
    } else if values.len() == 1 {
        values[0]
    } else {
        comma_joined(values.drop_last()) + seq![','] + values.last()
    }
}

/// The slot of a text field.
pub open spec fn text_slot(key: Seq<char>, value: Option<String>) -> Slot {
    match value {
        Some(v) => Some((key, v@)),
        None => None,
    }
}

/// The slot of an unsigned number field.
pub open spec fn u32_slot(key: Seq<char>, value: Option<u32>) -> Slot {
    match value {
        Some(v) => Some((key, decimal(v as nat))),
        None => None,
    }
}

/// The slot of a signed number field.
pub open spec fn i32_slot(key: Seq<char>, value: Option<i32>) -> Slot {
    match value {
        Some(v) => Some((key, signed_decimal(v as int))),
        None => None,
    }
}

/// The slot of a wide signed number field.
pub open spec fn i64_slot(key: Seq<char>, value: Option<i64>) -> Slot {
    match value {
        Some(v) => Some((key, signed_decimal(v as int))),
        None => None,
    }
}

/// The slot of a boolean field.
pub open spec fn bool_slot(key: Seq<char>, value: Option<bool>) -> Slot {
    match value {
        Some(v) => Some((key, bool_text(v))),
        None => None,
    }
}

/// The slot of a list field. A list is sent as one pair whose value is its
/// items joined with commas (`token_ids=1,2`), never as a repeated key, so
/// that each field set adds exactly one pair; an empty list sends an empty
/// value.
pub open spec fn list_slot(key: Seq<char>, value: Option<Vec<String>>) -> Slot {
    match value {
        Some(v) => Some((key, comma_joined(v.deep_view()))),
        None => None,
    }
}

/// The pairs of the fields that are set, split at any field.
pub proof fn lemma_present_split(a: Seq<Slot>, b: Seq<Slot>)
    ensures
        present(a + b) == present(a) + present(b),
    decreases b.len(),
{
    if b.len() == 0 {
        assert(a + b =~= a);
        assert(present(a) + present(b) =~= present(a));
    } else {
        lemma_present_split(a, b.drop_last());
        assert((a + b).drop_last() =~= a + b.drop_last());
        assert((a + b).last() == b.last());
    }
}

/// A record with no field set gives no pair: an empty query string.
pub proof fn lemma_unset_fields_give_no_pairs(slots: Seq<Slot>)
    requires
        forall|i: int| 0 <= i < slots.len() ==> #[trigger] slots[i] is None,
    ensures
        present(slots) == Seq::<PairView>::empty(),
    decreases slots.len(),
{
    if slots.len() > 0 {
        lemma_unset_fields_give_no_pairs(slots.drop_last());
        assert(slots[slots.len() - 1] is None);
    }
}

/// Setting one field that was unset adds exactly its pair, at its place among
/// the others, and changes nothing else.
pub proof fn lemma_setting_a_field_adds_one_pair(slots: Seq<Slot>, i: int, pair: PairView)
    requires
        0 <= i < slots.len(),
        slots[i] is None,
    ensures
        present(slots.update(i, Some(pair))) == present(slots.take(i)) + seq![pair] + present(
            slots.skip(i + 1),
        ),
        present(slots) == present(slots.take(i)) + present(slots.skip(i + 1)),
        present(slots.update(i, Some(pair))).len() == present(slots).len() + 1,
{
    let set = slots.update(i, Some(pair));
    assert(set =~= slots.take(i) + seq![Some(pair)] + slots.skip(i + 1));
    assert(slots =~= slots.take(i) + seq![None::<PairView>] + slots.skip(i + 1));
    lemma_present_split(slots.take(i) + seq![Some(pair)], slots.skip(i + 1));
    lemma_present_split(slots.take(i), seq![Some(pair)]);
    lemma_present_split(slots.take(i) + seq![None::<PairView>], slots.skip(i + 1));
    lemma_present_split(slots.take(i), seq![None::<PairView>]);
    assert(seq![Some(pair)].drop_last() =~= Seq::<Slot>::empty());
    assert(seq![None::<PairView>].drop_last() =~= Seq::<Slot>::empty());
    assert(present(Seq::<Slot>::empty()) =~= Seq::<PairView>::empty());
    assert(present(seq![Some(pair)]) =~= seq![pair]);
    assert(present(seq![None::<PairView>]) =~= Seq::<PairView>::empty());
}

/// Appends a pair to a list of pairs.
pub fn push_pair(q: &mut Vec<(String, String)>, key: &str, value: String)
    ensures
        final(q).deep_view() == old(q).deep_view().push((key@, value@)),
{
    let k = key.to_owned();
    q.push((k, value));
    assert(final(q).deep_view() =~= old(q).deep_view().push((key@, value@)));
}

/// The values of a list joined with commas.
pub fn join_comma(values: &Vec<String>) -> (r: String)
    ensures
        r@ == comma_joined(values.deep_view()),
{
    let mut out = String::new();
    let mut i: usize = 0;
    while i < values.len()
        invariant
            i <= values@.len(),
            out@ == comma_joined(values.deep_view().take(i as int)),
        decreases values@.len() - i,
    {
        if i > 0 {
            proof { reveal_strlit(","); }
            out.append(",");
        }
        out.append(values[i].as_str());
        proof {
            let vs = values.deep_view();
            assert(vs.take(i + 1).drop_last() =~= vs.take(i as int));
            assert(vs[i as int] == values@[i as int]@);
            assert(vs.take(i + 1).last() == vs[i as int]);
            assert(vs.take(i + 1).len() == i + 1);
            if i == 0 {
                assert(vs.take(1)[0] == vs[0]);
            }
        }
        i = i + 1;
    }
    assert(values.deep_view().take(i as int) =~= values.deep_view());
    out
}

/// Appends the pair of a text field, if it is set.
pub(crate) fn push_text(
    q: &mut Vec<(String, String)>,
    Ghost(done): Ghost<Seq<Slot>>,
    key: &str,
    value: &Option<String>,
)
    requires
        old(q).deep_view() == present(done),
    ensures
        final(q).deep_view() == present(done.push(text_slot(key@, *value))),
{
    assert(done.push(text_slot(key@, *value)).drop_last() =~= done);
    match value {
        Some(v) => push_pair(q, key, v.clone()),
        None => {},
    }
}

/// Appends the pair of an unsigned number field, if it is set.
pub(crate) fn push_u32(
    q: &mut Vec<(String, String)>,
    Ghost(done): Ghost<Seq<Slot>>,
    key: &str,
    value: Option<u32>,
)
    requires
        old(q).deep_view() == present(done),
    ensures
        final(q).deep_view() == present(done.push(u32_slot(key@, value))),
{
    assert(done.push(u32_slot(key@, value)).drop_last() =~= done);
    match value {
        Some(v) => push_pair(q, key, unsigned_text(v as u64)),
        None => {},
    }
}

/// Appends the pair of a signed number field, if it is set.
pub(crate) fn push_i32(
    q: &mut Vec<(String, String)>,
    Ghost(done): Ghost<Seq<Slot>>,
    key: &str,
    value: Option<i32>,
)
    requires
        old(q).deep_view() == present(done),
    ensures
        final(q).deep_view() == present(done.push(i32_slot(key@, value))),
{
    assert(done.push(i32_slot(key@, value)).drop_last() =~= done);
    match value {
        Some(v) => push_pair(q, key, signed_text(v as i64)),
        None => {},
    }
}

/// Appends the pair of a wide signed number field, if it is set.
pub(crate) fn push_i64(
    q: &mut Vec<(String, String)>,
    Ghost(done): Ghost<Seq<Slot>>,
    key: &str,
    value: Option<i64>,
)
    requires
        old(q).deep_view() == present(done),
    ensures
        final(q).deep_view() == present(done.push(i64_slot(key@, value))),
{
    assert(done.push(i64_slot(key@, value)).drop_last() =~= done);
    match value {
        Some(v) => push_pair(q, key, signed_text(v)),
        None => {},
    }
}

/// Appends the pair of a boolean field, if it is set.
pub(crate) fn push_bool(
    q: &mut Vec<(String, String)>,
    Ghost(done): Ghost<Seq<Slot>>,
    key: &str,
    value: Option<bool>,
)
    requires
        old(q).deep_view() == present(done),
    ensures
        final(q).deep_view() == present(done.push(bool_slot(key@, value))),
{
    assert(done.push(bool_slot(key@, value)).drop_last() =~= done);
    match value {
        Some(v) => push_pair(q, key, bool_string(v)),
        None => {},
    }
}

/// Appends the pair of a list field, if it is set.
pub(crate) fn push_list(
    q: &mut Vec<(String, String)>,
    Ghost(done): Ghost<Seq<Slot>>,
    key: &str,
    value: &Option<Vec<String>>,
)
    requires
        old(q).deep_view() == present(done),
    ensures
        final(q).deep_view() == present(done.push(list_slot(key@, *value))),
{
    assert(done.push(list_slot(key@, *value)).drop_last() =~= done);
    match value {
        Some(v) => push_pair(q, key, join_comma(v)),
        None => {},
    }
}


/// The text of an optional string argument.
pub open spec fn opt_view(value: Option<&str>) -> Option<Seq<char>> {
    match value {
        Some(v) => Some(v@),
        None => None,
    }
}

/// The slot of a field that is sent by name.
pub open spec fn named_slot(key: Seq<char>, value: Option<Seq<char>>) -> Slot {
    match value {
        Some(v) => Some((key, v)),
        None => None,
    }
}

/// Appends the pair of a field sent by name, if it is set.
pub(crate) fn push_named(
    q: &mut Vec<(String, String)>,
    Ghost(done): Ghost<Seq<Slot>>,
    key: &str,
    value: Option<&str>,
)
    requires
        old(q).deep_view() == present(done),
    ensures
        final(q).deep_view() == present(done.push(named_slot(key@, opt_view(value)))),
{
    let ghost slot = named_slot(key@, opt_view(value));
    assert(done.push(slot).drop_last() =~= done);
    match value {
        Some(v) => push_pair(q, key, v.to_owned()),
        None => {},
    }
}


/// The slot of a wide unsigned number field.
pub open spec fn u64_slot(key: Seq<char>, value: Option<u64>) -> Slot {
    match value {
        Some(v) => Some((key, decimal(v as nat))),
        None => None,
    }
}

/// Appends the pair of a wide unsigned number field, if it is set.
pub(crate) fn push_u64(
    q: &mut Vec<(String, String)>,
    Ghost(done): Ghost<Seq<Slot>>,
    key: &str,
    value: Option<u64>,
)
    requires
        old(q).deep_view() == present(done),
    ensures
        final(q).deep_view() == present(done.push(u64_slot(key@, value))),
{
    assert(done.push(u64_slot(key@, value)).drop_last() =~= done);
    match value {
        Some(v) => push_pair(q, key, unsigned_text(v)),
        None => {},
    }
}

} // verus!
