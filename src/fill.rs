use vstd::prelude::*;

verus! {

/// What `build` does on a builder whose fields are named `names` and whose
/// stored values are `slots`: the first absent field in declaration order is
/// reported by name; if none is absent, the stored values in order.
pub open spec fn build_outcome<V>(names: Seq<Seq<char>>, slots: Seq<Option<V>>) -> Result<Seq<V>, Seq<char>>
    decreases slots.len(),
{
    if slots.len() == 0 || names.len() == 0 {
        Ok(Seq::empty())
    } else if slots[0] is None {
        Err(names[0])
    } else {
        match build_outcome(names.drop_first(), slots.drop_first()) {
            Ok(vs) => Ok(seq![slots[0]->Some_0] + vs),
            Err(n) => Err(n),
        }
    }
}

/// The message of the error that reports field `name` missing.
pub open spec fn missing_message(name: Seq<char>) -> Seq<char> {
    name + " field missing"@
}

/// The slots of a freshly created builder with `n` fields: all absent.
pub open spec fn fresh_slots<V>(n: nat) -> Seq<Option<V>> {
    Seq::new(n, |i: int| None)
}

/// The slots after calling the setters of fields `order[0]`, `order[1]`, ...
/// in turn, the setter of field `i` being given `vals[i]`.
pub open spec fn apply_setters<V>(slots: Seq<Option<V>>, order: Seq<int>, vals: Seq<V>) -> Seq<Option<V>>
    decreases order.len(),
{
    if order.len() == 0 {
        slots
    } else {
        apply_setters(slots, order.drop_last(), vals).update(order.last(), Some(vals[order.last()]))
    }
}

/// Whether the setter of field `j` occurs among the calls `order`.
pub open spec fn called(order: Seq<int>, j: int) -> bool {
    exists|k: int| 0 <= k < order.len() && order[k] == j
}

proof fn lemma_apply_setters<V>(slots: Seq<Option<V>>, order: Seq<int>, vals: Seq<V>)
    requires
        slots.len() == vals.len(),
        forall|k: int| 0 <= k < order.len() ==> 0 <= #[trigger] order[k] < vals.len(),
    ensures
        apply_setters(slots, order, vals).len() == slots.len(),
        forall|j: int| 0 <= j < slots.len() ==> #[trigger] apply_setters(slots, order, vals)[j]
            == if called(order, j) { Some(vals[j]) } else { slots[j] },
    decreases order.len(),
{
    if order.len() > 0 {
        let pre = order.drop_last();
        lemma_apply_setters(slots, pre, vals);
        assert forall|j: int| 0 <= j < slots.len() implies #[trigger] apply_setters(slots, order, vals)[j]
            == if called(order, j) { Some(vals[j]) } else { slots[j] } by {
            if j == order.last() {
                assert(order[order.len() - 1] == j);
            } else {
                if called(order, j) {
                    let k = choose|k: int| 0 <= k < order.len() && order[k] == j;
                    assert(pre[k] == j);
                }
                if called(pre, j) {
                    let k = choose|k: int| 0 <= k < pre.len() && pre[k] == j;
                    assert(order[k] == j);
                }
            }
        }
    }
}

proof fn lemma_all_present<V>(names: Seq<Seq<char>>, vals: Seq<V>)
    requires
        names.len() == vals.len(),
    ensures
        build_outcome(names, vals.map_values(|v: V| Some(v))) == Ok::<Seq<V>, Seq<char>>(vals),
    decreases vals.len(),
{
    let slots = vals.map_values(|v: V| Some(v));
    if vals.len() > 0 {
        lemma_all_present(names.drop_first(), vals.drop_first());
        assert(slots.drop_first() =~= vals.drop_first().map_values(|v: V| Some(v)));
        assert(seq![vals[0]] + vals.drop_first() =~= vals);
    } else {
        assert(vals =~= Seq::<V>::empty());
    }
}

/// Setting every field, in any order and possibly more than once, each time
/// to the value it is meant to hold, and then building, yields exactly those
/// values in declaration order: the record built directly from them.
pub proof fn lemma_all_setters_then_build<V>(names: Seq<Seq<char>>, vals: Seq<V>, order: Seq<int>)
    requires
        names.len() == vals.len(),
        forall|k: int| 0 <= k < order.len() ==> 0 <= #[trigger] order[k] < vals.len(),
        forall|j: int| 0 <= j < vals.len() ==> #[trigger] called(order, j),
    ensures
        build_outcome(names, apply_setters(fresh_slots(vals.len()), order, vals)) == Ok::<Seq<V>, Seq<char>>(vals),
{
    let fresh = fresh_slots::<V>(vals.len());
    lemma_apply_setters(fresh, order, vals);
    let slots = apply_setters(fresh, order, vals);
    assert(slots =~= vals.map_values(|v: V| Some(v))) by {
        assert forall|j: int| 0 <= j < vals.len() implies slots[j] == Some(vals[j]) by {
            assert(called(order, j));
        }
    }
    lemma_all_present(names, vals);
}

/// With some field absent, `build` fails naming the first absent field in
/// declaration order, whatever the later fields hold.
pub proof fn lemma_first_missing_reported<V>(names: Seq<Seq<char>>, slots: Seq<Option<V>>, k: int)
    requires
        names.len() == slots.len(),
        0 <= k < slots.len(),
        slots[k] is None,
        forall|j: int| 0 <= j < k ==> #[trigger] slots[j] is Some,
    ensures
        build_outcome(names, slots) == Err::<Seq<V>, Seq<char>>(names[k]),
    decreases k,
{
    if k > 0 {
        lemma_first_missing_reported(names.drop_first(), slots.drop_first(), k - 1);
        assert(slots[0] is Some);
    }
}

/// A builder for a record without fields builds at once, to a record that
/// holds nothing.
pub proof fn lemma_no_fields_builds<V>()
    ensures
        build_outcome(Seq::<Seq<char>>::empty(), fresh_slots::<V>(0)) == Ok::<Seq<V>, Seq<char>>(Seq::empty()),
{
}

} // verus!
