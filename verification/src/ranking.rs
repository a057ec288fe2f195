use vstd::prelude::*;

verus! {

/// Whether key `a` is strictly larger than key `b`: keys are compared by
/// their first component, then by their second.
pub open spec fn key_above(a: (i64, u32), b: (i64, u32)) -> bool {
    a.0 > b.0 || (a.0 == b.0 && a.1 > b.1)
}

/// Whether item `i` is listed before item `j` when items go from the largest
/// key down and items with equal keys keep the order they came in.
pub open spec fn comes_before(keys: Seq<(i64, u32)>, i: int, j: int) -> bool {
    key_above(keys[i], keys[j]) || (keys[i] == keys[j] && i < j)
}

/// `order` lists the positions of `keys`, each one once, from the largest
/// key down, equal keys in the order they came in.
pub open spec fn is_descending_order(keys: Seq<(i64, u32)>, order: Seq<usize>) -> bool {
    &&& order.len() == keys.len()
    &&& forall|p: int| 0 <= p < order.len() ==> (#[trigger] order[p]) < keys.len()
    &&& forall|p: int, q: int|
        0 <= p < q < order.len() ==> comes_before(
            keys,
            #[trigger] order[p] as int,
            #[trigger] order[q] as int,
        )
}

/// The positions of `keys` from the largest key down, equal keys in their
/// incoming order: the one listing that `is_descending_order` admits.
pub open spec fn descending_order_of(keys: Seq<(i64, u32)>) -> Seq<usize> {
    choose|order: Seq<usize>| is_descending_order(keys, order)
}

/// A listing holds every position of the keys.
pub proof fn order_lists_every_position(keys: Seq<(i64, u32)>, order: Seq<usize>, v: int)
    requires
        is_descending_order(keys, order),
        0 <= v < keys.len(),
    ensures
        exists|p: int| 0 <= p < order.len() && #[trigger] order[p] == v,
{
    let places = Seq::new(order.len(), |p: int| order[p] as int);
    assert forall|i: int, j: int|
        0 <= i < places.len() && 0 <= j < places.len() && i != j implies places[i]
        != places[j] by {
        if i < j {
            assert(comes_before(keys, order[i] as int, order[j] as int));
        } else {
            assert(comes_before(keys, order[j] as int, order[i] as int));
        }
    }
    places.unique_seq_to_set();
    vstd::seq_lib::seq_to_set_is_finite(places);
    vstd::set_lib::lemma_int_range(0, keys.len() as int);
    let all = vstd::set_lib::set_int_range(0, keys.len() as int);
    assert forall|x: int| places.to_set().contains(x) implies all.contains(x) by {
        let p = choose|p: int| 0 <= p < places.len() && places[p] == x;
        assert(order[p] < keys.len());
    }
    vstd::set_lib::lemma_subset_equality(places.to_set(), all);
    assert(all.contains(v));
    assert(places.to_set().contains(v));
    assert(places.contains(v));
    let p = choose|p: int| 0 <= p < places.len() && places[p] == v;
    assert(order[p] == v);
}

/// Two listings of the same keys agree on their first `upto` positions.
proof fn orders_agree(keys: Seq<(i64, u32)>, a: Seq<usize>, b: Seq<usize>, upto: int)
    requires
        is_descending_order(keys, a),
        is_descending_order(keys, b),
        0 <= upto <= keys.len(),
    ensures
        forall|p: int| 0 <= p < upto ==> a[p] == b[p],
    decreases upto,
{
    if upto > 0 {
        orders_agree(keys, a, b, upto - 1);
        let at = upto - 1;
        let v = a[at];
        let w = b[at];
        assert(v < keys.len());
        assert(w < keys.len());
        order_lists_every_position(keys, b, v as int);
        order_lists_every_position(keys, a, w as int);
        let r = choose|r: int| 0 <= r < b.len() && #[trigger] b[r] == v as int;
        let s = choose|s: int| 0 <= s < a.len() && #[trigger] a[s] == w as int;
        if r < at {
            assert(a[r] == b[r]);
            assert(comes_before(keys, a[r] as int, a[at] as int));
        } else if s < at {
            assert(a[s] == b[s]);
            assert(comes_before(keys, b[s] as int, b[at] as int));
        } else if r > at && s > at {
            assert(comes_before(keys, b[at] as int, b[r] as int));
            assert(comes_before(keys, a[at] as int, a[s] as int));
        }
    }
}

/// Stable sorting from the largest key down has one outcome: two listings of
/// the same keys are the same listing.
pub proof fn descending_order_unique(keys: Seq<(i64, u32)>, a: Seq<usize>, b: Seq<usize>)
    requires
        is_descending_order(keys, a),
        is_descending_order(keys, b),
    ensures
        a == b,
{
    orders_agree(keys, a, b, keys.len() as int);
    assert(a =~= b);
}

/// Compares two keys: by the first component, then by the second.
pub fn key_is_above(a: (i64, u32), b: (i64, u32)) -> (r: bool)
    ensures
        r == key_above(a, b),
{
    a.0 > b.0 || (a.0 == b.0 && a.1 > b.1)
}

/// Stable descending sort, by positions: the result lists the positions of
/// `keys` in the order in which a stable sort from the largest key down
/// would list the items.
pub fn descending_order(keys: &Vec<(i64, u32)>) -> (order: Vec<usize>)
    ensures
        is_descending_order(keys@, order@),
        order@ == descending_order_of(keys@),
{
    let mut order: Vec<usize> = Vec::new();
    let mut k: usize = 0;
    while k < keys.len()
        invariant
            k <= keys.len(),
            order.len() == k,
            forall|p: int| 0 <= p < order.len() ==> (#[trigger] order[p]) < k,
            forall|p: int, q: int|
                0 <= p < q < order.len() ==> comes_before(
                    keys@,
                    #[trigger] order[p] as int,
                    #[trigger] order[q] as int,
                ),
        decreases keys.len() - k,
    {
        let mut at: usize = 0;
        while at < order.len() && !key_is_above(keys[k], keys[order[at]])
            invariant
                at <= order.len(),
                order.len() == k,
                k < keys.len(),
                forall|p: int| 0 <= p < order.len() ==> (#[trigger] order[p]) < k,
                forall|p: int|
                    0 <= p < at ==> !key_above(keys@[k as int], keys@[#[trigger] order[p] as int]),
            decreases order.len() - at,
        {
            at += 1;
        }
        let ghost earlier = order@;
        order.insert(at, k);
        proof {
            assert forall|p: int, q: int| 0 <= p < q < order.len() implies comes_before(
                keys@,
                #[trigger] order[p] as int,
                #[trigger] order[q] as int,
            ) by {
                if p < at && q > at {
                    assert(order[p] == earlier[p]);
                    assert(order[q] == earlier[q - 1]);
                } else if p < at && q == at {
                    assert(order[p] == earlier[p]);
                } else if p == at {
                    assert(order[q] == earlier[q - 1]);
                    if q - 1 > at {
                        assert(comes_before(keys@, earlier[at as int] as int, earlier[q - 1] as int));
                    }
                } else if q < at {
                    assert(order[p] == earlier[p]);
                    assert(order[q] == earlier[q]);
                } else {
                    assert(order[p] == earlier[p - 1]);
                    assert(order[q] == earlier[q - 1]);
                }
            }
            assert forall|p: int| 0 <= p < order.len() implies (#[trigger] order[p]) < k + 1 by {
                if p < at {
                    assert(order[p] == earlier[p]);
                } else if p > at {
                    assert(order[p] == earlier[p - 1]);
                }
            }
        }
        k += 1;
    }
    proof {
        descending_order_unique(keys@, order@, descending_order_of(keys@));
    }
    order
}

} // verus!
