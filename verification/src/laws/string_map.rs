//! Laws on maps with string keys.
use crate::string_map::StringMap;
use vstd::prelude::*;

verus! {

/// After a value was set for a key, that value is found for the key, and for every other key what was
/// found before.
pub proof fn law_last_value_is_found<V>(
    map: &mut StringMap<V>,
    key: String,
    value: V,
    other: &str,
    before: Option<&V>,
    after: Option<&V>,
)
    requires
        call_ensures(StringMap::<V>::get, (old(map), other), before),
        call_ensures(StringMap::<V>::insert, (map, key, value), ()),
        call_ensures(StringMap::<V>::get, (final(map), other), after),
    ensures
        other@ == key@ ==> after is Some && *after->0 == value,
        other@ != key@ ==> (after is Some <==> before is Some),
        other@ != key@ && after is Some ==> *after->0 == *before->0,
{
}

/// A new map has no value for any key.
pub proof fn law_new_map_is_empty<V>(map: StringMap<V>, key: &str, n: usize, r: Option<&V>)
    requires
        call_ensures(StringMap::<V>::new, (), map),
        call_ensures(StringMap::<V>::len, (&map,), n),
        call_ensures(StringMap::<V>::get, (&map, key), r),
    ensures
        n == 0,
        r is None,
{
}

/// What stands at a position is what is found for the key at that position.
pub proof fn law_positions_agree_with_keys<V>(
    map: StringMap<V>,
    i: usize,
    key: &str,
    value: &V,
    found: Option<&V>,
)
    requires
        i < map.keys().len(),
        call_ensures(StringMap::<V>::key_at, (&map, i), key),
        call_ensures(StringMap::<V>::value_at, (&map, i), value),
        call_ensures(StringMap::<V>::get, (&map, key), found),
    ensures
        found is Some,
        *found->0 == *value,
        key@ == map.keys()[i as int],
{
}

/// A key keeps its position when its value is set anew, and a new key comes last.
pub proof fn law_keys_keep_their_positions<V>(map: &mut StringMap<V>, key: String, value: V)
    requires
        call_ensures(StringMap::<V>::insert, (map, key, value), ()),
    ensures
        forall|i: int|
            0 <= i < old(map).keys().len() ==> #[trigger] final(map).keys()[i] == old(map).keys()[i],
        old(map)@.contains_key(key@) ==> final(map).keys().len() == old(map).keys().len(),
        !old(map)@.contains_key(key@) ==> {
            &&& final(map).keys().len() == old(map).keys().len() + 1
            &&& final(map).keys().last() == key@
        },
{
}

/// A copy of a map has the same keys in the same order, with copies of the values.
pub proof fn law_copy_of_a_map<V: Clone>(map: StringMap<V>, copy: StringMap<V>, key: Seq<char>)
    requires
        call_ensures(<StringMap<V> as Clone>::clone, (&map,), copy),
    ensures
        copy.keys() == map.keys(),
        copy@.contains_key(key) <==> map@.contains_key(key),
        map@.contains_key(key) ==> cloned(map@[key], copy@[key]),
{
    assert(copy@.dom().contains(key) <==> map@.dom().contains(key));
}

} // verus!
