//! Header lists with one entry per name, modelled as maps from name to value.
use vstd::prelude::*;

verus! {

/// The characters of each name and value in a list of header pairs.
pub open spec fn pairs_view(v: Seq<(String, String)>) -> Seq<(Seq<char>, Seq<char>)> {
    v.map_values(|p: (String, String)| (p.0@, p.1@))
}

/// No name occurs twice in `s`.
pub open spec fn distinct_names(s: Seq<(Seq<char>, Seq<char>)>) -> bool {
    forall|i: int, j: int|
        0 <= i < s.len() && 0 <= j < s.len() && i != j ==> (#[trigger] s[i]).0 != (#[trigger] s[j]).0
}

/// `s` lists exactly the entries of `m`, each name once.
pub open spec fn lists_map(s: Seq<(Seq<char>, Seq<char>)>, m: Map<Seq<char>, Seq<char>>) -> bool {
    &&& distinct_names(s)
    &&& forall|i: int| 0 <= i < s.len() ==> m.contains_key((#[trigger] s[i]).0) && m[s[i].0] == s[i].1
    &&& forall|k: Seq<char>| #[trigger] m.contains_key(k) ==> exists|i: int| 0 <= i < s.len() && (#[trigger] s[i]).0 == k
}

/// Sets `name` to `value` in `list`, replacing an earlier value of that name.
pub(crate) fn put_header(
    list: &mut Vec<(String, String)>,
    name: String,
    value: String,
    Ghost(m): Ghost<Map<Seq<char>, Seq<char>>>,
)
    requires
        lists_map(pairs_view(old(list)@), m),
    ensures
        lists_map(pairs_view(final(list)@), m.insert(name@, value@)),
{
    let ghost s = pairs_view(list@);
    let mut i: usize = 0;
    let mut hit = false;
    while i < list.len() && !hit
        invariant
            list@ == old(list)@,
            s == pairs_view(list@),
            i <= list.len(),
            hit ==> i < list.len() && s[i as int].0 == name@,
            !hit ==> forall|j: int| 0 <= j < i ==> s[j].0 != name@,
        decreases 2 * (list.len() - i) + (if hit { 0int } else { 1int }),
    {
        if list[i].0 == name {
            hit = true;
        } else {
            i = i + 1;
        }
    }
    let ghost nm = name@;
    let ghost nv = value@;
    let ghost m2 = m.insert(nm, nv);
    if hit {
        list.set(i, (name, value));
        let ghost t = pairs_view(list@);
        assert(t =~= s.update(i as int, (nm, nv)));
        assert forall|k: Seq<char>| #[trigger] m2.contains_key(k) implies exists|j: int|
            0 <= j < t.len() && (#[trigger] t[j]).0 == k by {
            if k != nm {
                let j = choose|j: int| 0 <= j < s.len() && (#[trigger] s[j]).0 == k;
                assert(t[j].0 == k);
            } else {
                assert(t[i as int].0 == k);
            }
        }
    } else {
        list.push((name, value));
        let ghost t = pairs_view(list@);
        assert(t =~= s.push((nm, nv)));
        assert forall|k: Seq<char>| #[trigger] m2.contains_key(k) implies exists|j: int|
            0 <= j < t.len() && (#[trigger] t[j]).0 == k by {
            if k != nm {
                let j = choose|j: int| 0 <= j < s.len() && (#[trigger] s[j]).0 == k;
                assert(t[j].0 == k);
            } else {
                assert(t[s.len() as int].0 == k);
            }
        }
    }
}

} // verus!
