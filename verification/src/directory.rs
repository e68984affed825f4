//! Choosing the credential file of a directory: the entry whose name comes
//! first in byte order, as the samples do by sorting the entries by name and
//! taking the first.
use vstd::prelude::*;
use crate::report::joined;

verus! {

/// Byte-wise lexicographic order of names, the order of file names on
/// Unix: `a` comes no later than `b`.
pub open spec fn name_le(a: Seq<u8>, b: Seq<u8>) -> bool
    decreases a.len(),
{
    if a.len() == 0 {
        true
    } else if b.len() == 0 {
        false
    } else if a[0] != b[0] {
        a[0] < b[0]
    } else {
        name_le(a.drop_first(), b.drop_first())
    }
}

/// `a` comes strictly before `b`.
pub open spec fn name_lt(a: Seq<u8>, b: Seq<u8>) -> bool {
    name_le(a, b) && a != b
}

/// The order is reflexive.
pub proof fn lemma_name_le_reflexive(a: Seq<u8>)
    ensures
        name_le(a, a),
    decreases a.len(),
{
    if a.len() > 0 {
        lemma_name_le_reflexive(a.drop_first());
    }
}

/// The order is total.
pub proof fn lemma_name_le_total(a: Seq<u8>, b: Seq<u8>)
    ensures
        name_le(a, b) || name_le(b, a),
    decreases a.len(),
{
    if a.len() > 0 && b.len() > 0 && a[0] == b[0] {
        lemma_name_le_total(a.drop_first(), b.drop_first());
    }
}

/// The order is antisymmetric.
pub proof fn lemma_name_le_antisymmetric(a: Seq<u8>, b: Seq<u8>)
    requires
        name_le(a, b),
        name_le(b, a),
    ensures
        a == b,
    decreases a.len(),
{
    if a.len() > 0 && b.len() > 0 {
        lemma_name_le_antisymmetric(a.drop_first(), b.drop_first());
        assert(a =~= seq![a[0]] + a.drop_first());
        assert(b =~= seq![b[0]] + b.drop_first());
    } else {
        assert(a.len() == 0 && b.len() == 0);
        assert(a =~= b);
    }
}

/// The order is transitive.
pub proof fn lemma_name_le_transitive(a: Seq<u8>, b: Seq<u8>, c: Seq<u8>)
    requires
        name_le(a, b),
        name_le(b, c),
    ensures
        name_le(a, c),
    decreases a.len(),
{
    if a.len() > 0 && b.len() > 0 && c.len() > 0 && a[0] == b[0] && b[0] == c[0] {
        lemma_name_le_transitive(a.drop_first(), b.drop_first(), c.drop_first());
    }
}

/// Whether `a` comes strictly before `b`.
pub fn name_precedes(a: &Vec<u8>, b: &Vec<u8>) -> (res: bool)
    ensures
        res == name_lt(a@, b@),
{
    let mut i: usize = 0;
    proof {
        assert(a@.skip(0) =~= a@);
        assert(b@.skip(0) =~= b@);
    }
    while i < a.len() && i < b.len()
        invariant
            i <= a.len(),
            i <= b.len(),
            a@.subrange(0, i as int) == b@.subrange(0, i as int),
            name_le(a@, b@) == name_le(a@.skip(i as int), b@.skip(i as int)),
        decreases a.len() - i,
    {
        if a[i] != b[i] {
            proof {
                assert(a@.skip(i as int)[0] == a@[i as int]);
                assert(b@.skip(i as int)[0] == b@[i as int]);
                if a@ == b@ {
                    assert(a@[i as int] == b@[i as int]);
                }
            }
            return a[i] < b[i];
        }
        proof {
            assert(a@.skip(i as int).drop_first() =~= a@.skip(i + 1));
            assert(b@.skip(i as int).drop_first() =~= b@.skip(i + 1));
            assert(a@.subrange(0, i + 1) =~= a@.subrange(0, i as int).push(a@[i as int]));
            assert(b@.subrange(0, i + 1) =~= b@.subrange(0, i as int).push(b@[i as int]));
        }
        i = i + 1;
    }
    proof {
        if i == a.len() && i == b.len() {
            assert(a@ =~= a@.subrange(0, i as int));
            assert(b@ =~= b@.subrange(0, i as int));
        }
        if a@ == b@ {
            assert(i == a.len() && i == b.len());
        }
    }
    i == a.len() && i < b.len()
}

/// `index` picks the entry that sorting the names and taking the first one
/// picks: a name that no other name precedes, and the earliest listed of
/// such names.
pub open spec fn is_first_file(names: Seq<Seq<u8>>, index: int) -> bool {
    &&& 0 <= index < names.len()
    &&& forall|j: int| 0 <= j < names.len() ==> name_le(names[index], #[trigger] names[j])
    &&& forall|j: int| 0 <= j < index ==> name_lt(names[index], #[trigger] names[j])
}

/// The names of a listing, as values of the specification.
pub open spec fn names_view(names: Seq<Vec<u8>>) -> Seq<Seq<u8>> {
    names.map_values(|n: Vec<u8>| n@)
}

/// The message for a directory that holds no file.
pub open spec fn no_files_message(dir_path: Seq<char>) -> Seq<char> {
    "No files found in directory: "@ + dir_path
}

/// Chooses, among the names of the entries of the directory `dir_path`,
/// the one that comes first in byte order (the earliest listed among equal
/// names), or fails with a message when there are none.
pub fn choose_first_file(dir_path: &str, names: &Vec<Vec<u8>>) -> (chosen: Result<usize, String>)
    ensures
        chosen is Err == (names@.len() == 0),
        chosen matches Ok(i) ==> is_first_file(names_view(names@), i as int),
        chosen matches Err(m) ==> m@ == no_files_message(dir_path@),
{
    if names.len() == 0 {
        return Err(joined("No files found in directory: ", dir_path));
    }
    let ghost nv = names_view(names@);
    let mut best: usize = 0;
    let mut i: usize = 1;
    proof { lemma_name_le_reflexive(nv[0]); }
    while i < names.len()
        invariant
            nv == names_view(names@),
            0 <= best < i <= names.len(),
            forall|j: int| 0 <= j < i ==> name_le(nv[best as int], #[trigger] nv[j]),
            forall|j: int| 0 <= j < best ==> name_lt(nv[best as int], #[trigger] nv[j]),
        decreases names.len() - i,
    {
        if name_precedes(&names[i], &names[best]) {
            proof {
                let nb = nv[best as int];
                let ni = nv[i as int];
                assert forall|j: int| 0 <= j < i + 1 implies name_le(ni, #[trigger] nv[j]) by {
                    if j < i {
                        lemma_name_le_transitive(ni, nb, nv[j]);
                    } else {
                        lemma_name_le_reflexive(ni);
                    }
                }
                assert forall|j: int| 0 <= j < i implies name_lt(ni, #[trigger] nv[j]) by {
                    lemma_name_le_transitive(ni, nb, nv[j]);
                    if ni == nv[j] {
                        lemma_name_le_antisymmetric(ni, nb);
                    }
                }
            }
            best = i;
        } else {
            proof {
                let nb = nv[best as int];
                let ni = nv[i as int];
                lemma_name_le_total(nb, ni);
                if !name_le(nb, ni) {
                    assert(name_le(ni, nb));
                    assert(ni != nb);
                }
            }
        }
        i = i + 1;
    }
    Ok(best)
}

/// The file chosen does not depend on the order in which the directory
/// lists its entries: two listings of the same names give the same name.
pub proof fn lemma_first_file_independent_of_order(a: Seq<Seq<u8>>, b: Seq<Seq<u8>>, i: int, k: int)
    requires
        forall|n: Seq<u8>| a.contains(n) <==> b.contains(n),
        is_first_file(a, i),
        is_first_file(b, k),
    ensures
        a[i] == b[k],
{
    assert(a.contains(a[i]));
    assert(b.contains(b[k]));
    let ja = choose|j: int| 0 <= j < a.len() && a[j] == b[k];
    let jb = choose|j: int| 0 <= j < b.len() && b[j] == a[i];
    assert(name_le(a[i], a[ja]));
    assert(name_le(b[k], b[jb]));
    lemma_name_le_antisymmetric(a[i], b[k]);
}

} // verus!
