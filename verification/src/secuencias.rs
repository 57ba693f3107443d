//! Searching a sequence for the first element with a property.

use vstd::prelude::*;

verus! {

/// `i` is the position of the first element of `s` that satisfies `pred`.
pub open spec fn es_primera_posicion<T>(s: Seq<T>, pred: spec_fn(T) -> bool, i: int) -> bool {
    &&& 0 <= i < s.len()
    &&& pred(s[i])
    &&& forall|j: int| 0 <= j < i ==> !pred(#[trigger] s[j])
}

/// No element of `s` satisfies `pred`.
pub open spec fn ninguno<T>(s: Seq<T>, pred: spec_fn(T) -> bool) -> bool {
    forall|j: int| 0 <= j < s.len() ==> !pred(#[trigger] s[j])
}

/// The position of the first element of `s` that satisfies `pred`, if there is one.
pub open spec fn primera_posicion<T>(s: Seq<T>, pred: spec_fn(T) -> bool) -> Option<int>
    decreases s.len(),
{
    if s.len() == 0 {
        None
    } else {
        match primera_posicion(s.drop_last(), pred) {
            Some(i) => Some(i),
            None => if pred(s.last()) {
                Some(s.len() - 1)
            } else {
                None
            },
        }
    }
}

/// `primera_posicion` gives the first position whose element satisfies the
/// predicate, and `None` exactly when no element does.
pub proof fn lema_primera_posicion<T>(s: Seq<T>, pred: spec_fn(T) -> bool)
    ensures
        match primera_posicion(s, pred) {
            Some(i) => es_primera_posicion(s, pred, i),
            None => ninguno(s, pred),
        },
    decreases s.len(),
{
    if s.len() > 0 {
        lema_primera_posicion(s.drop_last(), pred);
        match primera_posicion(s.drop_last(), pred) {
            Some(i) => {
                assert(s[i] == s.drop_last()[i]);
                assert forall|j: int| 0 <= j < i implies !pred(#[trigger] s[j]) by {
                    assert(s[j] == s.drop_last()[j]);
                }
            },
            None => {
                assert forall|j: int| 0 <= j < s.len() - 1 implies !pred(#[trigger] s[j]) by {
                    assert(s[j] == s.drop_last()[j]);
                }
            },
        }
    }
}

/// A position that is the first to satisfy the predicate is the one that
/// `primera_posicion` gives; where nothing satisfies it, it gives `None`.
pub proof fn lema_primera_posicion_unica<T>(s: Seq<T>, pred: spec_fn(T) -> bool, i: int)
    ensures
        es_primera_posicion(s, pred, i) ==> primera_posicion(s, pred) == Some(i),
        ninguno(s, pred) ==> primera_posicion(s, pred).is_none(),
{
    lema_primera_posicion(s, pred);
    match primera_posicion(s, pred) {
        Some(k) => {
            if es_primera_posicion(s, pred, i) && k != i {
                if k < i {
                    assert(!pred(s[k]));
                } else {
                    assert(!pred(s[i]));
                }
            }
            if ninguno(s, pred) {
                assert(!pred(s[k]));
            }
        },
        None => {
            if es_primera_posicion(s, pred, i) {
                assert(!pred(s[i]));
            }
        },
    }
}

} // verus!
