//! What a pointer leads to.
//!
//! An address is a slot followed by element indices. Reading follows the
//! indices down through aggregates and arrays; writing rebuilds every value
//! on the way with the one element replaced.

use crate::byte_seq::{array_get, array_set};
use crate::value::{Datum, Value, lemma_aggregate_model, lemma_models_update};
use vstd::prelude::*;

verus! {

/// Element `i` of an aggregate or an array; nothing else has elements.
pub open spec fn element(d: Datum, i: int) -> Option<Datum> {
    match d {
        Datum::Aggregate(items) => if 0 <= i < items.len() {
            Some(items[i])
        } else {
            None
        },
        Datum::Array(a) => array_get(a, i),
        _ => None,
    }
}

/// The aggregate or array with element `i` replaced.
pub open spec fn with_element(d: Datum, i: int, e: Datum) -> Option<Datum> {
    match d {
        Datum::Aggregate(items) => if 0 <= i < items.len() {
            Some(Datum::Aggregate(items.update(i, e)))
        } else {
            None
        },
        Datum::Array(a) => match array_set(a, i, e) {
            Some(changed) => Some(Datum::Array(changed)),
            None => None,
        },
        _ => None,
    }
}

/// The value that a path of element indices leads to from `d`.
pub open spec fn load(d: Datum, path: Seq<usize>) -> Option<Datum>
    decreases path.len(),
{
    if path.len() == 0 {
        Some(d)
    } else {
        match element(d, path[0] as int) {
            Some(e) => load(e, path.skip(1)),
            None => None,
        }
    }
}

/// `d` with the value at the end of a path replaced by `v`.
pub open spec fn store(d: Datum, path: Seq<usize>, v: Datum) -> Option<Datum>
    decreases path.len(),
{
    if path.len() == 0 {
        Some(v)
    } else {
        match element(d, path[0] as int) {
            Some(e) => match store(e, path.skip(1), v) {
                Some(changed) => with_element(d, path[0] as int, changed),
                None => None,
            },
            None => None,
        }
    }
}

/// The value at an address within a space of cells (the operand stack or
/// the globals table). The first index of the path is the cell.
pub open spec fn load_cell(cells: Seq<Datum>, path: Seq<usize>) -> Option<Datum> {
    if path.len() == 0 {
        None
    } else {
        load(Datum::Aggregate(cells), path)
    }
}

/// The cells after a write to an address within them.
pub open spec fn store_cell(cells: Seq<Datum>, path: Seq<usize>, v: Datum) -> Option<Seq<Datum>> {
    if path.len() == 0 {
        None
    } else {
        match store(Datum::Aggregate(cells), path, v) {
            Some(Datum::Aggregate(changed)) => Some(changed),
            _ => None,
        }
    }
}

/// What a lookup gives, in the model.
pub open spec fn found(r: Option<Value>) -> Option<Datum> {
    match r {
        Some(v) => Some(v@),
        None => None,
    }
}

/// The path from `from` on starts with the index at `from` and goes on
/// with the path from `from + 1` on.
proof fn lemma_skip_step(path: Seq<usize>, from: int)
    requires
        0 <= from < path.len(),
    ensures
        path.skip(from).len() > 0,
        path.skip(from)[0] == path[from],
        path.skip(from).skip(1) == path.skip(from + 1),
{
}

/// Follows the path from index `from` on, starting at `d`, and returns a
/// copy of what it leads to.
pub fn load_from(d: &Value, path: &Vec<usize>, from: usize) -> (r: Option<Value>)
    requires
        from <= path.len(),
    ensures
        found(r) == load(d@, path@.skip(from as int)),
    decreases path.len() - from,
{
    if from == path.len() {
        return Some(d.clone());
    }
    proof {
        lemma_skip_step(path@, from as int);
    }
    let i = path[from];
    match d {
        Value::Aggregate(items) => {
            if i < items.len() {
                load_from(&items[i], path, from + 1)
            } else {
                None
            }
        },
        Value::Array(a) => match a.get(i) {
            Some(e) => load_from(&e, path, from + 1),
            None => None,
        },
        _ => None,
    }
}

/// Tells whether a write along the path from index `from` on would succeed.
pub fn can_store(d: &Value, path: &Vec<usize>, from: usize, v: &Value) -> (r: bool)
    requires
        from <= path.len(),
    ensures
        r == store(d@, path@.skip(from as int), v@) is Some,
    decreases path.len() - from,
{
    if from == path.len() {
        return true;
    }
    proof {
        lemma_skip_step(path@, from as int);
    }
    let i = path[from];
    match d {
        Value::Aggregate(items) => {
            if i < items.len() {
                can_store(&items[i], path, from + 1, v)
            } else {
                false
            }
        },
        Value::Array(a) => match a.get(i) {
            Some(e) => {
                if from + 1 == path.len() {
                    assert(store(e@, path@.skip(from + 1), v@) == Some(v@));
                    a.accepts_at(i, v)
                } else {
                    false
                }
            },
            None => false,
        },
        _ => false,
    }
}

/// Puts `v` in the place of item `i` and returns that item.
pub fn exchange(items: &mut Vec<Value>, i: usize, v: Value) -> (before: Value)
    requires
        i < old(items)@.len(),
    ensures
        before == old(items)@[i as int],
        final(items)@ == old(items)@.update(i as int, v),
{
    let mut held = v;
    core::mem::swap(&mut items[i], &mut held);
    held
}

/// Performs a write that is known to succeed: returns `d` with the value at
/// the end of the path replaced by `v`.
pub fn store_into(d: Value, path: &Vec<usize>, from: usize, v: Value) -> (r: Value)
    requires
        from <= path.len(),
        store(d@, path@.skip(from as int), v@) is Some,
    ensures
        Some(r@) == store(d@, path@.skip(from as int), v@),
    decreases path.len() - from,
{
    if from == path.len() {
        return v;
    }
    proof {
        lemma_skip_step(path@, from as int);
    }
    let i = path[from];
    match d {
        Value::Aggregate(items) => {
            let mut items = items;
            proof {
                lemma_aggregate_model(items);
            }
            let ghost before = items@;
            let e = exchange(&mut items, i, Value::Unit);
            let changed = store_into(e, path, from + 1, v);
            items.set(i, changed);
            proof {
                assert(items@ =~= before.update(i as int, changed));
                lemma_models_update(before, i as int, changed);
                lemma_aggregate_model(items);
            }
            Value::Aggregate(items)
        },
        Value::Array(a) => {
            let mut a = a;
            proof {
                let e = array_get(a@, i as int)->0;
                assert(store(e, path@.skip(from + 1), v@) == Some(v@));
            }
            a.set(i, &v);
            Value::Array(a)
        },
        other => other,
    }
}

} // verus!
