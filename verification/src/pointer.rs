//! Pointers at work: reading and writing through them, taking addresses,
//! indexing, and pointer arithmetic.

use crate::arith::outcome;
use crate::byte_seq::{pointer_kind, width_of};
use crate::error::InterpErr;
use crate::instruction::{PointerKind, copy_of};
use crate::machine::{
    assign_step, byte_run, bytes_at, const_index_step, deref, deref_step, get_global_ptr_step,
    increment_step, incremented, index_step, indexed, indexed_ptr, offset_step, panic_step,
    peek_ptr_step, ready, shifted, slice_parts, well_formed, write_through,
};
use crate::memory::{can_store, exchange, found, load_cell, load_from, store_cell, store_into};
use crate::value::{Array, Pointer, Space, Value, group_models, lemma_aggregate_model};
use crate::vm::{Step, VM, kept};
use vstd::prelude::*;
use vstd::slice::{slice_subrange, slice_to_vec};

verus! {

broadcast use group_models;

/// Tells whether two pointer kinds are the same.
pub fn same_kind(a: PointerKind, b: PointerKind) -> (r: bool)
    ensures
        r == (a == b),
{
    a == b
}

/// An integer one higher, wrapping at its width.
pub fn increment_op(v: &Value) -> (r: Option<Value>)
    ensures
        found(r) == incremented(v@),
{
    match v {
        Value::I8(v) => Some(Value::I8(v.wrapping_add(1))),
        Value::I16(v) => Some(Value::I16(v.wrapping_add(1))),
        Value::I32(v) => Some(Value::I32(v.wrapping_add(1))),
        Value::I64(v) => Some(Value::I64(v.wrapping_add(1))),
        Value::Int(v) => Some(Value::Int(v.wrapping_add(1))),
        Value::U8(v) => Some(Value::U8(v.wrapping_add(1))),
        Value::U16(v) => Some(Value::U16(v.wrapping_add(1))),
        Value::U32(v) => Some(Value::U32(v.wrapping_add(1))),
        Value::U64(v) => Some(Value::U64(v.wrapping_add(1))),
        Value::Uint(v) => Some(Value::Uint(v.wrapping_add(1))),
        _ => None,
    }
}

/// The pointer moved on by `i` elements.
pub fn shift(p: &Pointer, i: usize) -> (r: Option<Pointer>)
    ensures
        match r {
            Some(q) => shifted(p@, i) == Some(q@),
            None => shifted(p@, i) is None,
        },
{
    let n = p.path.len();
    if n == 0 {
        return None;
    }
    match p.path[n - 1].checked_add(i) {
        Some(last) => {
            let mut path = copy_of(&p.path);
            path.set(n - 1, last);
            proof {
                assert(path@ =~= p.path@.drop_last().push(last));
            }
            Some(Pointer { kind: p.kind, space: p.space, path })
        },
        None => None,
    }
}

/// The two parts of a slice: where its bytes start, and how many they are.
pub fn slice_of(v: &Value) -> (r: Option<(Pointer, usize)>)
    ensures
        match r {
            Some((p, len)) => slice_parts(v@) == Some((p@, len)),
            None => slice_parts(v@) is None,
        },
{
    match v {
        Value::Aggregate(items) => {
            proof {
                lemma_aggregate_model(*items);
            }
            if items.len() == 2 {
                match (&items[0], &items[1]) {
                    (Value::Pointer(p), Value::Uint(len)) => Some((p.clone(), *len)),
                    _ => None,
                }
            } else {
                None
            }
        },
        _ => None,
    }
}

/// A copy of the first `len` bytes of an array from a byte offset on.
pub fn byte_run_of(a: &Array, start: usize, len: usize) -> (r: Option<Vec<u8>>)
    ensures
        match r {
            Some(bytes) => byte_run(a@, start as int, len) == Some(bytes@),
            None => byte_run(a@, start as int, len) is None,
        },
{
    let total = a.bytes.len();
    if start <= total && len <= total - start {
        let run = slice_subrange(a.bytes.as_slice(), start, start + len);
        Some(slice_to_vec(run))
    } else {
        None
    }
}

impl<'vm> VM<'vm> {
    /// A copy of what a path leads to within a space. The top `hidden`
    /// values of the stack are not part of it.
    pub(crate) fn load(&self, space: Space, path: &Vec<usize>, hidden: usize) -> (r: Option<Value>)
        requires
            hidden <= self@.stack.len(),
        ensures
            found(r) == load_cell(self@.with_stack(self@.below(hidden as int)).cells(space), path@),
    {
        if path.len() == 0 {
            return None;
        }
        let i = path[0];
        match space {
            Space::Stack => {
                if i < self.stack.len() - hidden {
                    load_from(self.stack.get(i), path, 1)
                } else {
                    None
                }
            },
            Space::Global => {
                if i < self.interp.globals.len() {
                    load_from(&self.interp.globals[i], path, 1)
                } else {
                    None
                }
            },
        }
    }

    /// Tells whether a write through the path would succeed. The top
    /// `hidden` values of the stack are not part of the space.
    pub(crate) fn can_write(&self, space: Space, path: &Vec<usize>, v: &Value, hidden: usize) -> (r:
        bool)
        requires
            hidden <= self@.stack.len(),
        ensures
            r == store_cell(
                self@.with_stack(self@.below(hidden as int)).cells(space),
                path@,
                v@,
            ) is Some,
    {
        if path.len() == 0 {
            return false;
        }
        let i = path[0];
        match space {
            Space::Stack => {
                if i < self.stack.len() - hidden {
                    can_store(self.stack.get(i), path, 1, v)
                } else {
                    false
                }
            },
            Space::Global => {
                if i < self.interp.globals.len() {
                    can_store(&self.interp.globals[i], path, 1, v)
                } else {
                    false
                }
            },
        }
    }

    /// Performs a write that is known to succeed.
    pub(crate) fn write(&mut self, space: Space, path: &Vec<usize>, v: Value)
        requires
            store_cell(old(self)@.cells(space), path@, v@) is Some,
        ensures
            *final(final(self).interp) == *final(old(self).interp),
            kept(*old(self).interp, *final(self).interp),
            final(self)@ == old(self)@.with_cells(
                space,
                store_cell(old(self)@.cells(space), path@, v@)->0,
            ),
    {
        let i = path[0];
        match space {
            Space::Stack => {
                let cell = self.stack.replace(i, Value::Unit);
                let changed = store_into(cell, path, 1, v);
                self.stack.set(i, changed);
                proof {
                    assert(self.stack@ =~= old(self).stack@.update(i as int, changed));
                }
            },
            Space::Global => {
                let cell = exchange(&mut self.interp.globals, i, Value::Unit);
                let changed = store_into(cell, path, 1, v);
                self.interp.globals.set(i, changed);
                proof {
                    assert(self.interp.globals@ =~= old(self).interp.globals@.update(
                        i as int,
                        changed,
                    ));
                }
            },
        }
    }

    /// A typed read through a pointer.
    pub(crate) fn read(&self, p: &Pointer, hidden: usize) -> (r: Option<Value>)
        requires
            hidden <= self@.stack.len(),
        ensures
            found(r) == deref(self@.with_stack(self@.below(hidden as int)).cells(p.space), p@),
    {
        match self.load(p.space, &p.path, hidden) {
            Some(d) => if same_kind(pointer_kind(&d), p.kind) {
                Some(d)
            } else {
                None
            },
            None => None,
        }
    }

    /// Executes `Deref`.
    pub(crate) fn op_deref(&mut self) -> (r: Step)
        requires
            ready(old(self)@),
        ensures
            *final(final(self).interp) == *final(old(self).interp),
            kept(*old(self).interp, *final(self).interp),
            (final(self)@, r@) == deref_step(old(self)@),
            well_formed(final(self)@),
    {
        if self.stack.len() < 1 {
            return Step::Fault(InterpErr::StackUnderflow);
        }
        let p = match self.top(0) {
            Value::Pointer(p) => p.clone(),
            _ => {
                return Step::Fault(InterpErr::InvalidOperand);
            },
        };
        match self.read(&p, 0) {
            Some(d) => self.settle(1, d),
            None => Step::Fault(InterpErr::InvalidPointer),
        }
    }

    /// Executes `GetGlobalPtr`.
    pub(crate) fn op_get_global_ptr(&mut self, slot: u32) -> (r: Step)
        requires
            ready(old(self)@),
        ensures
            *final(final(self).interp) == *final(old(self).interp),
            kept(*old(self).interp, *final(self).interp),
            (final(self)@, r@) == get_global_ptr_step(old(self)@, slot),
            well_formed(final(self)@),
    {
        if slot as usize >= self.interp.globals.len() {
            return Step::Fault(InterpErr::UndefinedGlobal);
        }
        let kind = pointer_kind(&self.interp.globals[slot as usize]);
        let mut path: Vec<usize> = Vec::new();
        path.push(slot as usize);
        self.grow(Value::Pointer(Pointer { kind, space: Space::Global, path }))
    }

    /// Executes `PeekPtr`.
    pub(crate) fn op_peek_ptr(&mut self, slot: i32) -> (r: Step)
        requires
            ready(old(self)@),
        ensures
            *final(final(self).interp) == *final(old(self).interp),
            kept(*old(self).interp, *final(self).interp),
            (final(self)@, r@) == peek_ptr_step(old(self)@, slot),
            well_formed(final(self)@),
    {
        match self.absolute(slot, self.stack.len()) {
            Some(i) => {
                let kind = pointer_kind(self.stack.get(i));
                let mut path: Vec<usize> = Vec::new();
                path.push(i);
                self.grow(Value::Pointer(Pointer { kind, space: Space::Stack, path }))
            },
            None => Step::Fault(InterpErr::InvalidSlot),
        }
    }

    /// Element `i` of a container.
    pub(crate) fn element_of(&self, container: &Value, i: usize) -> (r: Result<Value, InterpErr>)
        ensures
            outcome(r) == indexed(self@, container@, i),
    {
        match container {
            Value::Pointer(p) => {
                let mut path = copy_of(&p.path);
                path.push(i);
                match self.load(p.space, &path, 0) {
                    Some(e) => Ok(e),
                    None => Err(InterpErr::InvalidPointer),
                }
            },
            Value::Aggregate(items) => {
                if i < items.len() {
                    Ok(items[i].clone())
                } else {
                    Err(InterpErr::IndexOutOfBounds)
                }
            },
            Value::Array(a) => match a.get(i) {
                Some(e) => Ok(e),
                None => Err(InterpErr::IndexOutOfBounds),
            },
            _ => Err(InterpErr::InvalidOperand),
        }
    }

    /// The address of element `i` of what a pointer leads to.
    pub(crate) fn address_of(&self, container: &Value, i: usize) -> (r: Result<Value, InterpErr>)
        ensures
            outcome(r) == indexed_ptr(self@, container@, i),
    {
        match container {
            Value::Pointer(p) => {
                let mut path = copy_of(&p.path);
                path.push(i);
                match self.load(p.space, &path, 0) {
                    Some(e) => Ok(
                        Value::Pointer(Pointer { kind: pointer_kind(&e), space: p.space, path }),
                    ),
                    None => Err(InterpErr::InvalidPointer),
                }
            },
            _ => Err(InterpErr::InvalidOperand),
        }
    }

    /// Executes `Index` (`address` is false) and `IndexPtr` (`address` is true).
    pub(crate) fn op_index(&mut self, address: bool) -> (r: Step)
        requires
            ready(old(self)@),
        ensures
            *final(final(self).interp) == *final(old(self).interp),
            kept(*old(self).interp, *final(self).interp),
            (final(self)@, r@) == index_step(old(self)@, address),
            well_formed(final(self)@),
    {
        if self.stack.len() < 2 {
            return Step::Fault(InterpErr::StackUnderflow);
        }
        let i = match self.top(0) {
            Value::Uint(i) => *i,
            _ => {
                return Step::Fault(InterpErr::InvalidOperand);
            },
        };
        let found = if address {
            self.address_of(self.top(1), i)
        } else {
            self.element_of(self.top(1), i)
        };
        match found {
            Ok(d) => self.settle(2, d),
            Err(e) => Step::Fault(e),
        }
    }

    /// Executes `ConstIndex` (`address` is false) and `ConstIndexPtr`
    /// (`address` is true).
    pub(crate) fn op_const_index(&mut self, i: u32, address: bool) -> (r: Step)
        requires
            ready(old(self)@),
        ensures
            *final(final(self).interp) == *final(old(self).interp),
            kept(*old(self).interp, *final(self).interp),
            (final(self)@, r@) == const_index_step(old(self)@, i, address),
            well_formed(final(self)@),
    {
        if self.stack.len() < 1 {
            return Step::Fault(InterpErr::StackUnderflow);
        }
        let found = if address {
            self.address_of(self.top(0), i as usize)
        } else {
            self.element_of(self.top(0), i as usize)
        };
        match found {
            Ok(d) => self.settle(1, d),
            Err(e) => Step::Fault(e),
        }
    }

    /// Executes `Offset`.
    pub(crate) fn op_offset(&mut self) -> (r: Step)
        requires
            ready(old(self)@),
        ensures
            *final(final(self).interp) == *final(old(self).interp),
            kept(*old(self).interp, *final(self).interp),
            (final(self)@, r@) == offset_step(old(self)@),
            well_formed(final(self)@),
    {
        if self.stack.len() < 2 {
            return Step::Fault(InterpErr::StackUnderflow);
        }
        let moved = match (self.top(1), self.top(0)) {
            (Value::Pointer(p), Value::Uint(i)) => shift(p, *i),
            _ => {
                return Step::Fault(InterpErr::InvalidOperand);
            },
        };
        match moved {
            Some(q) => self.settle(2, Value::Pointer(q)),
            None => Step::Fault(InterpErr::InvalidPointer),
        }
    }

    /// Writes `v` through `p` once the top `hidden` values are dropped, and
    /// moves on; or reports why it cannot, and changes nothing.
    pub(crate) fn write_through(&mut self, hidden: usize, p: &Pointer, v: Value) -> (r: Step)
        requires
            ready(old(self)@),
            hidden <= old(self)@.stack.len(),
        ensures
            *final(final(self).interp) == *final(old(self).interp),
            kept(*old(self).interp, *final(self).interp),
            (final(self)@, r@) == write_through(
                old(self)@,
                old(self)@.below(hidden as int),
                p@,
                v@,
            ),
            well_formed(final(self)@),
    {
        if !same_kind(pointer_kind(&v), p.kind) {
            return Step::Fault(InterpErr::InvalidOperand);
        }
        if !self.can_write(p.space, &p.path, &v, hidden) {
            return Step::Fault(InterpErr::InvalidPointer);
        }
        self.drop_top(hidden);
        self.write(p.space, &p.path, v);
        self.next();
        Step::Continue
    }

    /// Executes `Assign`.
    pub(crate) fn op_assign(&mut self) -> (r: Step)
        requires
            ready(old(self)@),
        ensures
            *final(final(self).interp) == *final(old(self).interp),
            kept(*old(self).interp, *final(self).interp),
            (final(self)@, r@) == assign_step(old(self)@),
            well_formed(final(self)@),
    {
        if self.stack.len() < 2 {
            return Step::Fault(InterpErr::StackUnderflow);
        }
        match self.top(0) {
            Value::Pointer(p) => {
                if !same_kind(pointer_kind(self.top(1)), p.kind) {
                    return Step::Fault(InterpErr::InvalidOperand);
                }
                if !self.can_write(p.space, &p.path, self.top(1), 2) {
                    return Step::Fault(InterpErr::InvalidPointer);
                }
            },
            _ => {
                return Step::Fault(InterpErr::InvalidOperand);
            },
        }
        let target = self.stack.pop();
        let v = self.stack.pop();
        proof {
            assert(self@.stack =~= old(self)@.below(2));
        }
        match target {
            Value::Pointer(p) => {
                self.write(p.space, &p.path, v);
                self.next();
                Step::Continue
            },
            other => {
                self.stack.push(v);
                self.stack.push(other);
                Step::Fault(InterpErr::InvalidOperand)
            },
        }
    }

    /// Executes `Increment`.
    pub(crate) fn op_increment(&mut self) -> (r: Step)
        requires
            ready(old(self)@),
        ensures
            *final(final(self).interp) == *final(old(self).interp),
            kept(*old(self).interp, *final(self).interp),
            (final(self)@, r@) == increment_step(old(self)@),
            well_formed(final(self)@),
    {
        if self.stack.len() < 1 {
            return Step::Fault(InterpErr::StackUnderflow);
        }
        let p = match self.top(0) {
            Value::Pointer(p) => p.clone(),
            _ => {
                return Step::Fault(InterpErr::InvalidOperand);
            },
        };
        match self.read(&p, 1) {
            Some(d) => match increment_op(&d) {
                Some(up) => self.write_through(1, &p, up),
                None => Step::Fault(InterpErr::InvalidOperand),
            },
            None => Step::Fault(InterpErr::InvalidPointer),
        }
    }

    /// The `len` bytes that a pointer addresses.
    pub(crate) fn bytes_at(&self, p: &Pointer, len: usize, hidden: usize) -> (r: Option<Vec<u8>>)
        requires
            hidden <= self@.stack.len(),
        ensures
            match r {
                Some(bytes) => bytes_at(
                    self@.with_stack(self@.below(hidden as int)).cells(p.space),
                    p@,
                    len,
                ) == Some(bytes@),
                None => bytes_at(
                    self@.with_stack(self@.below(hidden as int)).cells(p.space),
                    p@,
                    len,
                ) is None,
            },
    {
        match self.load(p.space, &p.path, hidden) {
            Some(Value::Array(a)) => {
                return byte_run_of(&a, 0, len);
            },
            _ => {},
        }
        let n = p.path.len();
        if n < 2 {
            return None;
        }
        let mut parent = copy_of(&p.path);
        let last = parent.pop().unwrap();
        match self.load(p.space, &parent, hidden) {
            Some(Value::Array(a)) => {
                let w = width_of(a.ty);
                let total = a.bytes.len();
                match last.checked_mul(w) {
                    Some(start) => byte_run_of(&a, start, len),
                    None => {
                        None
                    },
                }
            },
            _ => None,
        }
    }

    /// Executes `Panic`.
    pub(crate) fn op_panic(&mut self) -> (r: Step)
        requires
            ready(old(self)@),
        ensures
            *final(final(self).interp) == *final(old(self).interp),
            kept(*old(self).interp, *final(self).interp),
            (final(self)@, r@) == panic_step(old(self)@),
            well_formed(final(self)@),
    {
        if self.stack.len() < 1 {
            return Step::Fault(InterpErr::StackUnderflow);
        }
        match slice_of(self.top(0)) {
            Some((p, len)) => match self.bytes_at(&p, len, 1) {
                Some(message) => {
                    self.drop_top(1);
                    Step::Panicked(message)
                },
                None => Step::Fault(InterpErr::InvalidPointer),
            },
            None => Step::Fault(InterpErr::InvalidOperand),
        }
    }
}

} // verus!
