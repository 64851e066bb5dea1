//! Call frames: the local variables of one active call, and where it
//! returns to.

use vstd::prelude::*;
use crate::token::operand::{Operand, OperandView};

verus! {

/// One variable of a frame.
#[derive(Debug)]
struct Binding {
    name: String,
    value: Operand,
}

/// The local storage of one call. Every name is bound at most once.
#[derive(Debug)]
pub struct Frame {
    bindings: Vec<Binding>,
    return_address: usize,
}

/// The mathematical value of a [`Frame`]: the variables that were set, and
/// the address at which the caller goes on.
pub struct FrameView {
    pub variables: Map<Seq<char>, OperandView>,
    pub return_address: int,
}

impl FrameView {
    /// The frame of a call that returns to `address`, before anything is
    /// stored.
    pub open spec fn new(address: int) -> FrameView {
        FrameView { variables: Map::empty(), return_address: address }
    }

    /// The value of a variable; one that was never set reads as `Null`.
    pub open spec fn get(self, var: Seq<char>) -> OperandView {
        if self.variables.contains_key(var) {
            self.variables[var]
        } else {
            OperandView::Null
        }
    }

    /// The frame after `val` is stored under `var`.
    pub open spec fn set(self, var: Seq<char>, val: OperandView) -> FrameView {
        FrameView { variables: self.variables.insert(var, val), ..self }
    }
}

/// The names that a list of bindings binds, in order.
spec fn names_of(bindings: Seq<Binding>) -> Seq<Seq<char>> {
    bindings.map_values(|b: Binding| b.name@)
}

impl View for Frame {
    type V = FrameView;

    closed spec fn view(&self) -> FrameView {
        FrameView {
            variables: Map::new(
                |k: Seq<char>| self.keys().contains(k),
                |k: Seq<char>| self.bindings@[self.keys().index_of(k)].value@,
            ),
            return_address: self.return_address as int,
        }
    }
}

impl Frame {
    /// No name is bound twice.
    #[verifier::type_invariant]
    spec fn distinct_names(&self) -> bool {
        self.keys().no_duplicates()
    }

    /// The names of the variables, each once, in the order in which
    /// [`Frame::values`] lists their values.
    pub closed spec fn keys(&self) -> Seq<Seq<char>> {
        names_of(self.bindings@)
    }

    /// An empty frame that returns to `address`.
    pub fn new(address: usize) -> (f: Frame)
        ensures
            f@ == FrameView::new(address as int),
            f.keys() == Seq::<Seq<char>>::empty(),
    {
        let f = Frame { bindings: Vec::new(), return_address: address };
        assert(f.keys() =~= Seq::<Seq<char>>::empty());
        assert(f@.variables =~= Map::<Seq<char>, OperandView>::empty());
        f
    }

    /// The address at which execution goes on when the call returns.
    pub fn return_address(&self) -> (a: usize)
        ensures
            a == self@.return_address,
    {
        self.return_address
    }

    /// Where `var` is bound, if it is.
    fn position(&self, var: &String) -> (r: Option<usize>)
        ensures
            match r {
                Some(i) => i < self.keys().len() && self.keys()[i as int] == var@,
                None => !self.keys().contains(var@),
            },
    {
        let mut i: usize = 0;
        while i < self.bindings.len()
            invariant
                i <= self.bindings.len(),
                self.keys().len() == self.bindings.len(),
                forall|j: int| 0 <= j < i ==> self.keys()[j] != var@,
            decreases self.bindings.len() - i,
        {
            if self.bindings[i].name == *var {
                return Some(i);
            }
            i = i + 1;
        }
        None
    }

    /// The value of `var`; a variable that was never set reads as `Null`.
    pub fn get(&self, var: String) -> (v: Operand)
        ensures
            v@ == self@.get(var@),
    {
        proof {
            use_type_invariant(self);
        }
        match self.position(&var) {
            Some(i) => self.bindings[i].value.clone(),
            None => Operand::Null,
        }
    }

    /// Stores `val` under `var`, in place of what was stored there before.
    pub fn set(&mut self, var: String, val: Operand)
        ensures
            final(self)@ == old(self)@.set(var@, val@),
            final(self).keys() == if old(self)@.variables.contains_key(var@) {
                old(self).keys()
            } else {
                old(self).keys().push(var@)
            },
    {
        proof {
            use_type_invariant(&*self);
        }
        let ghost before = *self;
        let ghost name = var@;
        let ghost value = val@;
        let found = self.position(&var);
        // The list is taken out while it changes, and put back when every
        // name in it is bound once again.
        let mut bindings: Vec<Binding> = Vec::new();
        core::mem::swap(&mut self.bindings, &mut bindings);
        match found {
            Some(i) => {
                bindings.set(i, Binding { name: var, value: val });
                proof {
                    assert(names_of(bindings@) =~= before.keys());
                }
                core::mem::swap(&mut self.bindings, &mut bindings);
                proof {
                    assert forall|k: Seq<char>| self.keys().contains(k) implies #[trigger] self@.variables[k]
                        == before@.set(name, value).variables[k] by {
                        let j = self.keys().index_of(k);
                        if k == name {
                            assert(j == i);
                        } else {
                            assert(j != i);
                        }
                    }
                    assert(self@.variables =~= before@.set(name, value).variables);
                }
            },
            None => {
                bindings.push(Binding { name: var, value: val });
                proof {
                    assert(names_of(bindings@) =~= before.keys().push(name));
                }
                core::mem::swap(&mut self.bindings, &mut bindings);
                proof {
                    let n = before.keys().len() as int;
                    assert(self.keys()[n] == name);
                    assert forall|k: Seq<char>| self.keys().contains(k) implies #[trigger] self@.variables[k]
                        == before@.set(name, value).variables[k] by {
                        let j = self.keys().index_of(k);
                        if k == name {
                            assert(j == n);
                        } else {
                            assert(j != n);
                            assert(before.keys()[j] == k);
                            assert(before.keys().index_of(k) == j);
                        }
                    }
                    assert forall|k: Seq<char>| before.keys().contains(k) implies self.keys().contains(k) by {
                        let j = before.keys().index_of(k);
                        assert(self.keys()[j] == k);
                    }
                    assert(self@.variables =~= before@.set(name, value).variables);
                }
            },
        }
    }

    /// The values of all variables, each variable's once. The order is that
    /// of [`Frame::keys`].
    pub fn values(&self) -> (r: Vec<Operand>)
        ensures
            r@.len() == self.keys().len(),
            self.keys().no_duplicates(),
            forall|k: Seq<char>| self.keys().contains(k) <==> self@.variables.contains_key(k),
            forall|i: int| 0 <= i < r@.len() ==> (#[trigger] r@[i])@ == self@.variables[self.keys()[i]],
    {
        proof {
            use_type_invariant(self);
        }
        let mut out: Vec<Operand> = Vec::new();
        let mut i: usize = 0;
        while i < self.bindings.len()
            invariant
                i <= self.bindings.len(),
                out@.len() == i,
                self.keys().len() == self.bindings.len(),
                self.keys().no_duplicates(),
                forall|j: int| 0 <= j < i ==> (#[trigger] out@[j])@ == self@.variables[self.keys()[j]],
            decreases self.bindings.len() - i,
        {
            let v = self.bindings[i].value.clone();
            proof {
                let k = self.keys()[i as int];
                assert(self.keys().contains(k));
                assert(self.keys().index_of(k) == i);
            }
            out.push(v);
            i = i + 1;
        }
        out
    }
}

impl Default for Frame {
    /// The base frame: empty, with return address 0.
    fn default() -> (f: Frame)
        ensures
            f@ == FrameView::new(0),
    {
        Frame::new(0)
    }
}

} // verus!
