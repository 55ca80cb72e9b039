use vstd::prelude::*;

use crate::types::{FuncSig, ValTy};

verus! {

/// What the analysis reads of a WebAssembly module: its function types,
/// the type index of every function (imports first), and the value type of
/// every global.
#[derive(Clone)]
pub struct Module {
    pub types: Vec<FuncSig>,
    pub funcs: Vec<u32>,
    pub globals: Vec<ValTy>,
}

impl Module {
    /// Every function refers to a type of the type section.
    pub open spec fn wf(&self) -> bool {
        forall|i: int| 0 <= i < self.funcs@.len() ==> #[trigger] self.funcs@[i] < self.types@.len()
    }

    /// Function `f` exists and refers to a type of the type section.
    pub open spec fn func_ok(&self, f: int) -> bool {
        &&& 0 <= f < self.funcs@.len()
        &&& self.funcs@[f] < self.types@.len()
    }

    /// The signature of function `f`.
    pub open spec fn spec_func_type(&self, f: int) -> FuncSig {
        self.types@[self.funcs@[f] as int]
    }

    pub fn new(types: Vec<FuncSig>, funcs: Vec<u32>, globals: Vec<ValTy>) -> (r: Module)
        ensures
            r.types@ == types@,
            r.funcs@ == funcs@,
            r.globals@ == globals@,
    {
        Module { types, funcs, globals }
    }

    /// Checks `wf`.
    pub fn is_wf(&self) -> (r: bool)
        ensures
            r == self.wf(),
    {
        let n = self.types.len();
        let mut i: usize = 0;
        while i < self.funcs.len()
            invariant
                i <= self.funcs@.len(),
                n == self.types@.len(),
                forall|j: int| 0 <= j < i ==> #[trigger] self.funcs@[j] < n,
            decreases self.funcs@.len() - i,
        {
            if self.funcs[i] as usize >= n {
                return false;
            }
            i = i + 1;
        }
        true
    }

    pub fn get_type_by_func(&self, function_index: u32) -> (r: &FuncSig)
        requires
            self.func_ok(function_index as int),
        ensures
            *r == self.spec_func_type(function_index as int),
    {
        let t = self.funcs[function_index as usize];
        &self.types[t as usize]
    }

    pub fn get_type_by_type(&self, type_index: u32) -> (r: &FuncSig)
        requires
            type_index < self.types@.len(),
        ensures
            *r == self.types@[type_index as int],
    {
        &self.types[type_index as usize]
    }

    pub fn get_type_by_global(&self, global_index: u32) -> (r: &ValTy)
        requires
            global_index < self.globals@.len(),
        ensures
            *r == self.globals@[global_index as int],
    {
        &self.globals[global_index as usize]
    }
}

} // verus!
