use vstd::prelude::*;
use crate::constant::{Constant, Value};
use crate::instruction::Instruction;

verus! {

/// A named entry point: an export name and the instruction index it starts at.
#[derive(Debug)]
pub struct Export {
    pub name: String,
    pub index: u64,
}

/// The program image: instructions, the constant pool, imports and exports.
#[derive(Debug)]
pub struct CodeHolder {
    /// The executable instructions.
    pub instructions: Vec<Instruction>,
    /// Values the program reads but never changes.
    pub constant_pool: Vec<Constant>,
    /// Names of the host callbacks the program needs, by import slot.
    pub imports: Vec<String>,
    /// Entry points by name; no two share a name.
    pub exports: Vec<Export>,
}

/// The mathematical model of a program image.
pub struct Image {
    pub instructions: Seq<Instruction>,
    pub constants: Seq<Value>,
    pub imports: Seq<Seq<char>>,
    pub exports: Seq<(Seq<char>, u64)>,
}

pub open spec fn values_of(s: Seq<Constant>) -> Seq<Value> {
    s.map_values(|c: Constant| c@)
}

pub open spec fn names_of(s: Seq<String>) -> Seq<Seq<char>> {
    s.map_values(|n: String| n@)
}

pub open spec fn exports_of(s: Seq<Export>) -> Seq<(Seq<char>, u64)> {
    s.map_values(|e: Export| (e.name@, e.index))
}

/// No name occurs twice.
pub open spec fn unique_names(es: Seq<(Seq<char>, u64)>) -> bool {
    forall|i: int, j: int| 0 <= i < es.len() && 0 <= j < es.len() && i != j ==> es[i].0 != es[j].0
}

/// Whether `name` is exported.
pub open spec fn has_name(es: Seq<(Seq<char>, u64)>, name: Seq<char>) -> bool {
    exists|i: int| 0 <= i < es.len() && es[i].0 == name
}

/// The index exported under `name`, if any.
pub open spec fn lookup(es: Seq<(Seq<char>, u64)>, name: Seq<char>) -> Option<u64> {
    if has_name(es, name) {
        Some(es[choose|i: int| 0 <= i < es.len() && es[i].0 == name].1)
    } else {
        None
    }
}

/// The exports after binding `name` to `index`: an existing entry is updated in place,
/// a new one goes at the end.
pub open spec fn bind(es: Seq<(Seq<char>, u64)>, name: Seq<char>, index: u64) -> Seq<(Seq<char>, u64)> {
    if has_name(es, name) {
        es.update(choose|i: int| 0 <= i < es.len() && es[i].0 == name, (name, index))
    } else {
        es.push((name, index))
    }
}

impl View for CodeHolder {
    type V = Image;

    open spec fn view(&self) -> Image {
        Image {
            instructions: self.instructions@,
            constants: values_of(self.constant_pool@),
            imports: names_of(self.imports@),
            exports: exports_of(self.exports@),
        }
    }
}

impl CodeHolder {
    /// Export names are unique.
    pub open spec fn wf(&self) -> bool {
        unique_names(self@.exports)
    }

    /// An empty image.
    pub fn new() -> (r: CodeHolder)
        ensures
            r.wf(),
            r@.instructions.len() == 0,
            r@.constants.len() == 0,
            r@.imports.len() == 0,
            r@.exports.len() == 0,
    {
        CodeHolder {
            instructions: Vec::new(),
            constant_pool: Vec::new(),
            imports: Vec::new(),
            exports: Vec::new(),
        }
    }

    /// The position of the export named `func_name`, if any.
    pub fn find_export(&self, func_name: &String) -> (r: Option<usize>)
        ensures
            r is None <==> !has_name(self@.exports, func_name@),
            r matches Some(i) ==> i < self@.exports.len() && self@.exports[i as int].0 == func_name@,
    {
        let mut i: usize = 0;
        while i < self.exports.len()
            invariant
                0 <= i <= self.exports@.len(),
                forall|j: int| 0 <= j < i ==> self@.exports[j].0 != func_name@,
            decreases self.exports@.len() - i,
        {
            if self.exports[i].name == *func_name {
                assert(self@.exports[i as int].0 == func_name@);
                return Some(i);
            }
            i += 1;
        }
        None
    }

    /// Whether an export is named `func_name`.
    pub fn has_export(&self, func_name: &String) -> (r: bool)
        ensures
            r == has_name(self@.exports, func_name@),
    {
        self.find_export(func_name).is_some()
    }

    /// The instruction index exported under `func_name`, if any.
    pub fn export_index(&self, func_name: &String) -> (r: Option<u64>)
        requires
            self.wf(),
        ensures
            r == lookup(self@.exports, func_name@),
    {
        match self.find_export(func_name) {
            Some(i) => {
                proof {
                    let k = choose|k: int| 0 <= k < self@.exports.len() && self@.exports[k].0 == func_name@;
                    assert(k == i);
                }
                Some(self.exports[i].index)
            },
            None => None,
        }
    }

    /// Binds `func_name` to `index`, replacing an earlier binding of that name.
    pub fn set_export(&mut self, func_name: String, index: u64)
        requires
            old(self).wf(),
        ensures
            final(self).wf(),
            final(self)@.exports == bind(old(self)@.exports, func_name@, index),
            final(self)@.instructions == old(self)@.instructions,
            final(self)@.constants == old(self)@.constants,
            final(self)@.imports == old(self)@.imports,
    {
        match self.find_export(&func_name) {
            Some(i) => {
                proof {
                    let k = choose|k: int|
                        0 <= k < old(self)@.exports.len() && old(self)@.exports[k].0 == func_name@;
                    assert(k == i);
                }
                self.exports.set(i, Export { name: func_name, index });
                assert(self@.exports =~= bind(old(self)@.exports, func_name@, index));
            },
            None => {
                self.exports.push(Export { name: func_name, index });
                assert(self@.exports =~= bind(old(self)@.exports, func_name@, index));
            },
        }
    }

    /// Adds an import slot for the callback `name`.
    pub fn add_import(&mut self, name: String)
        ensures
            final(self)@.imports == old(self)@.imports.push(name@),
            final(self)@.instructions == old(self)@.instructions,
            final(self)@.constants == old(self)@.constants,
            final(self)@.exports == old(self)@.exports,
    {
        self.imports.push(name);
        assert(self@.imports =~= old(self)@.imports.push(name@));
    }
}

} // verus!
