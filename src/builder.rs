use vstd::prelude::*;
use crate::codeholder::{bind, has_name, lookup, unique_names, CodeHolder, Export, Image};
use crate::codegen::emitted;
use crate::instruction::Instruction;

verus! {

/// Builds an image and keeps named labels for instruction indices.
pub struct CodeBuilder {
    code_holder: CodeHolder,
    func_symbols: Vec<Export>,
}

pub open spec fn labels_of(s: Seq<Export>) -> Seq<(Seq<char>, u64)> {
    s.map_values(|e: Export| (e.name@, e.index))
}

impl CodeBuilder {
    /// The labels and the instruction index each one names.
    pub closed spec fn labels(&self) -> Seq<(Seq<char>, u64)> {
        labels_of(self.func_symbols@)
    }

    /// The image built so far.
    pub closed spec fn image(&self) -> Image {
        self.code_holder@
    }

    /// The image built so far.
    pub fn code_holder(&self) -> (r: &CodeHolder)
        ensures
            r@ == self.image(),
    {
        &self.code_holder
    }

    /// Ends building and hands out the image.
    pub fn into_code_holder(self) -> (r: CodeHolder)
        ensures
            r@ == self.image(),
    {
        self.code_holder
    }

    pub closed spec fn wf(&self) -> bool {
        unique_names(self.labels())
    }

    /// A builder around `code_holder`, with no labels.
    pub fn new(code_holder: CodeHolder) -> (r: CodeBuilder)
        ensures
            r.wf(),
            r.image() == code_holder@,
            r.labels() == Seq::<(Seq<char>, u64)>::empty(),
    {
        let r = CodeBuilder { code_holder, func_symbols: Vec::new() };
        assert(r.labels() =~= Seq::<(Seq<char>, u64)>::empty());
        r
    }

    fn find(&self, name: &String) -> (r: Option<usize>)
        ensures
            r is None <==> !has_name(self.labels(), name@),
            r matches Some(i) ==> i < self.labels().len() && self.labels()[i as int].0 == name@,
    {
        let mut i: usize = 0;
        while i < self.func_symbols.len()
            invariant
                0 <= i <= self.func_symbols@.len(),
                forall|j: int| 0 <= j < i ==> self.labels()[j].0 != name@,
            decreases self.func_symbols@.len() - i,
        {
            if self.func_symbols[i].name == *name {
                assert(self.labels()[i as int].0 == name@);
                return Some(i);
            }
            i += 1;
        }
        None
    }

    /// Names the index of the next instruction `name`, replacing an earlier label of that name.
    pub fn create_label(&mut self, name: String)
        requires
            old(self).wf(),
            old(self).image().instructions.len() <= u64::MAX,
        ensures
            final(self).wf(),
            final(self).image() == old(self).image(),
            final(self).labels() == bind(
                old(self).labels(),
                name@,
                old(self).image().instructions.len() as u64,
            ),
    {
        let index = self.code_holder.instructions.len() as u64;
        match self.find(&name) {
            Some(i) => {
                proof {
                    let k = choose|k: int| 0 <= k < old(self).labels().len() && old(self).labels()[k].0 == name@;
                    assert(k == i);
                }
                self.func_symbols.set(i, Export { name, index });
                assert(self.labels() =~= bind(old(self).labels(), name@, index));
            },
            None => {
                self.func_symbols.push(Export { name, index });
                assert(self.labels() =~= bind(old(self).labels(), name@, index));
            },
        }
    }

    /// Appends an `Alloc` of `block_count` registers.
    pub fn generate_alloc(&mut self, block_count: u32)
        ensures
            final(self).image() == emitted(old(self).image(), Instruction::Alloc(block_count)),
            final(self).labels() == old(self).labels(),
    {
        self.code_holder.instructions.push(Instruction::Alloc(block_count));
    }

    /// Appends a `Free` of `block_count` frames.
    pub fn generate_free(&mut self, block_count: u32)
        ensures
            final(self).image() == emitted(old(self).image(), Instruction::Free(block_count)),
            final(self).labels() == old(self).labels(),
    {
        self.code_holder.instructions.push(Instruction::Free(block_count));
    }

    /// Appends a relative `Jump`.
    pub fn generate_jump(&mut self, operation_count: i64)
        ensures
            final(self).image() == emitted(old(self).image(), Instruction::Jump(operation_count)),
            final(self).labels() == old(self).labels(),
    {
        self.code_holder.instructions.push(Instruction::Jump(operation_count));
    }

    /// Appends a `Call` of the label `function_addr`; a name with no label emits nothing
    /// and gives `false`.
    pub fn generate_call(&mut self, function_addr: &String) -> (ok: bool)
        requires
            old(self).wf(),
        ensures
            final(self).labels() == old(self).labels(),
            ok == has_name(old(self).labels(), function_addr@),
            ok ==> final(self).image() == emitted(
                old(self).image(),
                Instruction::Call(lookup(old(self).labels(), function_addr@)->0),
            ),
            !ok ==> final(self).image() == old(self).image(),
    {
        match self.find(function_addr) {
            Some(i) => {
                proof {
                    let k = choose|k: int|
                        0 <= k < old(self).labels().len() && old(self).labels()[k].0 == function_addr@;
                    assert(k == i);
                }
                let address = self.func_symbols[i].index;
                self.code_holder.instructions.push(Instruction::Call(address));
                true
            },
            None => false,
        }
    }
}

} // verus!
