//! The program model consumed by the location subsystem.
//!
//! A `Program` is a set of functions; a `Function` is a control-flow graph of
//! `Block`s connected by `Edge`s; a `Block` is an ordered sequence of
//! `Instruction`s. Every entity carries a stable numeric index assigned at
//! construction time; lookups scan the declared order and return the first
//! entity with the requested index.

use vstd::prelude::*;

verus! {

/// An atomic IL operation, identified by a stable index within its block.
/// It may carry the address it was lifted from.
#[derive(Clone, Copy, Debug, PartialEq, Eq)]
pub struct Instruction {
    pub index: u64,
    pub address: Option<u64>,
}

/// A directed connection between two blocks of one function, identified by the
/// pair of the head block's index and the tail block's index.
#[derive(Clone, Copy, Debug, PartialEq, Eq)]
pub struct Edge {
    pub head: u64,
    pub tail: u64,
}

/// An ordered sequence of instructions, identified by a stable index within
/// its function.
#[derive(Clone, Debug, PartialEq, Eq)]
pub struct Block {
    pub index: u64,
    pub instructions: Vec<Instruction>,
}

/// A control-flow graph of blocks and edges, identified by a stable index
/// within its program.
#[derive(Clone, Debug, PartialEq, Eq)]
pub struct Function {
    pub index: u64,
    pub blocks: Vec<Block>,
    pub edges: Vec<Edge>,
}

/// The whole analyzed unit: an ordered set of functions.
#[derive(Clone, Debug, PartialEq, Eq)]
pub struct Program {
    pub functions: Vec<Function>,
}

/// The first instruction at or after position `i` whose index is `index`.
pub open spec fn find_instruction_from(instructions: Seq<Instruction>, index: u64, i: int) -> Option<Instruction>
    decreases instructions.len() - i,
{
    if i >= instructions.len() {
        None
    } else if instructions[i].index == index {
        Some(instructions[i])
    } else {
        find_instruction_from(instructions, index, i + 1)
    }
}

/// The first instruction whose index is `index`.
pub open spec fn find_instruction(instructions: Seq<Instruction>, index: u64) -> Option<Instruction> {
    find_instruction_from(instructions, index, 0)
}

/// The position of the first instruction at or after position `i` whose index
/// is `index`.
pub open spec fn instruction_position_from(instructions: Seq<Instruction>, index: u64, i: int) -> Option<int>
    decreases instructions.len() - i,
{
    if i >= instructions.len() {
        None
    } else if instructions[i].index == index {
        Some(i)
    } else {
        instruction_position_from(instructions, index, i + 1)
    }
}

/// The position of the first instruction whose index is `index`.
pub open spec fn instruction_position(instructions: Seq<Instruction>, index: u64) -> Option<int> {
    instruction_position_from(instructions, index, 0)
}

/// The first instruction at or after position `i` that carries `address`.
pub open spec fn instruction_at_from(instructions: Seq<Instruction>, address: u64, i: int) -> Option<Instruction>
    decreases instructions.len() - i,
{
    if i >= instructions.len() {
        None
    } else if instructions[i].address == Some(address) {
        Some(instructions[i])
    } else {
        instruction_at_from(instructions, address, i + 1)
    }
}

/// The first instruction that carries `address`.
pub open spec fn instruction_at(instructions: Seq<Instruction>, address: u64) -> Option<Instruction> {
    instruction_at_from(instructions, address, 0)
}

/// The first block at or after position `i` whose index is `index`.
pub open spec fn find_block_from(blocks: Seq<Block>, index: u64, i: int) -> Option<Block>
    decreases blocks.len() - i,
{
    if i >= blocks.len() {
        None
    } else if blocks[i].index == index {
        Some(blocks[i])
    } else {
        find_block_from(blocks, index, i + 1)
    }
}

/// The first block whose index is `index`.
pub open spec fn find_block(blocks: Seq<Block>, index: u64) -> Option<Block> {
    find_block_from(blocks, index, 0)
}

/// The first block at or after position `i` holding an instruction that
/// carries `address`, paired with the first such instruction in it.
pub open spec fn block_instruction_at_from(blocks: Seq<Block>, address: u64, i: int) -> Option<(Block, Instruction)>
    decreases blocks.len() - i,
{
    if i >= blocks.len() {
        None
    } else {
        match instruction_at(blocks[i].instructions@, address) {
            Some(instruction) => Some((blocks[i], instruction)),
            None => block_instruction_at_from(blocks, address, i + 1),
        }
    }
}

/// The first (block, instruction) pair, in declared block order, whose
/// instruction carries `address`.
pub open spec fn block_instruction_at(blocks: Seq<Block>, address: u64) -> Option<(Block, Instruction)> {
    block_instruction_at_from(blocks, address, 0)
}

/// The first edge at or after position `i` with head `head` and tail `tail`.
pub open spec fn find_edge_from(edges: Seq<Edge>, head: u64, tail: u64, i: int) -> Option<Edge>
    decreases edges.len() - i,
{
    if i >= edges.len() {
        None
    } else if edges[i].head == head && edges[i].tail == tail {
        Some(edges[i])
    } else {
        find_edge_from(edges, head, tail, i + 1)
    }
}

/// The first edge with head `head` and tail `tail`.
pub open spec fn find_edge(edges: Seq<Edge>, head: u64, tail: u64) -> Option<Edge> {
    find_edge_from(edges, head, tail, 0)
}

/// The subsequence of `edges`, in declared order, whose head is `head`: the
/// out-edges of the block with index `head`.
pub open spec fn out_edges(edges: Seq<Edge>, head: u64) -> Seq<Edge>
    decreases edges.len(),
{
    if edges.len() == 0 {
        Seq::empty()
    } else {
        let rest = out_edges(edges.drop_last(), head);
        if edges.last().head == head {
            rest.push(edges.last())
        } else {
            rest
        }
    }
}

/// The first function at or after position `i` whose index is `index`.
pub open spec fn find_function_from(functions: Seq<Function>, index: u64, i: int) -> Option<Function>
    decreases functions.len() - i,
{
    if i >= functions.len() {
        None
    } else if functions[i].index == index {
        Some(functions[i])
    } else {
        find_function_from(functions, index, i + 1)
    }
}

/// The first function whose index is `index`.
pub open spec fn find_function(functions: Seq<Function>, index: u64) -> Option<Function> {
    find_function_from(functions, index, 0)
}

/// The first (function, block, instruction) triple, in declared function
/// order, whose instruction carries `address`.
pub open spec fn location_at_from(functions: Seq<Function>, address: u64, i: int) -> Option<(Function, Block, Instruction)>
    decreases functions.len() - i,
{
    if i >= functions.len() {
        None
    } else {
        match block_instruction_at(functions[i].blocks@, address) {
            Some(bi) => Some((functions[i], bi.0, bi.1)),
            None => location_at_from(functions, address, i + 1),
        }
    }
}

/// The first (function, block, instruction) triple whose instruction carries
/// `address`, under the program's declared enumeration order.
pub open spec fn location_at(functions: Seq<Function>, address: u64) -> Option<(Function, Block, Instruction)> {
    location_at_from(functions, address, 0)
}

/// No two instructions share an index.
pub open spec fn unique_instruction_indices(instructions: Seq<Instruction>) -> bool {
    forall|j: int, k: int|
        0 <= j < k < instructions.len() ==> instructions[j].index != instructions[k].index
}

/// No two blocks share an index.
pub open spec fn unique_block_indices(blocks: Seq<Block>) -> bool {
    forall|j: int, k: int| 0 <= j < k < blocks.len() ==> blocks[j].index != blocks[k].index
}

/// No two edges share a (head, tail) pair.
pub open spec fn unique_edge_pairs(edges: Seq<Edge>) -> bool {
    forall|j: int, k: int|
        0 <= j < k < edges.len() ==> !(edges[j].head == edges[k].head && edges[j].tail
            == edges[k].tail)
}

/// No two functions share an index.
pub open spec fn unique_function_indices(functions: Seq<Function>) -> bool {
    forall|j: int, k: int|
        0 <= j < k < functions.len() ==> functions[j].index != functions[k].index
}

proof fn lemma_find_instruction_from_unique(instructions: Seq<Instruction>, x: Instruction, i: int, k: int)
    requires
        unique_instruction_indices(instructions),
        0 <= i <= k < instructions.len(),
        instructions[k] == x,
    ensures
        find_instruction_from(instructions, x.index, i) == Some(x),
    decreases instructions.len() - i,
{
    if instructions[i].index == x.index {
        assert(i == k);
    } else {
        lemma_find_instruction_from_unique(instructions, x, i + 1, k);
    }
}

/// In a block whose instruction indices never repeat, looking an instruction
/// of the block up by its own index finds exactly that instruction.
pub proof fn lemma_find_instruction_unique(instructions: Seq<Instruction>, x: Instruction)
    requires
        unique_instruction_indices(instructions),
        instructions.contains(x),
    ensures
        find_instruction(instructions, x.index) == Some(x),
{
    let k = choose|k: int| 0 <= k < instructions.len() && instructions[k] == x;
    lemma_find_instruction_from_unique(instructions, x, 0, k);
}

proof fn lemma_instruction_position_from_unique(instructions: Seq<Instruction>, i: int, k: int)
    requires
        unique_instruction_indices(instructions),
        0 <= i <= k < instructions.len(),
    ensures
        instruction_position_from(instructions, instructions[k].index, i) == Some(k),
    decreases instructions.len() - i,
{
    if instructions[i].index == instructions[k].index {
        assert(i == k);
    } else {
        lemma_instruction_position_from_unique(instructions, i + 1, k);
    }
}

/// In a block whose instruction indices never repeat, the position found for
/// an instruction's own index is that instruction's position.
pub proof fn lemma_instruction_position_unique(instructions: Seq<Instruction>, k: int)
    requires
        unique_instruction_indices(instructions),
        0 <= k < instructions.len(),
    ensures
        instruction_position(instructions, instructions[k].index) == Some(k),
{
    lemma_instruction_position_from_unique(instructions, 0, k);
}

proof fn lemma_find_block_from_unique(blocks: Seq<Block>, x: Block, i: int, k: int)
    requires
        unique_block_indices(blocks),
        0 <= i <= k < blocks.len(),
        blocks[k] == x,
    ensures
        find_block_from(blocks, x.index, i) == Some(x),
    decreases blocks.len() - i,
{
    if blocks[i].index == x.index {
        assert(i == k);
    } else {
        lemma_find_block_from_unique(blocks, x, i + 1, k);
    }
}

/// In a function whose block indices never repeat, looking a block of the
/// function up by its own index finds exactly that block.
pub proof fn lemma_find_block_unique(blocks: Seq<Block>, x: Block)
    requires
        unique_block_indices(blocks),
        blocks.contains(x),
    ensures
        find_block(blocks, x.index) == Some(x),
{
    let k = choose|k: int| 0 <= k < blocks.len() && blocks[k] == x;
    lemma_find_block_from_unique(blocks, x, 0, k);
}

proof fn lemma_find_edge_from_unique(edges: Seq<Edge>, x: Edge, i: int, k: int)
    requires
        unique_edge_pairs(edges),
        0 <= i <= k < edges.len(),
        edges[k] == x,
    ensures
        find_edge_from(edges, x.head, x.tail, i) == Some(x),
    decreases edges.len() - i,
{
    if edges[i].head == x.head && edges[i].tail == x.tail {
        assert(i == k);
    } else {
        lemma_find_edge_from_unique(edges, x, i + 1, k);
    }
}

/// In a function whose edge pairs never repeat, looking an edge of the
/// function up by its own (head, tail) pair finds exactly that edge.
pub proof fn lemma_find_edge_unique(edges: Seq<Edge>, x: Edge)
    requires
        unique_edge_pairs(edges),
        edges.contains(x),
    ensures
        find_edge(edges, x.head, x.tail) == Some(x),
{
    let k = choose|k: int| 0 <= k < edges.len() && edges[k] == x;
    lemma_find_edge_from_unique(edges, x, 0, k);
}

proof fn lemma_find_function_from_unique(functions: Seq<Function>, x: Function, i: int, k: int)
    requires
        unique_function_indices(functions),
        0 <= i <= k < functions.len(),
        functions[k] == x,
    ensures
        find_function_from(functions, x.index, i) == Some(x),
    decreases functions.len() - i,
{
    if functions[i].index == x.index {
        assert(i == k);
    } else {
        lemma_find_function_from_unique(functions, x, i + 1, k);
    }
}

/// In a program whose function indices never repeat, looking a function of
/// the program up by its own index finds exactly that function.
pub proof fn lemma_find_function_unique(functions: Seq<Function>, x: Function)
    requires
        unique_function_indices(functions),
        functions.contains(x),
    ensures
        find_function(functions, x.index) == Some(x),
{
    let k = choose|k: int| 0 <= k < functions.len() && functions[k] == x;
    lemma_find_function_from_unique(functions, x, 0, k);
}

proof fn lemma_find_block_from_key(blocks: Seq<Block>, index: u64, i: int)
    requires
        0 <= i,
    ensures
        match find_block_from(blocks, index, i) {
            Some(b) => b.index == index && blocks.contains(b),
            None => true,
        },
    decreases blocks.len() - i,
{
    if i < blocks.len() && blocks[i].index != index {
        lemma_find_block_from_key(blocks, index, i + 1);
    }
}

/// A block found by index has that index and belongs to the searched blocks.
pub proof fn lemma_find_block_key(blocks: Seq<Block>, index: u64)
    ensures
        match find_block(blocks, index) {
            Some(b) => b.index == index && blocks.contains(b),
            None => true,
        },
{
    lemma_find_block_from_key(blocks, index, 0);
}

proof fn lemma_find_function_from_key(functions: Seq<Function>, index: u64, i: int)
    requires
        0 <= i,
    ensures
        match find_function_from(functions, index, i) {
            Some(f) => f.index == index && functions.contains(f),
            None => true,
        },
    decreases functions.len() - i,
{
    if i < functions.len() && functions[i].index != index {
        lemma_find_function_from_key(functions, index, i + 1);
    }
}

/// A function found by index has that index and belongs to the searched
/// functions.
pub proof fn lemma_find_function_key(functions: Seq<Function>, index: u64)
    ensures
        match find_function(functions, index) {
            Some(f) => f.index == index && functions.contains(f),
            None => true,
        },
{
    lemma_find_function_from_key(functions, index, 0);
}

proof fn lemma_find_instruction_from_key(instructions: Seq<Instruction>, index: u64, i: int)
    requires
        0 <= i,
    ensures
        match find_instruction_from(instructions, index, i) {
            Some(x) => x.index == index && instructions.contains(x),
            None => true,
        },
    decreases instructions.len() - i,
{
    if i < instructions.len() && instructions[i].index != index {
        lemma_find_instruction_from_key(instructions, index, i + 1);
    }
}

/// An instruction found by index has that index and belongs to the searched
/// instructions.
pub proof fn lemma_find_instruction_key(instructions: Seq<Instruction>, index: u64)
    ensures
        match find_instruction(instructions, index) {
            Some(x) => x.index == index && instructions.contains(x),
            None => true,
        },
{
    lemma_find_instruction_from_key(instructions, index, 0);
}

proof fn lemma_find_edge_from_key(edges: Seq<Edge>, head: u64, tail: u64, i: int)
    requires
        0 <= i,
    ensures
        match find_edge_from(edges, head, tail, i) {
            Some(e) => e.head == head && e.tail == tail && edges.contains(e),
            None => true,
        },
    decreases edges.len() - i,
{
    if i < edges.len() && !(edges[i].head == head && edges[i].tail == tail) {
        lemma_find_edge_from_key(edges, head, tail, i + 1);
    }
}

/// An edge found by (head, tail) has that pair and belongs to the searched
/// edges.
pub proof fn lemma_find_edge_key(edges: Seq<Edge>, head: u64, tail: u64)
    ensures
        match find_edge(edges, head, tail) {
            Some(e) => e.head == head && e.tail == tail && edges.contains(e),
            None => true,
        },
{
    lemma_find_edge_from_key(edges, head, tail, 0);
}

impl Instruction {
    pub fn new(index: u64, address: Option<u64>) -> (r: Instruction)
        ensures
            r == (Instruction { index, address }),
    {
        Instruction { index, address }
    }

    /// The instruction's stable index within its block.
    pub fn index(&self) -> (r: u64)
        ensures
            r == self.index,
    {
        self.index
    }

    /// The address the instruction was lifted from, if it carries one.
    pub fn address(&self) -> (r: Option<u64>)
        ensures
            r == self.address,
    {
        self.address
    }
}

impl Edge {
    pub fn new(head: u64, tail: u64) -> (r: Edge)
        ensures
            r == (Edge { head, tail }),
    {
        Edge { head, tail }
    }

    /// The index of the block this edge leaves.
    pub fn head(&self) -> (r: u64)
        ensures
            r == self.head,
    {
        self.head
    }

    /// The index of the block this edge enters.
    pub fn tail(&self) -> (r: u64)
        ensures
            r == self.tail,
    {
        self.tail
    }
}

impl Block {
    /// A block's indices never repeat.
    pub open spec fn wf(self) -> bool {
        unique_instruction_indices(self.instructions@)
    }

    pub fn new(index: u64) -> (r: Block)
        ensures
            r.index == index,
            r.instructions@.len() == 0,
    {
        Block { index, instructions: Vec::new() }
    }

    /// The block's stable index within its function.
    pub fn index(&self) -> (r: u64)
        ensures
            r == self.index,
    {
        self.index
    }

    /// The block's instructions, in declared order.
    pub fn instructions(&self) -> (r: &Vec<Instruction>)
        ensures
            r == &self.instructions,
    {
        &self.instructions
    }

    /// Append an instruction at the end of the block.
    pub fn push_instruction(&mut self, instruction: Instruction)
        ensures
            final(self).index == old(self).index,
            final(self).instructions@ == old(self).instructions@.push(instruction),
    {
        self.instructions.push(instruction);
    }

    /// The first instruction with the given index, if any.
    #[verifier::loop_isolation(false)]
    pub fn instruction(&self, index: u64) -> (r: Option<&Instruction>)
        ensures
            match r {
                Some(instruction) => find_instruction(self.instructions@, index) == Some(
                    *instruction,
                ),
                None => find_instruction(self.instructions@, index) is None,
            },
    {
        let n = self.instructions.len();
        let mut i: usize = 0;
        while i < n
            invariant
                i <= n == self.instructions@.len(),
                find_instruction(self.instructions@, index) == find_instruction_from(
                    self.instructions@,
                    index,
                    i as int,
                ),
            decreases n - i,
        {
            if self.instructions[i].index == index {
                return Some(&self.instructions[i]);
            }
            i = i + 1;
        }
        None
    }
}

impl Function {
    /// Some block of this function has the given index.
    pub open spec fn has_block_index(self, index: u64) -> bool {
        exists|k: int| 0 <= k < self.blocks@.len() && #[trigger] self.blocks@[k].index == index
    }

    /// Indices never repeat, every block is itself well formed, edge pairs
    /// never repeat, and every edge connects two existing blocks.
    pub open spec fn wf(self) -> bool {
        &&& unique_block_indices(self.blocks@)
        &&& forall|k: int| 0 <= k < self.blocks@.len() ==> (#[trigger] self.blocks@[k]).wf()
        &&& unique_edge_pairs(self.edges@)
        &&& forall|k: int|
            0 <= k < self.edges@.len() ==> self.has_block_index(
                (#[trigger] self.edges@[k]).head,
            ) && self.has_block_index(self.edges@[k].tail)
    }

    pub fn new(index: u64) -> (r: Function)
        ensures
            r.index == index,
            r.blocks@.len() == 0,
            r.edges@.len() == 0,
    {
        Function { index, blocks: Vec::new(), edges: Vec::new() }
    }

    /// The function's stable index within its program.
    pub fn index(&self) -> (r: u64)
        ensures
            r == self.index,
    {
        self.index
    }

    /// The function's blocks, in declared order.
    pub fn blocks(&self) -> (r: &Vec<Block>)
        ensures
            r == &self.blocks,
    {
        &self.blocks
    }

    /// The function's edges, in declared order.
    pub fn edges(&self) -> (r: &Vec<Edge>)
        ensures
            r == &self.edges,
    {
        &self.edges
    }

    /// Append a block at the end of the function.
    pub fn push_block(&mut self, block: Block)
        ensures
            final(self).index == old(self).index,
            final(self).blocks@ == old(self).blocks@.push(block),
            final(self).edges@ == old(self).edges@,
    {
        self.blocks.push(block);
    }

    /// Append an edge at the end of the function's control-flow graph.
    pub fn push_edge(&mut self, edge: Edge)
        ensures
            final(self).index == old(self).index,
            final(self).blocks@ == old(self).blocks@,
            final(self).edges@ == old(self).edges@.push(edge),
    {
        self.edges.push(edge);
    }

    /// The first block with the given index, if any.
    #[verifier::loop_isolation(false)]
    pub fn block(&self, index: u64) -> (r: Option<&Block>)
        ensures
            match r {
                Some(block) => find_block(self.blocks@, index) == Some(*block),
                None => find_block(self.blocks@, index) is None,
            },
    {
        let n = self.blocks.len();
        let mut i: usize = 0;
        while i < n
            invariant
                i <= n == self.blocks@.len(),
                find_block(self.blocks@, index) == find_block_from(self.blocks@, index, i as int),
            decreases n - i,
        {
            if self.blocks[i].index == index {
                return Some(&self.blocks[i]);
            }
            i = i + 1;
        }
        None
    }

    /// The first edge with the given (head, tail) pair, if any.
    #[verifier::loop_isolation(false)]
    pub fn edge(&self, head: u64, tail: u64) -> (r: Option<&Edge>)
        ensures
            match r {
                Some(edge) => find_edge(self.edges@, head, tail) == Some(*edge),
                None => find_edge(self.edges@, head, tail) is None,
            },
    {
        let n = self.edges.len();
        let mut i: usize = 0;
        while i < n
            invariant
                i <= n == self.edges@.len(),
                find_edge(self.edges@, head, tail) == find_edge_from(
                    self.edges@,
                    head,
                    tail,
                    i as int,
                ),
            decreases n - i,
        {
            if self.edges[i].head == head && self.edges[i].tail == tail {
                return Some(&self.edges[i]);
            }
            i = i + 1;
        }
        None
    }

    /// Whether some block of this function has the given index.
    #[verifier::loop_isolation(false)]
    pub fn has_block(&self, index: u64) -> (r: bool)
        ensures
            r == self.has_block_index(index),
    {
        let n = self.blocks.len();
        let mut i: usize = 0;
        while i < n
            invariant
                i <= n == self.blocks@.len(),
                forall|k: int| 0 <= k < i ==> #[trigger] self.blocks@[k].index != index,
            decreases n - i,
        {
            if self.blocks[i].index == index {
                return true;
            }
            i = i + 1;
        }
        false
    }
}

impl Program {
    /// Function indices never repeat and every function is well formed.
    pub open spec fn wf(self) -> bool {
        &&& unique_function_indices(self.functions@)
        &&& forall|k: int| 0 <= k < self.functions@.len() ==> (#[trigger] self.functions@[k]).wf()
    }

    pub fn new() -> (r: Program)
        ensures
            r.functions@.len() == 0,
    {
        Program { functions: Vec::new() }
    }

    /// The program's functions, in declared order.
    pub fn functions(&self) -> (r: &Vec<Function>)
        ensures
            r == &self.functions,
    {
        &self.functions
    }

    /// Append a function at the end of the program.
    pub fn push_function(&mut self, function: Function)
        ensures
            final(self).functions@ == old(self).functions@.push(function),
    {
        self.functions.push(function);
    }

    /// The first function with the given index, if any.
    #[verifier::loop_isolation(false)]
    pub fn function(&self, index: u64) -> (r: Option<&Function>)
        ensures
            match r {
                Some(function) => find_function(self.functions@, index) == Some(*function),
                None => find_function(self.functions@, index) is None,
            },
    {
        let n = self.functions.len();
        let mut i: usize = 0;
        while i < n
            invariant
                i <= n == self.functions@.len(),
                find_function(self.functions@, index) == find_function_from(
                    self.functions@,
                    index,
                    i as int,
                ),
            decreases n - i,
        {
            if self.functions[i].index == index {
                return Some(&self.functions[i]);
            }
            i = i + 1;
        }
        None
    }
}

} // verus!
