//! Locations inside a program, in borrowed and owned form.
//!
//! `RefProgramLocation` and `RefFunctionLocation` hold direct references into
//! one program instance and are valid only as long as that instance lives.
//! `ProgramLocation` and `FunctionLocation` hold only indices and are
//! independent of any instance. Lowering a borrowed location (`From`) is
//! total; applying an owned location against a program (`apply`) is a soft
//! probe that yields nothing on a miss; migrating a borrowed location to
//! another program (`migrate`) reports exactly which entity was missing.

use vstd::prelude::*;

use crate::il::Block;
use crate::il::Edge;
use crate::il::Function;
use crate::il::Instruction;
use crate::il::Program;
use crate::il::block_instruction_at;
use crate::il::block_instruction_at_from;
use crate::il::find_block;
use crate::il::find_edge;
use crate::il::find_function;
use crate::il::find_instruction;
use crate::il::instruction_at;
use crate::il::instruction_at_from;
use crate::il::instruction_position;
use crate::il::instruction_position_from;
use crate::il::location_at;
use crate::il::location_at_from;
use crate::il::out_edges;

verus! {

/// A diagnostic for a loud resolution failure: it names the kind of the
/// missing entity and its index within the enclosing entity.
#[derive(Clone, Copy, Debug, PartialEq, Eq, Structural)]
pub enum Error {
    /// No function with this index exists in the program.
    FunctionNotFound { function: u64 },
    /// No block with this index exists in the named function.
    BlockNotFound { function: u64, block: u64 },
    /// No instruction with this index exists in the named block.
    InstructionNotFound { function: u64, block: u64, instruction: u64 },
    /// No edge with this (head, tail) pair exists in the named function.
    EdgeNotFound { function: u64, head: u64, tail: u64 },
}

/// A position within one live `Function`, holding references to the named
/// sub-objects: at an instruction of a block, at an edge, or at a block with
/// no instructions.
#[derive(Clone, Copy, Debug, PartialEq, Eq)]
pub enum RefFunctionLocation<'f> {
    Instruction(&'f Block, &'f Instruction),
    Edge(&'f Edge),
    EmptyBlock(&'f Block),
}

/// A position within one live `Program`: a function together with a position
/// inside it. It never owns what it names; its validity is bounded by the
/// lifetime of the program it was obtained from.
#[derive(Clone, Copy, Debug, PartialEq, Eq)]
pub struct RefProgramLocation<'p> {
    pub function: &'p Function,
    pub function_location: RefFunctionLocation<'p>,
}

/// A position within a function, independent of any function instance: plain
/// indices only.
#[derive(Clone, Copy, Debug, PartialEq, Eq, Structural)]
pub enum FunctionLocation {
    /// A block index and an instruction index within that block.
    Instruction(u64, u64),
    /// A (head, tail) pair of block indices.
    Edge(u64, u64),
    /// The index of a block with no instructions.
    EmptyBlock(u64),
}

/// A position within a program, independent of any program instance: a
/// function index and a `FunctionLocation`.
#[derive(Clone, Copy, Debug, PartialEq, Eq, Structural)]
pub struct ProgramLocation {
    pub function_index: u64,
    pub function_location: FunctionLocation,
}

impl<'f> RefFunctionLocation<'f> {
    /// The owned image of this location: each referenced sub-object replaced
    /// by its index.
    pub open spec fn lowered(self) -> FunctionLocation {
        match self {
            RefFunctionLocation::Instruction(block, instruction) => FunctionLocation::Instruction(
                block.index,
                instruction.index,
            ),
            RefFunctionLocation::Edge(edge) => FunctionLocation::Edge(edge.head, edge.tail),
            RefFunctionLocation::EmptyBlock(block) => FunctionLocation::EmptyBlock(block.index),
        }
    }

    /// The referenced sub-objects belong to `f`: an `Instruction` location's
    /// block is a block of `f` that holds the referenced instruction, an
    /// `Edge` location's edge is an edge of `f`, and an `EmptyBlock`
    /// location's block is a block of `f` with no instructions.
    pub open spec fn valid_in(self, f: Function) -> bool {
        match self {
            RefFunctionLocation::Instruction(block, instruction) => f.blocks@.contains(*block)
                && block.instructions@.contains(*instruction),
            RefFunctionLocation::Edge(edge) => f.edges@.contains(*edge),
            RefFunctionLocation::EmptyBlock(block) => f.blocks@.contains(*block)
                && block.instructions@.len() == 0,
        }
    }

    /// If this location references a `Block`, get that `Block`.
    pub fn block(&self) -> (r: Option<&Block>)
        ensures
            match *self {
                RefFunctionLocation::Instruction(block, _) => (r matches Some(b) && b == block),
                RefFunctionLocation::EmptyBlock(block) => (r matches Some(b) && b == block),
                RefFunctionLocation::Edge(_) => r is None,
            },
    {
        match *self {
            RefFunctionLocation::Instruction(block, _) => Some(block),
            RefFunctionLocation::EmptyBlock(block) => Some(block),
            RefFunctionLocation::Edge(_) => None,
        }
    }

    /// If this location references an `Instruction`, get that `Instruction`.
    pub fn instruction(&self) -> (r: Option<&Instruction>)
        ensures
            match *self {
                RefFunctionLocation::Instruction(_, instruction) => (r matches Some(i) && i
                    == instruction),
                _ => r is None,
            },
    {
        match *self {
            RefFunctionLocation::Instruction(_, instruction) => Some(instruction),
            _ => None,
        }
    }

    /// If this location references an `Edge`, get that `Edge`.
    pub fn edge(&self) -> (r: Option<&Edge>)
        ensures
            match *self {
                RefFunctionLocation::Edge(edge) => (r matches Some(e) && e == edge),
                _ => r is None,
            },
    {
        match *self {
            RefFunctionLocation::Edge(edge) => Some(edge),
            _ => None,
        }
    }
}

impl<'p> RefProgramLocation<'p> {
    /// The owned image of this location: the function's index paired with the
    /// lowered function location.
    pub open spec fn lowered(self) -> ProgramLocation {
        ProgramLocation {
            function_index: self.function.index,
            function_location: self.function_location.lowered(),
        }
    }

    /// The referenced function belongs to `p` and the function location's
    /// sub-objects belong to that function.
    pub open spec fn valid_in(self, p: Program) -> bool {
        p.functions@.contains(*self.function) && self.function_location.valid_in(*self.function)
    }

    /// The address of the referenced instruction, if this location references
    /// an instruction that carries one.
    pub open spec fn spec_address(self) -> Option<u64> {
        match self.function_location {
            RefFunctionLocation::Instruction(_, instruction) => instruction.address,
            _ => None,
        }
    }

    /// Pair a function with a function-scoped location. No validation is
    /// performed: the caller guarantees that the location's sub-objects
    /// belong to `function`.
    pub fn new(function: &'p Function, function_location: RefFunctionLocation<'p>) -> (r:
        RefProgramLocation<'p>)
        ensures
            r.function == function,
            r.function_location == function_location,
    {
        RefProgramLocation { function, function_location }
    }

    /// The function this location lies in.
    pub fn function(&self) -> (r: &Function)
        ensures
            r == self.function,
    {
        self.function
    }

    /// The function-scoped part of this location.
    pub fn function_location(&self) -> (r: &RefFunctionLocation<'p>)
        ensures
            r == &self.function_location,
    {
        &self.function_location
    }

    /// If this location references an `Instruction`, get that `Instruction`.
    pub fn instruction(&self) -> (r: Option<&Instruction>)
        ensures
            match self.function_location {
                RefFunctionLocation::Instruction(_, instruction) => (r matches Some(i) && i
                    == instruction),
                _ => r is None,
            },
    {
        match self.function_location {
            RefFunctionLocation::Instruction(_, instruction) => Some(instruction),
            _ => None,
        }
    }

    /// If this location references an `Instruction` which has an address set,
    /// return that address.
    pub fn address(&self) -> (r: Option<u64>)
        ensures
            r == self.spec_address(),
    {
        if let Some(instruction) = self.function_location.instruction() {
            return instruction.address();
        }
        None
    }
}

/// `l` stands at instruction `x` of block `b` in function `f`.
pub open spec fn is_instruction_location<'a>(
    l: RefProgramLocation<'a>,
    f: Function,
    b: Block,
    x: Instruction,
) -> bool {
    *l.function == f && (l.function_location matches RefFunctionLocation::Instruction(lb, li)
        && *lb == b && *li == x)
}

/// `l` stands at edge `e` in function `f`.
pub open spec fn is_edge_location<'a>(l: RefProgramLocation<'a>, f: Function, e: Edge) -> bool {
    *l.function == f && (l.function_location matches RefFunctionLocation::Edge(le) && *le == e)
}

/// `l` stands at the empty block `b` in function `f`.
pub open spec fn is_empty_block_location<'a>(
    l: RefProgramLocation<'a>,
    f: Function,
    b: Block,
) -> bool {
    *l.function == f && (l.function_location matches RefFunctionLocation::EmptyBlock(lb) && *lb
        == b)
}

/// `ls` holds one edge location per out-edge of the block with index `head`
/// in `f`, in the graph's declared edge order.
pub open spec fn is_edge_fanout<'a>(ls: Seq<RefProgramLocation<'a>>, f: Function, head: u64) -> bool {
    let es = out_edges(f.edges@, head);
    ls.len() == es.len() && (forall|k: int|
        0 <= k < es.len() ==> is_edge_location(#[trigger] ls[k], f, es[k]))
}

/// One edge location per out-edge of the block with index `head` in
/// `function`, in the graph's declared edge order.
#[verifier::loop_isolation(false)]
fn edge_locations<'p>(function: &'p Function, head: u64) -> (r: Vec<RefProgramLocation<'p>>)
    ensures
        is_edge_fanout(r@, *function, head),
{
    let edges = function.edges();
    let n = edges.len();
    let mut locations: Vec<RefProgramLocation<'p>> = Vec::new();
    let mut i: usize = 0;
    while i < n
        invariant
            i <= n == function.edges@.len(),
            locations@.len() == out_edges(function.edges@.take(i as int), head).len(),
            forall|k: int|
                0 <= k < locations@.len() ==> is_edge_location(
                    #[trigger] locations@[k],
                    *function,
                    out_edges(function.edges@.take(i as int), head)[k],
                ),
        decreases n - i,
    {
        proof {
            assert(function.edges@.take(i as int + 1).drop_last() =~= function.edges@.take(i as int));
            assert(function.edges@.take(i as int + 1).last() == function.edges@[i as int]);
        }
        let edge = &edges[i];
        if edge.head() == head {
            locations.push(
                RefProgramLocation { function, function_location: RefFunctionLocation::Edge(edge) },
            );
        }
        i = i + 1;
    }
    proof {
        assert(function.edges@.take(n as int) =~= function.edges@);
    }
    locations
}

impl<'p> RefProgramLocation<'p> {
    /// The diagnostic that stepping this location forward yields, if the
    /// graph around it is inconsistent: the referenced instruction is not in
    /// its block, or the referenced block is not in the function's
    /// control-flow graph.
    pub open spec fn advance_failure(self) -> Option<Error> {
        let f = *self.function;
        match self.function_location {
            RefFunctionLocation::Instruction(block, instruction) => {
                match instruction_position(block.instructions@, instruction.index) {
                    None => Some(
                        (Error::InstructionNotFound {
                            function: f.index,
                            block: block.index,
                            instruction: instruction.index,
                        }),
                    ),
                    Some(k) => if k + 1 < block.instructions@.len() {
                        None
                    } else if !f.has_block_index(block.index) {
                        Some((Error::BlockNotFound { function: f.index, block: block.index }))
                    } else {
                        None
                    },
                }
            },
            RefFunctionLocation::Edge(edge) => if find_block(f.blocks@, edge.tail) is None {
                Some((Error::BlockNotFound { function: f.index, block: edge.tail }))
            } else {
                None
            },
            RefFunctionLocation::EmptyBlock(block) => if !f.has_block_index(block.index) {
                Some((Error::BlockNotFound { function: f.index, block: block.index }))
            } else {
                None
            },
        }
    }

    /// `ls` is the set of structural successors of this location, in graph
    /// order: the next instruction of the same block; or, at the end of a
    /// block, one location per out-edge; from an edge, the tail block's first
    /// instruction, or the tail block itself when it is empty; from an empty
    /// block, one location per out-edge.
    pub open spec fn advances_to(self, ls: Seq<RefProgramLocation<'p>>) -> bool {
        let f = *self.function;
        match self.function_location {
            RefFunctionLocation::Instruction(block, instruction) => {
                match instruction_position(block.instructions@, instruction.index) {
                    None => false,
                    Some(k) => if k + 1 < block.instructions@.len() {
                        ls.len() == 1 && is_instruction_location(
                            ls[0],
                            f,
                            *block,
                            block.instructions@[k + 1],
                        )
                    } else {
                        is_edge_fanout(ls, f, block.index)
                    },
                }
            },
            RefFunctionLocation::Edge(edge) => match find_block(f.blocks@, edge.tail) {
                None => false,
                Some(tail_block) => if tail_block.instructions@.len() == 0 {
                    ls.len() == 1 && is_empty_block_location(ls[0], f, tail_block)
                } else {
                    ls.len() == 1 && is_instruction_location(
                        ls[0],
                        f,
                        tail_block,
                        tail_block.instructions@[0],
                    )
                },
            },
            RefFunctionLocation::EmptyBlock(block) => is_edge_fanout(ls, f, block.index),
        }
    }

    #[verifier::loop_isolation(false)]
    fn advance_instruction_forward(&self, block: &'p Block, instruction: &Instruction) -> (r:
        Result<Vec<RefProgramLocation<'p>>, Error>)
        requires
            self.function_location matches RefFunctionLocation::Instruction(b, i) && b == block
                && *i == *instruction,
        ensures
            match r {
                Ok(ls) => self.advance_failure() is None && self.advances_to(ls@),
                Err(e) => self.advance_failure() == Some(e),
            },
    {
        let instructions = block.instructions();
        let n = instructions.len();
        let mut i: usize = 0;
        while i < n
            invariant
                i <= n == block.instructions@.len(),
                instruction_position(block.instructions@, instruction.index)
                    == instruction_position_from(block.instructions@, instruction.index, i as int),
            decreases n - i,
        {
            if instructions[i].index == instruction.index() {
                if i + 1 < n {
                    let next_instruction = &instructions[i + 1];
                    return Ok(
                        vec![
                            RefProgramLocation {
                                function: self.function,
                                function_location: RefFunctionLocation::Instruction(
                                    block,
                                    next_instruction,
                                ),
                            },
                        ],
                    );
                }
                if !self.function.has_block(block.index()) {
                    return Err(
                        Error::BlockNotFound {
                            function: self.function.index(),
                            block: block.index(),
                        },
                    );
                }
                return Ok(edge_locations(self.function, block.index()));
            }
            i = i + 1;
        }
        Err(
            Error::InstructionNotFound {
                function: self.function.index(),
                block: block.index(),
                instruction: instruction.index(),
            },
        )
    }

    fn advance_edge_forward(&self, edge: &'p Edge) -> (r: Result<
        Vec<RefProgramLocation<'p>>,
        Error,
    >)
        requires
            self.function_location matches RefFunctionLocation::Edge(e) && e == edge,
        ensures
            match r {
                Ok(ls) => self.advance_failure() is None && self.advances_to(ls@),
                Err(e) => self.advance_failure() == Some(e),
            },
    {
        let block = match self.function.block(edge.tail()) {
            Some(block) => block,
            None => {
                return Err(
                    Error::BlockNotFound { function: self.function.index(), block: edge.tail() },
                );
            },
        };
        if block.instructions().is_empty() {
            Ok(
                vec![
                    RefProgramLocation {
                        function: self.function,
                        function_location: RefFunctionLocation::EmptyBlock(block),
                    },
                ],
            )
        } else {
            let first = &block.instructions()[0];
            Ok(
                vec![
                    RefProgramLocation {
                        function: self.function,
                        function_location: RefFunctionLocation::Instruction(block, first),
                    },
                ],
            )
        }
    }

    fn advance_empty_block_forward(&self, block: &'p Block) -> (r: Result<
        Vec<RefProgramLocation<'p>>,
        Error,
    >)
        requires
            self.function_location matches RefFunctionLocation::EmptyBlock(b) && b == block,
        ensures
            match r {
                Ok(ls) => self.advance_failure() is None && self.advances_to(ls@),
                Err(e) => self.advance_failure() == Some(e),
            },
    {
        if !self.function.has_block(block.index()) {
            return Err(
                Error::BlockNotFound { function: self.function.index(), block: block.index() },
            );
        }
        Ok(edge_locations(self.function, block.index()))
    }

    /// Advance this location forward to its structural successors within the
    /// same program instance.
    ///
    /// "Forward" means "next position in graph order": this does not follow
    /// the targets a branch instruction would actually transfer control to.
    /// Failure indicates an inconsistency of the underlying graph, not a
    /// normal runtime condition.
    pub fn advance_forward(&self) -> (r: Result<Vec<RefProgramLocation<'p>>, Error>)
        ensures
            match r {
                Ok(ls) => self.advance_failure() is None && self.advances_to(ls@),
                Err(e) => self.advance_failure() == Some(e),
            },
    {
        match self.function_location {
            RefFunctionLocation::Instruction(block, instruction) => self.advance_instruction_forward(
                block,
                instruction,
            ),
            RefFunctionLocation::Edge(edge) => self.advance_edge_forward(edge),
            RefFunctionLocation::EmptyBlock(block) => self.advance_empty_block_forward(block),
        }
    }

    /// The diagnostic migration to `p` yields, if any: the first failing
    /// lookup of this location's indices in `p`, in lookup order.
    pub open spec fn migrate_failure(self, p: Program) -> Option<Error> {
        match find_function(p.functions@, self.function.index) {
            None => Some((Error::FunctionNotFound { function: self.function.index })),
            Some(f) => match self.function_location {
                RefFunctionLocation::Instruction(block, instruction) => {
                    match find_block(f.blocks@, block.index) {
                        None => Some(
                            (Error::BlockNotFound {
                                function: self.function.index,
                                block: block.index,
                            }),
                        ),
                        Some(b) => if find_instruction(b.instructions@, instruction.index) is None {
                            Some(
                                (Error::InstructionNotFound {
                                    function: self.function.index,
                                    block: block.index,
                                    instruction: instruction.index,
                                }),
                            )
                        } else {
                            None
                        },
                    }
                },
                RefFunctionLocation::Edge(edge) => if find_edge(
                    f.edges@,
                    edge.head,
                    edge.tail,
                ) is None {
                    Some(
                        (Error::EdgeNotFound {
                            function: self.function.index,
                            head: edge.head,
                            tail: edge.tail,
                        }),
                    )
                } else {
                    None
                },
                RefFunctionLocation::EmptyBlock(block) => if find_block(
                    f.blocks@,
                    block.index,
                ) is None {
                    Some(
                        (Error::BlockNotFound {
                            function: self.function.index,
                            block: block.index,
                        }),
                    )
                } else {
                    None
                },
            },
        }
    }

    /// Re-resolve this location against another `Program` by the indices of
    /// the entities it names.
    ///
    /// Unlike `apply`, a miss is reported loudly: the error names the first
    /// missing function, block, instruction or edge.
    pub fn migrate<'m>(&self, program: &'m Program) -> (r: Result<RefProgramLocation<'m>, Error>)
        ensures
            match r {
                Ok(l) => self.migrate_failure(*program) is None && self.lowered().applies_as(
                    *program,
                    l,
                ),
                Err(e) => self.migrate_failure(*program) == Some(e),
            },
    {
        let function_index = self.function.index();
        let function = match program.function(function_index) {
            Some(function) => function,
            None => {
                return Err(Error::FunctionNotFound { function: function_index });
            },
        };
        let function_location = match self.function_location {
            RefFunctionLocation::Instruction(block, instruction) => {
                let new_block = match function.block(block.index()) {
                    Some(b) => b,
                    None => {
                        return Err(
                            Error::BlockNotFound { function: function_index, block: block.index() },
                        );
                    },
                };
                let new_instruction = match new_block.instruction(instruction.index()) {
                    Some(x) => x,
                    None => {
                        return Err(
                            Error::InstructionNotFound {
                                function: function_index,
                                block: block.index(),
                                instruction: instruction.index(),
                            },
                        );
                    },
                };
                RefFunctionLocation::Instruction(new_block, new_instruction)
            },
            RefFunctionLocation::Edge(edge) => {
                match function.edge(edge.head(), edge.tail()) {
                    Some(e) => RefFunctionLocation::Edge(e),
                    None => {
                        return Err(
                            Error::EdgeNotFound {
                                function: function_index,
                                head: edge.head(),
                                tail: edge.tail(),
                            },
                        );
                    },
                }
            },
            RefFunctionLocation::EmptyBlock(block) => {
                match function.block(block.index()) {
                    Some(b) => RefFunctionLocation::EmptyBlock(b),
                    None => {
                        return Err(
                            Error::BlockNotFound { function: function_index, block: block.index() },
                        );
                    },
                }
            },
        };
        Ok(RefProgramLocation { function, function_location })
    }

    /// Find the location of the first instruction carrying `address`, under
    /// the program's declared function, block and instruction order.
    #[verifier::loop_isolation(false)]
    pub fn from_address(program: &'p Program, address: u64) -> (r: Option<RefProgramLocation<'p>>)
        ensures
            match r {
                Some(l) => (location_at(program.functions@, address) matches Some(t) && *l.function
                    == t.0 && (l.function_location matches RefFunctionLocation::Instruction(b, i)
                    && *b == t.1 && *i == t.2)),
                None => location_at(program.functions@, address) is None,
            },
    {
        let functions = program.functions();
        let n = functions.len();
        let mut i: usize = 0;
        while i < n
            invariant
                i <= n == program.functions@.len(),
                location_at(program.functions@, address) == location_at_from(
                    program.functions@,
                    address,
                    i as int,
                ),
            decreases n - i,
        {
            let function = &functions[i];
            match first_block_instruction_at(function, address) {
                Some((block, instruction)) => {
                    return Some(
                        RefProgramLocation {
                            function,
                            function_location: RefFunctionLocation::Instruction(block, instruction),
                        },
                    );
                },
                None => {},
            }
            i = i + 1;
        }
        None
    }
}

/// The first instruction of `block` carrying `address`, in declared order.
#[verifier::loop_isolation(false)]
fn first_instruction_at<'f>(block: &'f Block, address: u64) -> (r: Option<&'f Instruction>)
    ensures
        match r {
            Some(x) => instruction_at(block.instructions@, address) == Some(*x),
            None => instruction_at(block.instructions@, address) is None,
        },
{
    let instructions = block.instructions();
    let n = instructions.len();
    let mut i: usize = 0;
    while i < n
        invariant
            i <= n == block.instructions@.len(),
            instruction_at(block.instructions@, address) == instruction_at_from(
                block.instructions@,
                address,
                i as int,
            ),
        decreases n - i,
    {
        match instructions[i].address() {
            Some(instruction_address) => {
                if instruction_address == address {
                    return Some(&instructions[i]);
                }
            },
            None => {},
        }
        i = i + 1;
    }
    None
}

/// The first (block, instruction) pair of `function` whose instruction
/// carries `address`, in declared block order.
#[verifier::loop_isolation(false)]
fn first_block_instruction_at<'f>(function: &'f Function, address: u64) -> (r: Option<
    (&'f Block, &'f Instruction),
>)
    ensures
        match r {
            Some(p) => block_instruction_at(function.blocks@, address) == Some((*p.0, *p.1)),
            None => block_instruction_at(function.blocks@, address) is None,
        },
{
    let blocks = function.blocks();
    let n = blocks.len();
    let mut i: usize = 0;
    while i < n
        invariant
            i <= n == function.blocks@.len(),
            block_instruction_at(function.blocks@, address) == block_instruction_at_from(
                function.blocks@,
                address,
                i as int,
            ),
        decreases n - i,
    {
        let block = &blocks[i];
        match first_instruction_at(block, address) {
            Some(instruction) => {
                return Some((block, instruction));
            },
            None => {},
        }
        i = i + 1;
    }
    None
}

impl FunctionLocation {
    /// Every lookup this location asks of `f` succeeds.
    pub open spec fn applicable(self, f: Function) -> bool {
        match self {
            FunctionLocation::Instruction(block_index, instruction_index) => match find_block(
                f.blocks@,
                block_index,
            ) {
                Some(b) => find_instruction(b.instructions@, instruction_index) is Some,
                None => false,
            },
            FunctionLocation::Edge(head, tail) => find_edge(f.edges@, head, tail) is Some,
            FunctionLocation::EmptyBlock(block_index) => find_block(f.blocks@, block_index) is Some,
        }
    }

    /// `l` is the borrowed location this owned location resolves to in `f`:
    /// variant for variant, each referenced sub-object is the first one found
    /// under this location's indices.
    pub open spec fn applies_as<'f>(self, f: Function, l: RefFunctionLocation<'f>) -> bool {
        match self {
            FunctionLocation::Instruction(block_index, instruction_index) => (l matches RefFunctionLocation::Instruction(b, i)
                && find_block(f.blocks@, block_index) == Some(*b) && find_instruction(
                b.instructions@,
                instruction_index,
            ) == Some(*i)),
            FunctionLocation::Edge(head, tail) => (l matches RefFunctionLocation::Edge(e)
                && find_edge(f.edges@, head, tail) == Some(*e)),
            FunctionLocation::EmptyBlock(block_index) => (l matches RefFunctionLocation::EmptyBlock(
                b,
            ) && find_block(f.blocks@, block_index) == Some(*b)),
        }
    }

    /// "Apply" this `FunctionLocation` to a `Function`, returning a
    /// `RefFunctionLocation`. A miss of any lookup yields `None` and no
    /// diagnostic: callers use this to probe whether a saved location still
    /// makes sense.
    pub fn apply<'f>(&self, function: &'f Function) -> (r: Option<RefFunctionLocation<'f>>)
        ensures
            match r {
                Some(l) => self.applies_as(*function, l),
                None => !self.applicable(*function),
            },
    {
        match *self {
            FunctionLocation::Instruction(block_index, instruction_index) => {
                let block = match function.block(block_index) {
                    Some(block) => block,
                    None => {
                        return None;
                    },
                };
                let instruction = match block.instruction(instruction_index) {
                    Some(instruction) => instruction,
                    None => {
                        return None;
                    },
                };
                Some(RefFunctionLocation::Instruction(block, instruction))
            },
            FunctionLocation::Edge(head, tail) => {
                match function.edge(head, tail) {
                    Some(edge) => Some(RefFunctionLocation::Edge(edge)),
                    None => None,
                }
            },
            FunctionLocation::EmptyBlock(block_index) => {
                match function.block(block_index) {
                    Some(block) => Some(RefFunctionLocation::EmptyBlock(block)),
                    None => None,
                }
            },
        }
    }
}

impl ProgramLocation {
    /// The function lookup and every lookup inside it succeed in `p`.
    pub open spec fn applicable(self, p: Program) -> bool {
        match find_function(p.functions@, self.function_index) {
            Some(f) => self.function_location.applicable(f),
            None => false,
        }
    }

    /// `l` is the borrowed location this owned location resolves to in `p`.
    pub open spec fn applies_as<'p>(self, p: Program, l: RefProgramLocation<'p>) -> bool {
        find_function(p.functions@, self.function_index) == Some(*l.function)
            && self.function_location.applies_as(*l.function, l.function_location)
    }

    /// "Apply" this `ProgramLocation` to a `Program`, returning a
    /// `RefProgramLocation`. A miss of any lookup yields `None` and no
    /// diagnostic: callers use this to probe whether a saved location still
    /// makes sense.
    pub fn apply<'p>(&self, program: &'p Program) -> (r: Option<RefProgramLocation<'p>>)
        ensures
            match r {
                Some(l) => self.applies_as(*program, l),
                None => !self.applicable(*program),
            },
    {
        let function = match program.function(self.function_index) {
            Some(function) => function,
            None => {
                return None;
            },
        };
        let function_location = match self.function_location.apply(function) {
            Some(function_location) => function_location,
            None => {
                return None;
            },
        };
        Some(RefProgramLocation::new(function, function_location))
    }
}

impl<'f> From<RefFunctionLocation<'f>> for FunctionLocation {
    /// Lowering is total: replace each referenced sub-object by its index.
    fn from(function_location: RefFunctionLocation<'f>) -> (r: FunctionLocation) {
        match function_location {
            RefFunctionLocation::Instruction(block, instruction) => FunctionLocation::Instruction(
                block.index(),
                instruction.index(),
            ),
            RefFunctionLocation::Edge(edge) => FunctionLocation::Edge(edge.head(), edge.tail()),
            RefFunctionLocation::EmptyBlock(block) => FunctionLocation::EmptyBlock(block.index()),
        }
    }
}

impl<'f> vstd::std_specs::convert::FromSpecImpl<RefFunctionLocation<'f>> for FunctionLocation {
    open spec fn obeys_from_spec() -> bool {
        true
    }

    open spec fn from_spec(function_location: RefFunctionLocation<'f>) -> FunctionLocation {
        function_location.lowered()
    }
}

impl<'p> From<RefProgramLocation<'p>> for ProgramLocation {
    /// Lowering is total: the function's index paired with the lowered
    /// function location.
    fn from(program_location: RefProgramLocation<'p>) -> (r: ProgramLocation) {
        ProgramLocation {
            function_index: program_location.function().index(),
            function_location: FunctionLocation::from(program_location.function_location),
        }
    }
}

impl<'p> vstd::std_specs::convert::FromSpecImpl<RefProgramLocation<'p>> for ProgramLocation {
    open spec fn obeys_from_spec() -> bool {
        true
    }

    open spec fn from_spec(program_location: RefProgramLocation<'p>) -> ProgramLocation {
        program_location.lowered()
    }
}

/// `b` and `c` hold equally-indexed instructions at the same positions.
pub open spec fn block_same_shape(b: Block, c: Block) -> bool {
    &&& b.index == c.index
    &&& b.instructions@.len() == c.instructions@.len()
    &&& forall|k: int|
        0 <= k < b.instructions@.len() ==> (#[trigger] b.instructions@[k]).index
            == c.instructions@[k].index
}

/// `f` and `g` hold equally-indexed blocks at the same positions, with the
/// same shape, and identical edges.
pub open spec fn function_same_shape(f: Function, g: Function) -> bool {
    &&& f.index == g.index
    &&& f.blocks@.len() == g.blocks@.len()
    &&& forall|k: int|
        0 <= k < f.blocks@.len() ==> block_same_shape(#[trigger] f.blocks@[k], g.blocks@[k])
    &&& f.edges@ == g.edges@
}

/// `p` and `q` are structural clones: equally-indexed functions at the same
/// positions, with the same shape. Instruction contents (such as addresses)
/// may differ.
pub open spec fn same_shape(p: Program, q: Program) -> bool {
    &&& p.functions@.len() == q.functions@.len()
    &&& forall|k: int|
        0 <= k < p.functions@.len() ==> function_same_shape(
            #[trigger] p.functions@[k],
            q.functions@[k],
        )
}

/// Law: applying then lowering is the identity on owned locations. Whatever
/// borrowed location an owned location resolves to, that borrowed location
/// lowers back to the owned location itself.
pub proof fn lemma_applies_as_lowered<'p>(
    pl: ProgramLocation,
    p: Program,
    m: RefProgramLocation<'p>,
)
    requires
        pl.applies_as(p, m),
    ensures
        m.lowered() == pl,
{
    crate::il::lemma_find_function_key(p.functions@, pl.function_index);
    let g = *m.function;
    match pl.function_location {
        FunctionLocation::Instruction(block_index, instruction_index) => {
            crate::il::lemma_find_block_key(g.blocks@, block_index);
            match m.function_location {
                RefFunctionLocation::Instruction(mb, _) => {
                    crate::il::lemma_find_instruction_key(mb.instructions@, instruction_index);
                },
                _ => {},
            }
        },
        FunctionLocation::Edge(head, tail) => {
            crate::il::lemma_find_edge_key(g.edges@, head, tail);
        },
        FunctionLocation::EmptyBlock(block_index) => {
            crate::il::lemma_find_block_key(g.blocks@, block_index);
        },
    }
}

/// Law: lowering is total and index-stable, and the round trip is the
/// identity. Lowering a valid borrowed location and applying the result
/// against the same, unmodified, well-formed program always succeeds, and
/// every borrowed location it can resolve to names the identical sub-objects.
pub proof fn lemma_lower_apply_round_trip<'p>(p: Program, l: RefProgramLocation<'p>)
    requires
        p.wf(),
        l.valid_in(p),
    ensures
        l.lowered().applicable(p),
        forall|m: RefProgramLocation<'p>| l.lowered().applies_as(p, m) ==> m == l,
{
    let f = *l.function;
    crate::il::lemma_find_function_unique(p.functions@, f);
    assert(f.wf()) by {
        let kf = choose|kf: int| 0 <= kf < p.functions@.len() && p.functions@[kf] == f;
        assert(p.functions@[kf].wf());
    }
    match l.function_location {
        RefFunctionLocation::Instruction(block, instruction) => {
            crate::il::lemma_find_block_unique(f.blocks@, *block);
            assert(block.wf()) by {
                let kb = choose|kb: int| 0 <= kb < f.blocks@.len() && f.blocks@[kb] == *block;
                assert(f.blocks@[kb].wf());
            }
            crate::il::lemma_find_instruction_unique(block.instructions@, *instruction);
        },
        RefFunctionLocation::Edge(edge) => {
            crate::il::lemma_find_edge_unique(f.edges@, *edge);
        },
        RefFunctionLocation::EmptyBlock(block) => {
            crate::il::lemma_find_block_unique(f.blocks@, *block);
        },
    }
}

/// Law: on a well-formed function, advancing a valid location never fails.
/// Advancement fails only on an inconsistent graph.
pub proof fn lemma_advance_total<'p>(l: RefProgramLocation<'p>)
    requires
        l.function.wf(),
        l.function_location.valid_in(*l.function),
    ensures
        l.advance_failure() is None,
{
    let f = *l.function;
    match l.function_location {
        RefFunctionLocation::Instruction(block, instruction) => {
            let kb = choose|kb: int| 0 <= kb < f.blocks@.len() && f.blocks@[kb] == *block;
            assert(f.blocks@[kb] == *block);
            assert(block.wf());
            let k = choose|k: int|
                0 <= k < block.instructions@.len() && block.instructions@[k] == *instruction;
            crate::il::lemma_instruction_position_unique(block.instructions@, k);
            assert(f.has_block_index(block.index)) by {
                assert(f.blocks@[kb].index == block.index);
            }
        },
        RefFunctionLocation::Edge(edge) => {
            let ke = choose|ke: int| 0 <= ke < f.edges@.len() && f.edges@[ke] == *edge;
            assert(f.edges@[ke] == *edge);
            assert(f.has_block_index(edge.tail));
            let kb = choose|kb: int|
                0 <= kb < f.blocks@.len() && #[trigger] f.blocks@[kb].index == edge.tail;
            crate::il::lemma_find_block_unique(f.blocks@, f.blocks@[kb]);
        },
        RefFunctionLocation::EmptyBlock(block) => {
            let kb = choose|kb: int| 0 <= kb < f.blocks@.len() && f.blocks@[kb] == *block;
            assert(f.has_block_index(block.index)) by {
                assert(f.blocks@[kb].index == block.index);
            }
        },
    }
}

/// Law: a location at the i-th instruction of a well-formed block, with more
/// instructions after it, advances to exactly one location: the (i+1)-th
/// instruction of the same block.
pub proof fn lemma_advance_within_block<'p>(
    l: RefProgramLocation<'p>,
    b: Block,
    k: int,
    ls: Seq<RefProgramLocation<'p>>,
)
    requires
        b.wf(),
        l.function_location matches RefFunctionLocation::Instruction(lb, li) && *lb == b && *li
            == b.instructions@[k],
        0 <= k < b.instructions@.len() - 1,
        l.advances_to(ls),
    ensures
        ls.len() == 1,
        is_instruction_location(ls[0], *l.function, b, b.instructions@[k + 1]),
{
    crate::il::lemma_instruction_position_unique(b.instructions@, k);
}

/// Law: a location at the last instruction of a well-formed block advances
/// to exactly one location per out-edge of that block, in the graph's
/// declared edge order.
pub proof fn lemma_advance_end_of_block<'p>(
    l: RefProgramLocation<'p>,
    b: Block,
    ls: Seq<RefProgramLocation<'p>>,
)
    requires
        b.wf(),
        b.instructions@.len() > 0,
        l.function_location matches RefFunctionLocation::Instruction(lb, li) && *lb == b && *li
            == b.instructions@[b.instructions@.len() - 1],
        l.advances_to(ls),
    ensures
        is_edge_fanout(ls, *l.function, b.index),
{
    crate::il::lemma_instruction_position_unique(b.instructions@, b.instructions@.len() - 1);
}

/// Law: a location at the last instruction of a well-formed block with zero
/// out-edges advances to the empty successor set: a program exit point.
pub proof fn lemma_advance_terminal_block<'p>(
    l: RefProgramLocation<'p>,
    b: Block,
    ls: Seq<RefProgramLocation<'p>>,
)
    requires
        b.wf(),
        b.instructions@.len() > 0,
        l.function_location matches RefFunctionLocation::Instruction(lb, li) && *lb == b && *li
            == b.instructions@[b.instructions@.len() - 1],
        out_edges(l.function.edges@, b.index).len() == 0,
        l.advances_to(ls),
    ensures
        ls.len() == 0,
{
    lemma_advance_end_of_block(l, b, ls);
}

/// Law: advancing from an edge lands on the tail block: on its first
/// instruction when it has any, and on the tail block itself as an empty
/// block when it has none.
pub proof fn lemma_advance_from_edge<'p>(
    l: RefProgramLocation<'p>,
    e: Edge,
    tb: Block,
    ls: Seq<RefProgramLocation<'p>>,
)
    requires
        l.function.wf(),
        l.function_location matches RefFunctionLocation::Edge(le) && *le == e,
        l.function.blocks@.contains(tb),
        tb.index == e.tail,
        l.advances_to(ls),
    ensures
        ls.len() == 1,
        tb.instructions@.len() > 0 ==> is_instruction_location(
            ls[0],
            *l.function,
            tb,
            tb.instructions@[0],
        ),
        tb.instructions@.len() == 0 ==> is_empty_block_location(ls[0], *l.function, tb),
{
    crate::il::lemma_find_block_unique(l.function.blocks@, tb);
}

/// Law: advancing from an empty block yields exactly one location per
/// out-edge of that block, under the same rule and order as the
/// end-of-instructions case.
pub proof fn lemma_advance_from_empty_block<'p>(
    l: RefProgramLocation<'p>,
    b: Block,
    ls: Seq<RefProgramLocation<'p>>,
)
    requires
        l.function_location matches RefFunctionLocation::EmptyBlock(lb) && *lb == b,
        l.advances_to(ls),
    ensures
        is_edge_fanout(ls, *l.function, b.index),
{
}

/// Law: migrating a location whose function index does not exist in the
/// target program fails with a diagnostic naming that function index.
pub proof fn lemma_migrate_missing_function<'p>(l: RefProgramLocation<'p>, q: Program)
    requires
        find_function(q.functions@, l.function.index) is None,
    ensures
        l.migrate_failure(q) == Some((Error::FunctionNotFound { function: l.function.index })),
{
}

/// The function indices of a structural clone of a well-formed program never
/// repeat either.
proof fn lemma_shape_preserves_function_uniqueness(p: Program, q: Program)
    requires
        p.wf(),
        same_shape(p, q),
    ensures
        crate::il::unique_function_indices(q.functions@),
{
    assert forall|j: int, k: int|
        0 <= j < k < q.functions@.len() implies q.functions@[j].index != q.functions@[
        k
    ].index by {
        assert(function_same_shape(p.functions@[j], q.functions@[j]));
        assert(function_same_shape(p.functions@[k], q.functions@[k]));
    }
}

/// The block indices of a function shaped like a well-formed function never
/// repeat either.
proof fn lemma_shape_preserves_block_uniqueness(f: Function, g: Function)
    requires
        f.wf(),
        function_same_shape(f, g),
    ensures
        crate::il::unique_block_indices(g.blocks@),
{
    assert forall|j: int, k: int|
        0 <= j < k < g.blocks@.len() implies g.blocks@[j].index != g.blocks@[k].index by {
        assert(block_same_shape(f.blocks@[j], g.blocks@[j]));
        assert(block_same_shape(f.blocks@[k], g.blocks@[k]));
    }
}

/// Law: migrating a valid location to a structural clone of its well-formed
/// program succeeds, and every borrowed location its owned image can resolve
/// to in the clone names the correspondingly-indexed entities.
pub proof fn lemma_migrate_fidelity<'p, 'm>(p: Program, q: Program, l: RefProgramLocation<'p>)
    requires
        p.wf(),
        same_shape(p, q),
        l.valid_in(p),
    ensures
        l.migrate_failure(q) is None,
        forall|m: RefProgramLocation<'m>|
            l.lowered().applies_as(q, m) ==> #[trigger] m.lowered() == l.lowered(),
{
    let f = *l.function;
    let kf = choose|kf: int| 0 <= kf < p.functions@.len() && p.functions@[kf] == f;
    let g = q.functions@[kf];
    assert(function_same_shape(f, g));
    lemma_shape_preserves_function_uniqueness(p, q);
    crate::il::lemma_find_function_unique(q.functions@, g);
    assert(find_function(q.functions@, f.index) == Some(g));
    assert(f.wf());
    match l.function_location {
        RefFunctionLocation::Instruction(block, instruction) => {
            let kb = choose|kb: int| 0 <= kb < f.blocks@.len() && f.blocks@[kb] == *block;
            let c = g.blocks@[kb];
            assert(block_same_shape(f.blocks@[kb], c));
            lemma_shape_preserves_block_uniqueness(f, g);
            crate::il::lemma_find_block_unique(g.blocks@, c);
            assert(find_block(g.blocks@, block.index) == Some(c));
            let ki = choose|ki: int|
                0 <= ki < block.instructions@.len() && block.instructions@[ki] == *instruction;
            assert(block.wf());
            assert(crate::il::unique_instruction_indices(c.instructions@)) by {
                assert forall|j: int, k: int|
                    0 <= j < k < c.instructions@.len() implies c.instructions@[j].index
                    != c.instructions@[k].index by {
                    assert(block.instructions@[j].index == c.instructions@[j].index);
                    assert(block.instructions@[k].index == c.instructions@[k].index);
                }
            }
            crate::il::lemma_find_instruction_unique(c.instructions@, c.instructions@[ki]);
            assert(find_instruction(c.instructions@, instruction.index) is Some);
        },
        RefFunctionLocation::Edge(edge) => {
            crate::il::lemma_find_edge_unique(g.edges@, *edge);
        },
        RefFunctionLocation::EmptyBlock(block) => {
            let kb = choose|kb: int| 0 <= kb < f.blocks@.len() && f.blocks@[kb] == *block;
            let c = g.blocks@[kb];
            assert(block_same_shape(f.blocks@[kb], c));
            lemma_shape_preserves_block_uniqueness(f, g);
            crate::il::lemma_find_block_unique(g.blocks@, c);
            assert(find_block(g.blocks@, block.index) == Some(c));
        },
    }
    assert forall|m: RefProgramLocation<'m>|
        l.lowered().applies_as(q, m) implies #[trigger] m.lowered() == l.lowered() by {
        lemma_applies_as_lowered(l.lowered(), q, m);
    }
}

} // verus!

