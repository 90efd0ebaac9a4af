use il_location::il::{Block, Edge, Function, Instruction, Program};
use il_location::location::{
    Error, FunctionLocation, ProgramLocation, RefFunctionLocation, RefProgramLocation,
};

/// Two functions. Function 0 has a three-instruction block 0 (addresses
/// 0x100, 0x104, 0x108), an empty block 1, a one-instruction block 2 (no
/// address), and edges (0,1), (0,2), (1,2). Function 1 has a single block 0
/// whose single instruction shares address 0x104, and no edges.
fn sample_program() -> Program {
    let mut block0 = Block::new(0);
    block0.push_instruction(Instruction::new(1, Some(0x100)));
    block0.push_instruction(Instruction::new(2, Some(0x104)));
    block0.push_instruction(Instruction::new(3, Some(0x108)));
    let block1 = Block::new(1);
    let mut block2 = Block::new(2);
    block2.push_instruction(Instruction::new(4, None));
    let mut function0 = Function::new(0);
    function0.push_block(block0);
    function0.push_block(block1);
    function0.push_block(block2);
    function0.push_edge(Edge::new(0, 1));
    function0.push_edge(Edge::new(0, 2));
    function0.push_edge(Edge::new(1, 2));
    let mut function1 = Function::new(1);
    let mut other_block = Block::new(0);
    other_block.push_instruction(Instruction::new(0, Some(0x104)));
    function1.push_block(other_block);
    let mut program = Program::new();
    program.push_function(function0);
    program.push_function(function1);
    program
}

#[test]
fn accessors_instruction_location() {
    let program = sample_program();
    let function = program.function(0).unwrap();
    let block = function.block(0).unwrap();
    let instruction = block.instruction(2).unwrap();
    let location = RefProgramLocation::new(
        function,
        RefFunctionLocation::Instruction(block, instruction),
    );
    assert_eq!(location.function().index(), 0);
    assert_eq!(location.instruction().unwrap().index(), 2);
    assert_eq!(location.address(), Some(0x104));
    assert_eq!(location.function_location().block().unwrap().index(), 0);
    assert_eq!(location.function_location().instruction().unwrap().index(), 2);
    assert!(location.function_location().edge().is_none());
}

#[test]
fn accessors_edge_location() {
    let program = sample_program();
    let function = program.function(0).unwrap();
    let edge = function.edge(0, 2).unwrap();
    let location = RefProgramLocation::new(function, RefFunctionLocation::Edge(edge));
    assert!(location.instruction().is_none());
    assert_eq!(location.address(), None);
    assert!(location.function_location().block().is_none());
    assert_eq!(location.function_location().edge().unwrap().head(), 0);
    assert_eq!(location.function_location().edge().unwrap().tail(), 2);
}

#[test]
fn accessors_empty_block_location() {
    let program = sample_program();
    let function = program.function(0).unwrap();
    let block = function.block(1).unwrap();
    let location = RefProgramLocation::new(function, RefFunctionLocation::EmptyBlock(block));
    assert!(location.instruction().is_none());
    assert_eq!(location.address(), None);
    assert_eq!(location.function_location().block().unwrap().index(), 1);
}

#[test]
fn round_trip_instruction() {
    let program = sample_program();
    let function = program.function(0).unwrap();
    let block = function.block(0).unwrap();
    let instruction = block.instruction(2).unwrap();
    let location = RefProgramLocation::new(
        function,
        RefFunctionLocation::Instruction(block, instruction),
    );
    let owned = ProgramLocation::from(location);
    assert_eq!(
        owned,
        ProgramLocation {
            function_index: 0,
            function_location: FunctionLocation::Instruction(0, 2),
        }
    );
    let applied = owned.apply(&program);
    assert_eq!(applied, Some(location));
}

#[test]
fn round_trip_edge() {
    let program = sample_program();
    let function = program.function(0).unwrap();
    let edge = function.edge(1, 2).unwrap();
    let location = RefProgramLocation::new(function, RefFunctionLocation::Edge(edge));
    let owned = ProgramLocation::from(location);
    assert_eq!(
        owned,
        ProgramLocation { function_index: 0, function_location: FunctionLocation::Edge(1, 2) }
    );
    assert_eq!(owned.apply(&program), Some(location));
}

#[test]
fn round_trip_empty_block() {
    let program = sample_program();
    let function = program.function(0).unwrap();
    let block = function.block(1).unwrap();
    let location = RefProgramLocation::new(function, RefFunctionLocation::EmptyBlock(block));
    let owned = ProgramLocation::from(location);
    assert_eq!(
        owned,
        ProgramLocation { function_index: 0, function_location: FunctionLocation::EmptyBlock(1) }
    );
    assert_eq!(owned.apply(&program), Some(location));
}

#[test]
fn lower_function_location() {
    let program = sample_program();
    let function = program.function(0).unwrap();
    let block = function.block(2).unwrap();
    let instruction = block.instruction(4).unwrap();
    let lowered = FunctionLocation::from(RefFunctionLocation::Instruction(block, instruction));
    assert_eq!(lowered, FunctionLocation::Instruction(2, 4));
}

#[test]
fn apply_function_location() {
    let program = sample_program();
    let function = program.function(0).unwrap();
    let applied = FunctionLocation::Instruction(2, 4).apply(function).unwrap();
    match applied {
        RefFunctionLocation::Instruction(block, instruction) => {
            assert_eq!(block.index(), 2);
            assert_eq!(instruction.index(), 4);
        }
        _ => panic!("expected an instruction location"),
    }
}

#[test]
fn apply_is_a_soft_miss() {
    let program = sample_program();
    // No function with index 7.
    let missing_function = ProgramLocation {
        function_index: 7,
        function_location: FunctionLocation::EmptyBlock(0),
    };
    assert_eq!(missing_function.apply(&program), None);
    // Function 0 has no block with index 9.
    let missing_block = ProgramLocation {
        function_index: 0,
        function_location: FunctionLocation::Instruction(9, 1),
    };
    assert_eq!(missing_block.apply(&program), None);
    // Block 0 of function 0 has no instruction with index 9.
    let missing_instruction = ProgramLocation {
        function_index: 0,
        function_location: FunctionLocation::Instruction(0, 9),
    };
    assert_eq!(missing_instruction.apply(&program), None);
    // Function 0 has no edge (2, 0).
    let missing_edge = ProgramLocation {
        function_index: 0,
        function_location: FunctionLocation::Edge(2, 0),
    };
    assert_eq!(missing_edge.apply(&program), None);
}

#[test]
fn advance_within_block() {
    let program = sample_program();
    let function = program.function(0).unwrap();
    let block = function.block(0).unwrap();
    let instruction = block.instruction(1).unwrap();
    let location = RefProgramLocation::new(
        function,
        RefFunctionLocation::Instruction(block, instruction),
    );
    let successors = location.advance_forward().unwrap();
    let next = block.instruction(2).unwrap();
    assert_eq!(
        successors,
        vec![RefProgramLocation::new(function, RefFunctionLocation::Instruction(block, next))]
    );
}

#[test]
fn advance_end_of_block_fans_out() {
    let program = sample_program();
    let function = program.function(0).unwrap();
    let block = function.block(0).unwrap();
    let instruction = block.instruction(3).unwrap();
    let location = RefProgramLocation::new(
        function,
        RefFunctionLocation::Instruction(block, instruction),
    );
    let successors = location.advance_forward().unwrap();
    let edge01 = function.edge(0, 1).unwrap();
    let edge02 = function.edge(0, 2).unwrap();
    assert_eq!(
        successors,
        vec![
            RefProgramLocation::new(function, RefFunctionLocation::Edge(edge01)),
            RefProgramLocation::new(function, RefFunctionLocation::Edge(edge02)),
        ]
    );
}

#[test]
fn advance_edge_lands_on_first_instruction() {
    let program = sample_program();
    let function = program.function(0).unwrap();
    let edge = function.edge(0, 2).unwrap();
    let location = RefProgramLocation::new(function, RefFunctionLocation::Edge(edge));
    let successors = location.advance_forward().unwrap();
    let block = function.block(2).unwrap();
    let first = block.instruction(4).unwrap();
    assert_eq!(
        successors,
        vec![RefProgramLocation::new(function, RefFunctionLocation::Instruction(block, first))]
    );
}

#[test]
fn advance_edge_lands_on_empty_block() {
    let program = sample_program();
    let function = program.function(0).unwrap();
    let edge = function.edge(0, 1).unwrap();
    let location = RefProgramLocation::new(function, RefFunctionLocation::Edge(edge));
    let successors = location.advance_forward().unwrap();
    let block = function.block(1).unwrap();
    assert_eq!(
        successors,
        vec![RefProgramLocation::new(function, RefFunctionLocation::EmptyBlock(block))]
    );
}

#[test]
fn advance_empty_block_fans_out() {
    let program = sample_program();
    let function = program.function(0).unwrap();
    let block = function.block(1).unwrap();
    let location = RefProgramLocation::new(function, RefFunctionLocation::EmptyBlock(block));
    let successors = location.advance_forward().unwrap();
    let edge12 = function.edge(1, 2).unwrap();
    assert_eq!(
        successors,
        vec![RefProgramLocation::new(function, RefFunctionLocation::Edge(edge12))]
    );
}

#[test]
fn advance_terminal_block_is_empty() {
    let program = sample_program();
    let function = program.function(1).unwrap();
    let block = function.block(0).unwrap();
    let instruction = block.instruction(0).unwrap();
    let location = RefProgramLocation::new(
        function,
        RefFunctionLocation::Instruction(block, instruction),
    );
    let successors = location.advance_forward().unwrap();
    assert_eq!(successors, vec![]);
}

#[test]
fn advance_foreign_instruction_fails() {
    let program = sample_program();
    let function = program.function(0).unwrap();
    let block = function.block(0).unwrap();
    // An instruction whose index does not occur in block 0: the graph around
    // the location is inconsistent, and advancement reports it.
    let foreign = Instruction::new(9, None);
    let location = RefProgramLocation::new(
        function,
        RefFunctionLocation::Instruction(block, &foreign),
    );
    assert_eq!(
        location.advance_forward(),
        Err(Error::InstructionNotFound { function: 0, block: 0, instruction: 9 })
    );
}

#[test]
fn advance_foreign_block_fails() {
    let program = sample_program();
    let function = program.function(0).unwrap();
    // A block whose index does not occur in function 0.
    let foreign = Block::new(9);
    let location = RefProgramLocation::new(function, RefFunctionLocation::EmptyBlock(&foreign));
    assert_eq!(
        location.advance_forward(),
        Err(Error::BlockNotFound { function: 0, block: 9 })
    );
}

#[test]
fn migrate_to_structural_clone() {
    let program = sample_program();
    let mut clone = sample_program();
    // Same indices everywhere, different instruction content.
    clone.functions[0].blocks[0].instructions[1].address = Some(0x999);
    let function = program.function(0).unwrap();
    let block = function.block(0).unwrap();
    let instruction = block.instruction(2).unwrap();
    let location = RefProgramLocation::new(
        function,
        RefFunctionLocation::Instruction(block, instruction),
    );
    let migrated = location.migrate(&clone).unwrap();
    assert_eq!(migrated.function().index(), 0);
    assert_eq!(migrated.instruction().unwrap().index(), 2);
    assert_eq!(migrated.address(), Some(0x999));
    assert_eq!(ProgramLocation::from(migrated), ProgramLocation::from(location));
}

#[test]
fn migrate_edge_to_structural_clone() {
    let program = sample_program();
    let clone = sample_program();
    let function = program.function(0).unwrap();
    let edge = function.edge(1, 2).unwrap();
    let location = RefProgramLocation::new(function, RefFunctionLocation::Edge(edge));
    let migrated = location.migrate(&clone).unwrap();
    assert_eq!(
        ProgramLocation::from(migrated),
        ProgramLocation { function_index: 0, function_location: FunctionLocation::Edge(1, 2) }
    );
}

#[test]
fn migrate_missing_function_names_index() {
    let program = sample_program();
    let function = program.function(1).unwrap();
    let block = function.block(0).unwrap();
    let location = RefProgramLocation::new(function, RefFunctionLocation::EmptyBlock(block));
    // The target program has no function with index 1.
    let mut target = Program::new();
    target.push_function(Function::new(0));
    assert_eq!(
        location.migrate(&target),
        Err(Error::FunctionNotFound { function: 1 })
    );
}

#[test]
fn migrate_missing_block_names_index() {
    let program = sample_program();
    let function = program.function(0).unwrap();
    let block = function.block(2).unwrap();
    let instruction = block.instruction(4).unwrap();
    let location = RefProgramLocation::new(
        function,
        RefFunctionLocation::Instruction(block, instruction),
    );
    // The target's function 0 has no block with index 2.
    let mut target = Program::new();
    let mut target_function = Function::new(0);
    target_function.push_block(Block::new(0));
    target.push_function(target_function);
    assert_eq!(
        location.migrate(&target),
        Err(Error::BlockNotFound { function: 0, block: 2 })
    );
}

#[test]
fn migrate_missing_instruction_names_index() {
    let program = sample_program();
    let function = program.function(0).unwrap();
    let block = function.block(0).unwrap();
    let instruction = block.instruction(3).unwrap();
    let location = RefProgramLocation::new(
        function,
        RefFunctionLocation::Instruction(block, instruction),
    );
    // The target's block 0 holds only instruction 1.
    let mut target = Program::new();
    let mut target_function = Function::new(0);
    let mut target_block = Block::new(0);
    target_block.push_instruction(Instruction::new(1, None));
    target_function.push_block(target_block);
    target.push_function(target_function);
    assert_eq!(
        location.migrate(&target),
        Err(Error::InstructionNotFound { function: 0, block: 0, instruction: 3 })
    );
}

#[test]
fn migrate_missing_edge_names_pair() {
    let program = sample_program();
    let function = program.function(0).unwrap();
    let edge = function.edge(0, 1).unwrap();
    let location = RefProgramLocation::new(function, RefFunctionLocation::Edge(edge));
    // The target's function 0 has no edges at all.
    let mut target = Program::new();
    target.push_function(Function::new(0));
    assert_eq!(
        location.migrate(&target),
        Err(Error::EdgeNotFound { function: 0, head: 0, tail: 1 })
    );
}

#[test]
fn from_address_finds_exact_instruction() {
    let program = sample_program();
    let location = RefProgramLocation::from_address(&program, 0x104).unwrap();
    assert_eq!(location.function().index(), 0);
    assert_eq!(location.instruction().unwrap().index(), 2);
    assert_eq!(location.address(), Some(0x104));
}

#[test]
fn from_address_absent_address() {
    let program = sample_program();
    assert!(RefProgramLocation::from_address(&program, 0x200).is_none());
}

#[test]
fn from_address_returns_first_match() {
    // Both function 0 (instruction 2) and function 1 (instruction 0) hold an
    // instruction at address 0x104; the first function in declared order
    // wins.
    let program = sample_program();
    let location = RefProgramLocation::from_address(&program, 0x104).unwrap();
    assert_eq!(location.function().index(), 0);
    assert_eq!(location.instruction().unwrap().index(), 2);
}

#[test]
fn first_match_within_one_block() {
    // Two instructions of one block share an address; the earlier one wins.
    let mut block = Block::new(0);
    block.push_instruction(Instruction::new(5, Some(0x40)));
    block.push_instruction(Instruction::new(6, Some(0x40)));
    let mut function = Function::new(3);
    function.push_block(block);
    let mut program = Program::new();
    program.push_function(function);
    let location = RefProgramLocation::from_address(&program, 0x40).unwrap();
    assert_eq!(location.function().index(), 3);
    assert_eq!(location.instruction().unwrap().index(), 5);
}

#[test]
fn graph_model_accessors() {
    let program = sample_program();
    assert_eq!(program.functions().len(), 2);
    let function = program.function(0).unwrap();
    assert_eq!(function.index(), 0);
    assert_eq!(function.blocks().len(), 3);
    assert_eq!(function.edges().len(), 3);
    assert!(function.has_block(1));
    assert!(!function.has_block(9));
    assert!(program.function(9).is_none());
    assert!(function.block(9).is_none());
    assert!(function.edge(9, 9).is_none());
    let block = function.block(0).unwrap();
    assert_eq!(block.index(), 0);
    assert_eq!(block.instructions().len(), 3);
    assert!(block.instruction(9).is_none());
    let instruction = block.instruction(1).unwrap();
    assert_eq!(instruction.index(), 1);
    assert_eq!(instruction.address(), Some(0x100));
    let edge = function.edge(0, 1).unwrap();
    assert_eq!(edge.head(), 0);
    assert_eq!(edge.tail(), 1);
}

#[test]
fn lookup_returns_first_match() {
    // Two blocks that share an index: lookups scan the declared order and
    // return the first match.
    let mut function = Function::new(0);
    let mut first = Block::new(5);
    first.push_instruction(Instruction::new(1, None));
    function.push_block(first);
    function.push_block(Block::new(5));
    let found = function.block(5).unwrap();
    assert_eq!(found.instructions().len(), 1);
}
