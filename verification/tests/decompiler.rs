use idalib_ts::database::{decompile_all_blocks, decompile_result, require_decompiler, DecompileAttempt, DecompileOptions};
use idalib_ts::error::Error;
use idalib_ts::types::decompiler::{
    collect_blocks, expands_block, operation_name, snapshot_cfunc, snapshot_insn, CInsnNode,
    DecompiledFunction, BADADDR, CIT_BLOCK, MAX_BLOCK_DEPTH,
};

fn leaf(op: u32, ea: u64) -> CInsnNode {
    CInsnNode { op, ea, block: None }
}

fn block(ea: u64, children: Vec<CInsnNode>) -> CInsnNode {
    CInsnNode { op: CIT_BLOCK, ea, block: Some(children) }
}

#[test]
fn operation_names() {
    assert_eq!(operation_name(0), "expr(0)");
    assert_eq!(operation_name(69), "expr(69)");
    assert_eq!(operation_name(70), "empty");
    assert_eq!(operation_name(71), "block");
    assert_eq!(operation_name(72), "expression");
    assert_eq!(operation_name(73), "if");
    assert_eq!(operation_name(74), "for");
    assert_eq!(operation_name(75), "while");
    assert_eq!(operation_name(76), "do");
    assert_eq!(operation_name(77), "switch");
    assert_eq!(operation_name(78), "break");
    assert_eq!(operation_name(79), "continue");
    assert_eq!(operation_name(80), "return");
    assert_eq!(operation_name(81), "goto");
    assert_eq!(operation_name(82), "asm");
    assert_eq!(operation_name(83), "try");
    assert_eq!(operation_name(84), "throw");
    assert_eq!(operation_name(85), "unknown(85)");
    assert_eq!(operation_name(u32::MAX), "unknown(4294967295)");
}

#[test]
fn statement_snapshot() {
    let s = snapshot_insn(&leaf(80, 0x1234));
    assert_eq!(s.address, 0x1234);
    assert_eq!(s.operation, "return");
    assert_eq!(s.text, "return");
    assert!(s.operands.is_empty());
}

#[test]
fn flat_block_spans_its_addresses() {
    let body = block(0x100, vec![leaf(72, 0x20), leaf(80, 0x10), leaf(72, BADADDR), leaf(73, 0x30)]);
    let blocks = collect_blocks(&body);
    assert_eq!(blocks.len(), 1);
    assert_eq!(blocks[0].start_address, 0x10);
    assert_eq!(blocks[0].end_address, 0x30);
    assert_eq!(blocks[0].block_type, CIT_BLOCK);
    let ops: Vec<&str> = blocks[0].instructions.iter().map(|i| i.operation.as_str()).collect();
    assert_eq!(ops, vec!["expression", "return", "expression", "if"]);
    assert_eq!(blocks[0].instructions[2].address, -1);
}

#[test]
fn nested_blocks_come_before_their_parent() {
    let inner1 = block(0x50, vec![leaf(72, 0x50), leaf(72, 0x54)]);
    let inner2 = block(0x60, vec![leaf(80, 0x60)]);
    let body = block(0x40, vec![leaf(72, 0x40), inner1, inner2]);
    let blocks = collect_blocks(&body);
    assert_eq!(blocks.len(), 3);
    assert_eq!((blocks[0].start_address, blocks[0].end_address), (0x50, 0x54));
    assert_eq!((blocks[1].start_address, blocks[1].end_address), (0x60, 0x60));
    assert_eq!((blocks[2].start_address, blocks[2].end_address), (0x40, 0x60));
    assert_eq!(blocks[2].instructions.len(), 3);
    assert_eq!(blocks[2].instructions[1].operation, "block");
}

#[test]
fn block_without_addresses_is_left_out() {
    let inner = block(BADADDR, vec![leaf(72, BADADDR)]);
    let body = block(0x40, vec![inner, leaf(72, BADADDR)]);
    assert!(collect_blocks(&body).is_empty());
    assert!(collect_blocks(&block(0x40, vec![])).is_empty());
}

#[test]
fn non_block_body_and_unread_block_give_nothing() {
    assert!(collect_blocks(&leaf(72, 0x10)).is_empty());
    assert!(collect_blocks(&CInsnNode { op: CIT_BLOCK, ea: 0x10, block: None }).is_empty());
}

#[test]
fn deep_nesting_stops_at_the_limit() {
    let mut node = block(0x1000, vec![leaf(72, 0x1000)]);
    for level in 0..300u64 {
        node = block(level, vec![leaf(72, level), node]);
    }
    let blocks = collect_blocks(&node);
    assert_eq!(blocks.len(), MAX_BLOCK_DEPTH as usize);
    for b in &blocks {
        assert!((b.start_address as u64) <= (b.end_address as u64));
        assert!(!b.instructions.is_empty());
    }
}

#[test]
fn expansion_rule() {
    assert!(expands_block(CIT_BLOCK, 0));
    assert!(expands_block(CIT_BLOCK, MAX_BLOCK_DEPTH - 1));
    assert!(!expands_block(CIT_BLOCK, MAX_BLOCK_DEPTH));
    assert!(!expands_block(72, 0));
}

#[test]
fn function_snapshots() {
    let missing = snapshot_cfunc(None);
    assert_eq!(missing.entry_point, 0);
    assert!(missing.blocks.is_empty());
    assert_eq!(missing.pseudo_code, "");
    assert_eq!(missing.error.as_deref(), Some("Null cfunc_inner from cfuncptr_t"));
    let d = DecompiledFunction {
        entry_ea: 0x401000,
        pseudo_code: "int f() { return 0; }".to_string(),
        body: block(0x401000, vec![leaf(80, 0x401000)]),
    };
    let f = snapshot_cfunc(Some(d));
    assert_eq!(f.entry_point, 0x401000);
    assert_eq!(f.pseudo_code, "int f() { return 0; }");
    assert_eq!(f.blocks.len(), 1);
    assert!(f.error.is_none());
}

#[test]
fn decompile_decisions() {
    assert!(decompile_all_blocks(None));
    assert!(!decompile_all_blocks(Some(DecompileOptions { all_blocks: false })));
    assert!(decompile_all_blocks(Some(DecompileOptions { all_blocks: true })));
    assert!(require_decompiler(true).is_ok());
    let e = require_decompiler(false).unwrap_err();
    assert_eq!(e.reason(), "DecompilerError: Decompiler is not available");
    let e = decompile_result(DecompileAttempt::NoFunction).unwrap_err();
    assert_eq!(e.reason(), "DecompilerError: No function at address");
    let e = decompile_result(DecompileAttempt::Failed("bad microcode".to_string())).unwrap_err();
    assert!(matches!(e, Error::Decompile(_)));
    assert_eq!(e.reason(), "DecompilerError: bad microcode");
    let f = decompile_result(DecompileAttempt::Decompiled(None)).unwrap();
    assert!(f.error.is_some());
}
