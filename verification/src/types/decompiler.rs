//! Snapshots of decompiled functions: the nested statement blocks of the decompiler's
//! syntax tree, flattened into a list.
use vstd::prelude::*;

use crate::address::signed_address;
use crate::text::{concat3, decimal_string, decimal_text};
use vstd::string::StringExecFns;

verus! {

/// The decompiler's statement code for a block of statements.
pub const CIT_BLOCK: u32 = 71;

/// Nesting depth below which blocks are no longer visited.
pub const MAX_BLOCK_DEPTH: u32 = 256;

/// The address that stands for "no address".
pub const BADADDR: u64 = 0xffff_ffff_ffff_ffffu64;

/// One statement of the decompiler's syntax tree, as read from the library. `block` holds
/// the statements of a block statement when they were read (see [`expands_block`]).
#[derive(Debug)]
pub struct CInsnNode {
    pub op: u32,
    pub ea: u64,
    pub block: Option<Vec<CInsnNode>>,
}

/// What the library yields for a decompiled function.
#[derive(Debug)]
pub struct DecompiledFunction {
    pub entry_ea: u64,
    pub pseudo_code: String,
    pub body: CInsnNode,
}

/// A statement as the SDK hands it out.
#[derive(Debug)]
pub struct JsCInsn {
    pub address: i64,
    pub operation: String,
    pub operands: Vec<String>,
    pub text: String,
}

/// A block of statements as the SDK hands it out.
#[derive(Debug)]
pub struct JsCBlock {
    pub start_address: i64,
    pub end_address: i64,
    pub block_type: u32,
    pub instructions: Vec<JsCInsn>,
}

/// A decompiled function as the SDK hands it out.
#[derive(Debug)]
pub struct JsCFunction {
    pub entry_point: i64,
    pub blocks: Vec<JsCBlock>,
    pub pseudo_code: String,
    pub error: Option<String>,
}

/// The mathematical content of a [`JsCInsn`].
pub struct CInsnView {
    pub address: i64,
    pub operation: Seq<char>,
    pub operands: Seq<Seq<char>>,
    pub text: Seq<char>,
}

/// The mathematical content of a [`JsCBlock`].
pub struct CBlockView {
    pub start_address: i64,
    pub end_address: i64,
    pub block_type: u32,
    pub instructions: Seq<CInsnView>,
}

/// The mathematical content of a [`JsCFunction`].
pub struct CFunctionView {
    pub entry_point: i64,
    pub blocks: Seq<CBlockView>,
    pub pseudo_code: Seq<char>,
    pub error: Option<Seq<char>>,
}

impl View for JsCInsn {
    type V = CInsnView;

    open spec fn view(&self) -> CInsnView {
        CInsnView {
            address: self.address,
            operation: self.operation@,
            operands: self.operands@.map_values(|s: String| s@),
            text: self.text@,
        }
    }
}

impl View for JsCBlock {
    type V = CBlockView;

    open spec fn view(&self) -> CBlockView {
        CBlockView {
            start_address: self.start_address,
            end_address: self.end_address,
            block_type: self.block_type,
            instructions: self.instructions@.map_values(|i: JsCInsn| i@),
        }
    }
}

impl View for JsCFunction {
    type V = CFunctionView;

    open spec fn view(&self) -> CFunctionView {
        CFunctionView {
            entry_point: self.entry_point,
            blocks: blocks_view(self.blocks@),
            pseudo_code: self.pseudo_code@,
            error: match self.error {
                Some(e) => Some(e@),
                None => None,
            },
        }
    }
}

pub open spec fn blocks_view(blocks: Seq<JsCBlock>) -> Seq<CBlockView> {
    blocks.map_values(|b: JsCBlock| b@)
}

/// The name of a statement code: expressions are `expr(n)`, statements have their keyword,
/// and codes beyond the known ones are `unknown(n)`.
pub open spec fn operation_text(op: u32) -> Seq<char> {
    if op <= 69 {
        "expr("@ + decimal_text(op as nat) + ")"@
    } else if op == 70 {
        "empty"@
    } else if op == 71 {
        "block"@
    } else if op == 72 {
        "expression"@
    } else if op == 73 {
        "if"@
    } else if op == 74 {
        "for"@
    } else if op == 75 {
        "while"@
    } else if op == 76 {
        "do"@
    } else if op == 77 {
        "switch"@
    } else if op == 78 {
        "break"@
    } else if op == 79 {
        "continue"@
    } else if op == 80 {
        "return"@
    } else if op == 81 {
        "goto"@
    } else if op == 82 {
        "asm"@
    } else if op == 83 {
        "try"@
    } else if op == 84 {
        "throw"@
    } else {
        "unknown("@ + decimal_text(op as nat) + ")"@
    }
}

/// The statement `node` as the SDK hands it out.
pub open spec fn insn_view(node: CInsnNode) -> CInsnView {
    CInsnView {
        address: signed_address(node.ea),
        operation: operation_text(node.op),
        operands: Seq::empty(),
        text: operation_text(node.op),
    }
}

/// The smallest address of the statements, `BADADDR` excluded; `u64::MAX` when there is none.
pub open spec fn min_ea(nodes: Seq<CInsnNode>) -> u64
    decreases nodes.len(),
{
    if nodes.len() == 0 {
        u64::MAX
    } else {
        let m = min_ea(nodes.drop_last());
        let e = nodes.last().ea;
        if e != BADADDR && e < m {
            e
        } else {
            m
        }
    }
}

/// The largest address of the statements, `BADADDR` excluded; zero when there is none.
pub open spec fn max_ea(nodes: Seq<CInsnNode>) -> u64
    decreases nodes.len(),
{
    if nodes.len() == 0 {
        0
    } else {
        let m = max_ea(nodes.drop_last());
        let e = nodes.last().ea;
        if e != BADADDR && e > m {
            e
        } else {
            m
        }
    }
}

pub open spec fn depth_measure(depth: nat) -> nat {
    if depth < MAX_BLOCK_DEPTH {
        (MAX_BLOCK_DEPTH - depth) as nat
    } else {
        0
    }
}

/// The blocks found at and below the statement `node`, which sits at nesting level `depth`:
/// the blocks nested in its statements in their order, then the statement's own block,
/// which spans the addresses of its statements and is left out when none has an address.
/// Statements at level `MAX_BLOCK_DEPTH` or deeper are not visited.
pub open spec fn node_blocks(node: CInsnNode, depth: nat) -> Seq<CBlockView>
    decreases depth_measure(depth), 1nat, 0nat,
{
    if depth >= MAX_BLOCK_DEPTH || node.op != CIT_BLOCK {
        Seq::empty()
    } else {
        match node.block {
            None => Seq::empty(),
            Some(children) => {
                let nested = children_blocks(children@, depth);
                let lo = min_ea(children@);
                if lo != u64::MAX {
                    nested.push(
                        CBlockView {
                            start_address: signed_address(lo),
                            end_address: signed_address(max_ea(children@)),
                            block_type: CIT_BLOCK,
                            instructions: children@.map_values(|c: CInsnNode| insn_view(c)),
                        },
                    )
                } else {
                    nested
                }
            },
        }
    }
}

/// The blocks nested in the statements `children` of a block at level `depth`, in order.
pub open spec fn children_blocks(children: Seq<CInsnNode>, depth: nat) -> Seq<CBlockView>
    decreases depth_measure(depth), 0nat, children.len(),
{
    if children.len() == 0 {
        Seq::empty()
    } else {
        let last = children.last();
        children_blocks(children.drop_last(), depth) + if last.op == CIT_BLOCK && depth
            < MAX_BLOCK_DEPTH {
            node_blocks(last, depth + 1)
        } else {
            Seq::empty()
        }
    }
}

/// A listed block spans its statements' addresses in order, carries the block code, and
/// holds at least one statement.
pub open spec fn block_well_formed(b: CBlockView) -> bool {
    &&& (b.start_address as u64) <= (b.end_address as u64)
    &&& b.block_type == CIT_BLOCK
    &&& b.instructions.len() > 0
    &&& block_spans_statements(b)
}

/// The block's start and end are the smallest and the largest address among its statements
/// that have one: every such address lies between them, and both are addresses of statements.
pub open spec fn block_spans_statements(b: CBlockView) -> bool {
    &&& forall|i: int|
        0 <= i < b.instructions.len() && (b.instructions[i].address as u64) != BADADDR ==> (
        b.start_address as u64) <= (#[trigger] b.instructions[i].address as u64) && (
        b.instructions[i].address as u64) <= (b.end_address as u64)
    &&& exists|i: int|
        0 <= i < b.instructions.len() && #[trigger] b.instructions[i].address == b.start_address
    &&& exists|i: int|
        0 <= i < b.instructions.len() && #[trigger] b.instructions[i].address == b.end_address
}

/// The smallest and largest statement addresses bound every address that is not `BADADDR`,
/// and, when some statement has an address, both are addresses of statements.
proof fn lemma_min_max_bounds(nodes: Seq<CInsnNode>)
    ensures
        forall|i: int|
            0 <= i < nodes.len() && #[trigger] nodes[i].ea != BADADDR ==> min_ea(nodes)
                <= nodes[i].ea && nodes[i].ea <= max_ea(nodes),
        min_ea(nodes) != u64::MAX ==> exists|i: int|
            0 <= i < nodes.len() && nodes[i].ea != BADADDR && #[trigger] nodes[i].ea == min_ea(
                nodes,
            ),
        min_ea(nodes) != u64::MAX ==> exists|i: int|
            0 <= i < nodes.len() && nodes[i].ea != BADADDR && #[trigger] nodes[i].ea == max_ea(
                nodes,
            ),
        min_ea(nodes) == u64::MAX ==> forall|i: int|
            0 <= i < nodes.len() ==> #[trigger] nodes[i].ea == BADADDR,
        min_ea(nodes) == u64::MAX ==> max_ea(nodes) == 0,
    decreases nodes.len(),
{
    if nodes.len() > 0 {
        let prefix = nodes.drop_last();
        let last = nodes.len() - 1;
        lemma_min_max_bounds(prefix);
        assert forall|i: int| 0 <= i < last implies #[trigger] nodes[i] == prefix[i] by {}
        if min_ea(prefix) != u64::MAX {
            let i = choose|i: int|
                0 <= i < prefix.len() && prefix[i].ea != BADADDR && #[trigger] prefix[i].ea
                    == min_ea(prefix);
            let j = choose|j: int|
                0 <= j < prefix.len() && prefix[j].ea != BADADDR && #[trigger] prefix[j].ea
                    == max_ea(prefix);
            assert(nodes[i] == prefix[i]);
            assert(nodes[j] == prefix[j]);
            assert(nodes[last].ea == nodes.last().ea);
            if nodes.last().ea != BADADDR && nodes.last().ea > max_ea(prefix) {
                assert(nodes[last].ea == max_ea(nodes));
            } else {
                assert(nodes[j].ea == max_ea(nodes));
            }
            if nodes.last().ea != BADADDR && nodes.last().ea < min_ea(prefix) {
                assert(nodes[last].ea == min_ea(nodes));
            } else {
                assert(nodes[i].ea == min_ea(nodes));
            }
        } else {
            assert(nodes[last].ea == nodes.last().ea);
            if nodes.last().ea != BADADDR {
                assert(nodes[last].ea == min_ea(nodes));
                assert(nodes[last].ea == max_ea(nodes));
            }
            assert forall|k: int| 0 <= k < last implies #[trigger] nodes[k].ea == BADADDR by {
                assert(nodes[k] == prefix[k]);
            }
        }
    }
}

/// When some statement has an address, the smallest address is no greater than the largest,
/// and there is at least one statement.
proof fn lemma_min_le_max(nodes: Seq<CInsnNode>)
    ensures
        min_ea(nodes) != u64::MAX ==> min_ea(nodes) <= max_ea(nodes) && nodes.len() > 0,
    decreases nodes.len(),
{
    if nodes.len() > 0 {
        lemma_min_le_max(nodes.drop_last());
    }
}

/// Every block listed for a statement is well formed: it carries the block code, holds at
/// least one statement, and spans its statements' addresses: its start and end are the
/// smallest and the largest address among its statements that have one.
pub proof fn lemma_node_blocks_well_formed(node: CInsnNode, depth: nat)
    ensures
        forall|i: int|
            0 <= i < node_blocks(node, depth).len() ==> block_well_formed(
                #[trigger] node_blocks(node, depth)[i],
            ),
    decreases depth_measure(depth), 1nat, 0nat,
{
    if depth >= MAX_BLOCK_DEPTH || node.op != CIT_BLOCK {
    } else {
        match node.block {
            None => {},
            Some(children) => {
                lemma_children_blocks_well_formed(children@, depth);
                lemma_min_le_max(children@);
                let lo = min_ea(children@);
                crate::address::lemma_signed_address_roundtrip(lo);
                crate::address::lemma_signed_address_roundtrip(max_ea(children@));
                lemma_min_max_bounds(children@);
                let nested = children_blocks(children@, depth);
                let all = node_blocks(node, depth);
                assert forall|i: int| 0 <= i < all.len() implies block_well_formed(
                    #[trigger] all[i],
                ) by {
                    if i < nested.len() {
                        assert(all[i] == nested[i]);
                    } else {
                        assert(lo != u64::MAX);
                        let insns = all[i].instructions;
                        assert(insns.len() == children@.len());
                        assert forall|k: int| 0 <= k < children@.len() implies (
                        #[trigger] insns[k].address as u64) == children@[k].ea by {
                            assert(insns[k] == insn_view(children@[k]));
                            crate::address::lemma_signed_address_roundtrip(children@[k].ea);
                        }
                        let a = choose|k: int|
                            0 <= k < children@.len() && children@[k].ea != BADADDR
                                && #[trigger] children@[k].ea == min_ea(children@);
                        let b = choose|k: int|
                            0 <= k < children@.len() && children@[k].ea != BADADDR
                                && #[trigger] children@[k].ea == max_ea(children@);
                        assert(insns[a] == insn_view(children@[a]));
                        assert(insns[b] == insn_view(children@[b]));
                        assert(insns[a].address == all[i].start_address);
                        assert(insns[b].address == all[i].end_address);
                        assert forall|k: int|
                            0 <= k < insns.len() && (insns[k].address as u64) != BADADDR implies (
                            all[i].start_address as u64) <= (#[trigger] insns[k].address as u64)
                            && (insns[k].address as u64) <= (all[i].end_address as u64) by {
                            assert(children@[k].ea != BADADDR);
                        }
                    }
                }
            },
        }
    }
}

/// Every block listed for the statements of a block is well formed.
pub proof fn lemma_children_blocks_well_formed(children: Seq<CInsnNode>, depth: nat)
    ensures
        forall|i: int|
            0 <= i < children_blocks(children, depth).len() ==> block_well_formed(
                #[trigger] children_blocks(children, depth)[i],
            ),
    decreases depth_measure(depth), 0nat, children.len(),
{
    if children.len() > 0 {
        let last = children.last();
        lemma_children_blocks_well_formed(children.drop_last(), depth);
        if last.op == CIT_BLOCK && depth < MAX_BLOCK_DEPTH {
            lemma_node_blocks_well_formed(last, depth + 1);
        }
        let a = children_blocks(children.drop_last(), depth);
        let b = if last.op == CIT_BLOCK && depth < MAX_BLOCK_DEPTH {
            node_blocks(last, depth + 1)
        } else {
            Seq::<CBlockView>::empty()
        };
        assert forall|i: int| 0 <= i < (a + b).len() implies block_well_formed(#[trigger] (a + b)[i]) by {
            if i < a.len() {
                assert((a + b)[i] == a[i]);
            } else {
                assert((a + b)[i] == b[i - a.len()]);
            }
        }
    }
}

/// Which statement keyword a name stands for, told apart by a few of its characters.
spec fn statement_of_keyword(t: Seq<char>) -> u32 {
    if t[0] == 'e' {
        if t.len() == 5 {
            70
        } else {
            72
        }
    } else if t[0] == 'b' {
        if t[1] == 'l' {
            71
        } else {
            78
        }
    } else if t[0] == 'i' {
        73
    } else if t[0] == 'f' {
        74
    } else if t[0] == 'w' {
        75
    } else if t[0] == 'd' {
        76
    } else if t[0] == 's' {
        77
    } else if t[0] == 'c' {
        79
    } else if t[0] == 'r' {
        80
    } else if t[0] == 'g' {
        81
    } else if t[0] == 'a' {
        82
    } else if t[1] == 'r' {
        83
    } else {
        84
    }
}

/// A visited block statement lists its own block last, after the blocks nested in it, when
/// one of its statements has an address: that block holds all its statements in their order,
/// each with its own address and its code's name. When none has an address, it lists only
/// the nested blocks.
pub proof fn lemma_own_block_lists_statements(node: CInsnNode, depth: nat)
    requires
        depth < MAX_BLOCK_DEPTH,
        node.op == CIT_BLOCK,
        node.block is Some,
    ensures
        ({
            let cs = node.block->Some_0@;
            let bs = node_blocks(node, depth);
            &&& (exists|i: int| 0 <= i < cs.len() && (#[trigger] cs[i]).ea != BADADDR) ==> {
                &&& bs.len() == children_blocks(cs, depth).len() + 1
                &&& bs.subrange(0, bs.len() - 1) == children_blocks(cs, depth)
                &&& bs.last().instructions.len() == cs.len()
                &&& forall|k: int|
                    0 <= k < cs.len() ==> (#[trigger] bs.last().instructions[k]).address as u64
                        == cs[k].ea && bs.last().instructions[k].operation == operation_text(
                        cs[k].op,
                    )
            }
            &&& (forall|i: int| 0 <= i < cs.len() ==> (#[trigger] cs[i]).ea == BADADDR) ==> bs
                == children_blocks(cs, depth)
        }),
{
    let cs = node.block->Some_0@;
    let bs = node_blocks(node, depth);
    lemma_min_max_bounds(cs);
    if exists|i: int| 0 <= i < cs.len() && (#[trigger] cs[i]).ea != BADADDR {
        let i = choose|i: int| 0 <= i < cs.len() && (#[trigger] cs[i]).ea != BADADDR;
        assert(min_ea(cs) != u64::MAX);
        assert(bs.subrange(0, bs.len() - 1) =~= children_blocks(cs, depth));
        assert forall|k: int| 0 <= k < cs.len() implies (#[trigger] bs.last().instructions[k]).address
            as u64 == cs[k].ea && bs.last().instructions[k].operation == operation_text(cs[k].op) by {
            assert(bs.last().instructions[k] == insn_view(cs[k]));
            crate::address::lemma_signed_address_roundtrip(cs[k].ea);
        }
    }
    if forall|i: int| 0 <= i < cs.len() ==> (#[trigger] cs[i]).ea == BADADDR {
        if min_ea(cs) != u64::MAX {
            let j = choose|j: int|
                0 <= j < cs.len() && cs[j].ea != BADADDR && #[trigger] cs[j].ea == min_ea(cs);
            assert(cs[j].ea == BADADDR);
        }
    }
}

/// Statements nested 256 levels deep or deeper are not visited, and neither is a statement
/// that is not a block statement or whose statements were not read.
pub proof fn lemma_unvisited_statements(node: CInsnNode, depth: nat)
    ensures
        depth >= 256 ==> node_blocks(node, depth).len() == 0,
        node.op != 71 ==> node_blocks(node, depth).len() == 0,
        node.block is None ==> node_blocks(node, depth).len() == 0,
        depth < 256 && node.op == 71 ==> (node.block matches Some(cs) ==> (cs@.len() > 0
            && cs@[0].ea != BADADDR ==> node_blocks(node, depth).len() > 0)),
{
    if depth < 256 && node.op == 71 {
        if let Some(cs) = node.block {
            if cs@.len() > 0 && cs@[0].ea != BADADDR {
                lemma_own_block_lists_statements(node, depth);
            }
        }
    }
}

/// Expression codes (up to 69) are named `expr(n)` and codes past the known statements
/// (85 on) `unknown(n)`, with `n` in decimal; each statement code from 70 to 84 has its own
/// keyword, and distinct statement codes have distinct keywords.
pub proof fn lemma_operation_names()
    ensures
        operation_text(70) == "empty"@,
        operation_text(71) == "block"@,
        operation_text(72) == "expression"@,
        operation_text(73) == "if"@,
        operation_text(74) == "for"@,
        operation_text(75) == "while"@,
        operation_text(76) == "do"@,
        operation_text(77) == "switch"@,
        operation_text(78) == "break"@,
        operation_text(79) == "continue"@,
        operation_text(80) == "return"@,
        operation_text(81) == "goto"@,
        operation_text(82) == "asm"@,
        operation_text(83) == "try"@,
        operation_text(84) == "throw"@,
        forall|op: u32|
            op <= 69 ==> #[trigger] operation_text(op) == "expr("@ + decimal_text(op as nat)
                + ")"@,
        forall|op: u32|
            op >= 85 ==> #[trigger] operation_text(op) == "unknown("@ + decimal_text(op as nat)
                + ")"@,
        forall|a: u32, b: u32|
            70 <= a <= 84 && 70 <= b <= 84 && a != b ==> #[trigger] operation_text(a)
                != #[trigger] operation_text(b),
{
    reveal_strlit("empty");
    reveal_strlit("block");
    reveal_strlit("expression");
    reveal_strlit("if");
    reveal_strlit("for");
    reveal_strlit("while");
    reveal_strlit("do");
    reveal_strlit("switch");
    reveal_strlit("break");
    reveal_strlit("continue");
    reveal_strlit("return");
    reveal_strlit("goto");
    reveal_strlit("asm");
    reveal_strlit("try");
    reveal_strlit("throw");
    assert forall|a: u32| 70 <= a <= 84 implies #[trigger] statement_of_keyword(operation_text(a))
        == a by {
        if a == 70 {
            assert(statement_of_keyword(operation_text(a)) == a);
        }
        if a == 71 {
            assert(statement_of_keyword(operation_text(a)) == a);
        }
        if a == 72 {
            assert(statement_of_keyword(operation_text(a)) == a);
        }
        if a == 73 {
            assert(statement_of_keyword(operation_text(a)) == a);
        }
        if a == 74 {
            assert(statement_of_keyword(operation_text(a)) == a);
        }
        if a == 75 {
            assert(statement_of_keyword(operation_text(a)) == a);
        }
        if a == 76 {
            assert(statement_of_keyword(operation_text(a)) == a);
        }
        if a == 77 {
            assert(statement_of_keyword(operation_text(a)) == a);
        }
        if a == 78 {
            assert(statement_of_keyword(operation_text(a)) == a);
        }
        if a == 79 {
            assert(statement_of_keyword(operation_text(a)) == a);
        }
        if a == 80 {
            assert(statement_of_keyword(operation_text(a)) == a);
        }
        if a == 81 {
            assert(statement_of_keyword(operation_text(a)) == a);
        }
        if a == 82 {
            assert(statement_of_keyword(operation_text(a)) == a);
        }
        if a == 83 {
            assert(statement_of_keyword(operation_text(a)) == a);
        }
        if a == 84 {
            assert(statement_of_keyword(operation_text(a)) == a);
        }
    }
    assert forall|a: u32, b: u32|
        70 <= a <= 84 && 70 <= b <= 84 && a != b implies #[trigger] operation_text(a)
        != #[trigger] operation_text(b) by {
        assert(statement_of_keyword(operation_text(a)) == a);
        assert(statement_of_keyword(operation_text(b)) == b);
    }
}

/// A statement's snapshot has its code's name both as operation and as text, no operands,
/// and its own address.
pub proof fn lemma_statement_snapshot_fields(node: CInsnNode)
    ensures
        insn_view(node).operation == operation_text(node.op),
        insn_view(node).text == insn_view(node).operation,
        insn_view(node).operands.len() == 0,
        insn_view(node).address as u64 == node.ea,
{
    crate::address::lemma_signed_address_roundtrip(node.ea);
}

/// Whether the statements of a statement with code `op` at nesting level `depth` are
/// visited, and so have to be read from the library.
pub fn expands_block(op: u32, depth: u32) -> (r: bool)
    ensures
        r == (depth < MAX_BLOCK_DEPTH && op == CIT_BLOCK),
{
    depth < MAX_BLOCK_DEPTH && op == CIT_BLOCK
}

/// The name of a statement code (see [`operation_text`]).
pub fn operation_name(op: u32) -> (r: String)
    ensures
        r@ == operation_text(op),
{
    if op <= 69 {
        let digits = decimal_string(op as u64);
        concat3("expr(", digits.as_str(), ")")
    } else if op == 70 {
        String::from_str("empty")
    } else if op == 71 {
        String::from_str("block")
    } else if op == 72 {
        String::from_str("expression")
    } else if op == 73 {
        String::from_str("if")
    } else if op == 74 {
        String::from_str("for")
    } else if op == 75 {
        String::from_str("while")
    } else if op == 76 {
        String::from_str("do")
    } else if op == 77 {
        String::from_str("switch")
    } else if op == 78 {
        String::from_str("break")
    } else if op == 79 {
        String::from_str("continue")
    } else if op == 80 {
        String::from_str("return")
    } else if op == 81 {
        String::from_str("goto")
    } else if op == 82 {
        String::from_str("asm")
    } else if op == 83 {
        String::from_str("try")
    } else if op == 84 {
        String::from_str("throw")
    } else {
        let digits = decimal_string(op as u64);
        concat3("unknown(", digits.as_str(), ")")
    }
}

/// The statement `node` as the SDK hands it out.
pub fn snapshot_insn(node: &CInsnNode) -> (r: JsCInsn)
    ensures
        r@ == insn_view(*node),
{
    let operation = operation_name(node.op);
    let r = JsCInsn {
        address: node.ea as i64,
        text: operation.clone(),
        operation,
        operands: Vec::new(),
    };
    assert(r.operands@.map_values(|s: String| s@) =~= Seq::<Seq<char>>::empty());
    r
}

fn collect_blocks_inner(cinsn: &CInsnNode, blocks: &mut Vec<JsCBlock>, depth: u32)
    requires
        depth <= MAX_BLOCK_DEPTH,
    ensures
        blocks_view(final(blocks)@) == blocks_view(old(blocks)@) + node_blocks(
            *cinsn,
            depth as nat,
        ),
    decreases depth_measure(depth as nat),
{
    if depth >= MAX_BLOCK_DEPTH {
        assert(blocks_view(blocks@) =~= blocks_view(blocks@) + Seq::<CBlockView>::empty());
        return ;
    }
    if cinsn.op != CIT_BLOCK {
        assert(blocks_view(blocks@) =~= blocks_view(blocks@) + Seq::<CBlockView>::empty());
        return ;
    }
    let children = match &cinsn.block {
        Some(c) => c,
        None => {
            assert(blocks_view(blocks@) =~= blocks_view(blocks@) + Seq::<CBlockView>::empty());
            return ;
        },
    };
    let ghost start = blocks_view(blocks@);
    let mut instructions: Vec<JsCInsn> = Vec::new();
    let mut min_addr: u64 = u64::MAX;
    let mut max_addr: u64 = 0;
    let n = children.len();
    let mut j: usize = 0;
    while j < n
        invariant
            n == children@.len(),
            j <= n,
            depth < MAX_BLOCK_DEPTH,
            blocks_view(blocks@) == start + children_blocks(children@.take(j as int), depth as nat),
            instructions@.map_values(|i: JsCInsn| i@) == children@.take(j as int).map_values(
                |c: CInsnNode| insn_view(c),
            ),
            min_addr == min_ea(children@.take(j as int)),
            max_addr == max_ea(children@.take(j as int)),
        decreases n - j,
    {
        let child = &children[j];
        let ghost prefix = children@.take(j as int);
        proof {
            assert(children@.take(j + 1).drop_last() =~= prefix);
            assert(children@.take(j + 1).last() == *child);
        }
        let ea = child.ea;
        if ea != BADADDR {
            if ea < min_addr {
                min_addr = ea;
            }
            if ea > max_addr {
                max_addr = ea;
            }
        }
        if child.op == CIT_BLOCK {
            let ghost before = blocks_view(blocks@);
            collect_blocks_inner(child, blocks, depth + 1);
            proof {
                assert(blocks_view(blocks@) =~= start + children_blocks(
                    children@.take(j + 1),
                    depth as nat,
                ));
            }
        } else {
            proof {
                assert(blocks_view(blocks@) =~= start + children_blocks(
                    children@.take(j + 1),
                    depth as nat,
                ));
            }
        }
        let snap = snapshot_insn(child);
        let ghost old_instructions = instructions@;
        instructions.push(snap);
        proof {
            assert(instructions@ == old_instructions.push(snap));
            assert(instructions@.map_values(|i: JsCInsn| i@) =~= old_instructions.map_values(
                |i: JsCInsn| i@,
            ).push(snap@));
            assert(children@.take(j + 1).map_values(|c: CInsnNode| insn_view(c)) =~= prefix.map_values(
                |c: CInsnNode| insn_view(c),
            ).push(insn_view(*child)));
        }
        j += 1;
    }
    proof {
        assert(children@.take(n as int) =~= children@);
    }
    if min_addr != u64::MAX {
        let ghost old_blocks = blocks@;
        let block = JsCBlock {
            start_address: min_addr as i64,
            end_address: max_addr as i64,
            block_type: CIT_BLOCK,
            instructions,
        };
        blocks.push(block);
        proof {
            assert(blocks_view(blocks@) =~= blocks_view(old_blocks).push(block@));
        }
    }
}

/// The blocks of a function body, in the order of [`node_blocks`] from level zero.
pub fn collect_blocks(body: &CInsnNode) -> (r: Vec<JsCBlock>)
    ensures
        blocks_view(r@) == node_blocks(*body, 0),
{
    let mut blocks: Vec<JsCBlock> = Vec::new();
    collect_blocks_inner(body, &mut blocks, 0);
    assert(blocks_view(Seq::<JsCBlock>::empty()) =~= Seq::<CBlockView>::empty());
    assert(Seq::<CBlockView>::empty() + node_blocks(*body, 0) =~= node_blocks(*body, 0));
    blocks
}

/// The SDK's snapshot of a decompiled function; `None` when the library handed back no
/// function, which is reported in the snapshot's `error`.
pub fn snapshot_cfunc(decompiled: Option<DecompiledFunction>) -> (r: JsCFunction)
    ensures
        decompiled is None ==> r@.entry_point == 0 && r@.blocks.len() == 0 && r@.pseudo_code
            == Seq::<char>::empty() && r@.error == Some("Null cfunc_inner from cfuncptr_t"@),
        decompiled matches Some(d) ==> r@.entry_point == signed_address(d.entry_ea)
            && r@.blocks == node_blocks(d.body, 0) && r@.pseudo_code == d.pseudo_code@
            && r@.error is None,
{
    match decompiled {
        None => {
            let r = JsCFunction {
                entry_point: 0,
                blocks: Vec::new(),
                pseudo_code: String::new(),
                error: Some(String::from_str("Null cfunc_inner from cfuncptr_t")),
            };
            assert(blocks_view(r.blocks@) =~= Seq::<CBlockView>::empty());
            r
        },
        Some(d) => {
            let blocks = collect_blocks(&d.body);
            JsCFunction {
                entry_point: d.entry_ea as i64,
                blocks,
                pseudo_code: d.pseudo_code,
                error: None,
            }
        },
    }
}

} // verus!
