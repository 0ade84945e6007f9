use idalib_ts::database::{
    format_version, function_cfg_result, plan_open, CfgAttempt, OpenOptions,
};
use idalib_ts::error::Error;
use idalib_ts::session::IdbSlot;
use idalib_ts::types::instruction::{Instruction, Operand, OperandDataType, OperandType};
use idalib_ts::types::metadata::{entry_points, JsEntryPoint, JsMetadata, MetadataInfo};
use idalib_ts::types::plugin::JsPlugin;

#[test]
fn open_plan_defaults() {
    let plan = plan_open(None);
    assert!(plan.ida_dir.is_none());
    assert!(plan.auto_analyse);
    assert!(!plan.save);
    assert!(plan.custom.is_none());
    let plan = plan_open(Some(OpenOptions::default()));
    assert!(plan.auto_analyse && !plan.save && plan.custom.is_none());
}

#[test]
fn open_plan_with_options() {
    let opts = OpenOptions {
        ida_dir: Some("/opt/ida".to_string()),
        auto_analyze: Some(false),
        save: Some(true),
        file_type: None,
        idb_path: Some("/tmp/x.i64".to_string()),
    };
    let plan = plan_open(Some(opts));
    assert_eq!(plan.ida_dir.as_deref(), Some("/opt/ida"));
    assert!(!plan.auto_analyse);
    assert!(plan.save);
    let custom = plan.custom.unwrap();
    assert!(custom.file_type.is_none());
    assert_eq!(custom.idb_path.as_deref(), Some("/tmp/x.i64"));
}

#[test]
fn closed_database_refuses_use() {
    let mut slot = IdbSlot::new(7u32);
    assert!(slot.is_open());
    assert_eq!(*slot.get().unwrap(), 7);
    *slot.get_mut().unwrap() = 9;
    assert_eq!(*slot.get().unwrap(), 9);
    slot.close();
    assert!(!slot.is_open());
    assert!(matches!(slot.get(), Err(Error::DatabaseClosed)));
    assert_eq!(slot.get().unwrap_err().reason(), "Database is closed");
    assert!(matches!(slot.get_mut(), Err(Error::DatabaseClosed)));
    slot.close();
    assert!(matches!(slot.get(), Err(Error::DatabaseClosed)));
}

#[test]
fn flow_chart_outcomes() {
    assert_eq!(function_cfg_result(CfgAttempt::NoFunction).unwrap_err().reason(), "Function not found");
    assert_eq!(
        function_cfg_result(CfgAttempt::Failed("no chart".to_string())).unwrap_err().reason(),
        "CFGError: no chart"
    );
    let cfg = function_cfg_result(CfgAttempt::Blocks(vec![(1, 2)])).unwrap();
    assert_eq!(cfg.basic_blocks().len(), 1);
}

#[test]
fn version_text() {
    assert_eq!(format_version(9, 3, 260327), "9.3.260327");
    assert_eq!(format_version(0, -1, 0), "0.-1.0");
}

#[test]
fn metadata_report() {
    let m = JsMetadata::from_info(MetadataInfo {
        procname: "metapc".to_string(),
        abibits: 0x1a,
        analysis_flags: 7,
        compiler: "GNU".to_string(),
        file_type: "ELF".to_string(),
        base_address: None,
    });
    assert_eq!(m.abi, "metapc");
    assert_eq!(m.abi_features, "0x1a");
    assert_eq!(m.analysis_flags, 7);
    assert_eq!(m.compiler, "GNU");
    assert_eq!(m.file_type, "ELF");
    assert_eq!(m.image_base, 0);
    let m = JsMetadata::from_info(MetadataInfo {
        procname: String::new(),
        abibits: 0,
        analysis_flags: 0,
        compiler: String::new(),
        file_type: String::new(),
        base_address: Some(0x140000000),
    });
    assert_eq!(m.abi_features, "0x0");
    assert_eq!(m.image_base, 0x140000000);
}

#[test]
fn entry_point_ordinals() {
    let e = entry_points(&vec![0x401000, 0xffff_ffff_ffff_ffff]);
    assert_eq!(e, vec![
        JsEntryPoint { ordinal: 0, address: 0x401000 },
        JsEntryPoint { ordinal: 1, address: -1 },
    ]);
    assert!(entry_points(&vec![]).is_empty());
}

#[test]
fn plugin_name() {
    assert_eq!(JsPlugin::new("hexrays".to_string()).get_name(), "hexrays");
}

fn insn() -> Instruction {
    let op = Operand {
        op_type: OperandType::Reg,
        data_type: OperandDataType::DWord,
        value: None,
        address: None,
        register: Some(0xffff),
        phrase: None,
    };
    let imm = Operand {
        op_type: OperandType::Imm,
        data_type: OperandDataType::Byte,
        value: Some(5),
        address: None,
        register: None,
        phrase: None,
    };
    Instruction {
        address: 0x401000,
        itype: 16,
        len: 3,
        operand_count: 2,
        is_empty: false,
        is_call: false,
        is_return: false,
        is_indirect_jump: false,
        block_end_if_calls_stop: true,
        block_end_if_calls_continue: false,
        operands: vec![Some(op), None, Some(imm)],
    }
}

#[test]
fn instruction_getters() {
    let i = insn();
    assert_eq!(i.address(), 0x401000);
    assert_eq!(i.itype(), 16);
    assert_eq!(i.len(), 3);
    assert_eq!(i.operand_count(), 2);
    assert!(!i.is_empty() && !i.is_call() && !i.is_return() && !i.is_indirect_jump());
    assert!(i.is_basic_block_end(None));
    assert!(i.is_basic_block_end(Some(true)));
    assert!(!i.is_basic_block_end(Some(false)));
}

#[test]
fn instruction_operands_by_slot() {
    let i = insn();
    let r = i.operand(0).unwrap();
    assert_eq!(r.operand_type(), OperandType::Reg);
    assert_eq!(r.data_type(), OperandDataType::DWord);
    assert_eq!(r.register(), Some(0xffff));
    assert_eq!(r.phrase(), None);
    assert_eq!(r.value(), None);
    assert!(i.operand(1).is_none());
    let imm = i.operand(2).unwrap();
    assert_eq!(imm.value(), Some(5));
    assert_eq!(imm.address(), None);
    assert!(i.operand(3).is_none());
    assert!(i.operand(u32::MAX).is_none());
}
