use huff_codegen::artifact::Artifact;
use huff_codegen::ast::{
    Byte, ConstVal, ConstantDefinition, Contract, EventDefinition, FunctionDefinition, IRByte,
    MacroDefinition, MacroInvocation, Statement,
};
use huff_codegen::error::CodegenErrorKind;
use huff_codegen::hexstr::{byte_to_hex, check_hex_string, word_to_hex4};
use huff_codegen::Codegen;

fn byte(s: &str) -> IRByte {
    IRByte::Byte(Byte(s.to_string()))
}

fn invoke(name: &str) -> IRByte {
    IRByte::Statement(Statement::MacroInvocation(MacroInvocation {
        macro_name: name.to_string(),
    }))
}

fn mac(name: &str, ir: Vec<IRByte>) -> MacroDefinition {
    MacroDefinition { name: name.to_string(), ir }
}

fn tree(macros: Vec<MacroDefinition>, constants: Vec<ConstantDefinition>) -> Contract {
    Contract { macros, constants, functions: vec![], events: vec![] }
}

fn literal(name: &str, bytes: Vec<u8>) -> ConstantDefinition {
    ConstantDefinition { name: name.to_string(), value: ConstVal::Literal(bytes) }
}

fn units(r: Vec<Byte>) -> Vec<String> {
    r.into_iter().map(|b| b.0).collect()
}

const MAIN_BYTECODE: &str = "60003560E01c8063a9059cbb1461004857806340c10f19146100de57806370a082311461014e57806318160ddd1461016b578063095ea7b314610177578063dd62ed3e1461018e575b600435336024358160016000526000602001526040600020548082116100d8578190038260016000526000602001526040600020558281906001600052600060200152604060002054018360016000526000602001526040600020556000527fDDF252AD1BE2C89B69C2B068FC378DAA952BA7F163C4A11628F55A4DF523B3EF60206000a3600160005260206000f35b60006000fd5b60005433146100ed5760006000fd5b600435600060243582819060016000526000602001526040600020540183600160005260006020015260406000205580600254016002556000527fDDF252AD1BE2C89B69C2B068FC378DAA952BA7F163C4A11628F55A4DF523B3EF60206000a35b600435600160005260006020015260406000205460005260206000f35b60025460005260206000f35b602435600435336000526000602001526040600020555b60243560043560005260006020015260406000205460005260206000f3";
const EXPECTED_BYTECODE: &str = "336000556101ac806100116000396000f360003560E01c8063a9059cbb1461004857806340c10f19146100de57806370a082311461014e57806318160ddd1461016b578063095ea7b314610177578063dd62ed3e1461018e575b600435336024358160016000526000602001526040600020548082116100d8578190038260016000526000602001526040600020558281906001600052600060200152604060002054018360016000526000602001526040600020556000527fDDF252AD1BE2C89B69C2B068FC378DAA952BA7F163C4A11628F55A4DF523B3EF60206000a3600160005260206000f35b60006000fd5b60005433146100ed5760006000fd5b600435600060243582819060016000526000602001526040600020540183600160005260006020015260406000205580600254016002556000527fDDF252AD1BE2C89B69C2B068FC378DAA952BA7F163C4A11628F55A4DF523B3EF60206000a35b600435600160005260006020015260406000205460005260206000f35b60025460005260206000f35b602435600435336000526000602001526040600020555b60243560043560005260006020015260406000205460005260206000f3";

#[test]
fn expand_deterministic() {
    let cg = Codegen::new();
    let t = tree(
        vec![mac("M", vec![byte("aa"), byte("bb")]), mac("TOP", vec![invoke("M"), byte("cc")])],
        vec![],
    );
    let m = mac("TOP", vec![invoke("M"), byte("cc")]);
    let r1 = units(cg.recurse_bytecode(mac("TOP", vec![invoke("M"), byte("cc")]), Some(tree(
        vec![mac("M", vec![byte("aa"), byte("bb")]), mac("TOP", vec![invoke("M"), byte("cc")])],
        vec![],
    ))).unwrap());
    let r2 = units(cg.recurse_bytecode(m, Some(t)).unwrap());
    assert_eq!(r1, r2);
}

#[test]
fn order_preservation() {
    let cg = Codegen::new();
    let t = tree(
        vec![
            mac("M", vec![byte("cc"), byte("dd")]),
            mac("OUTER", vec![byte("aa"), invoke("M"), byte("bb")]),
        ],
        vec![],
    );
    let outer = mac("OUTER", vec![byte("aa"), invoke("M"), byte("bb")]);
    let r = units(cg.recurse_bytecode(outer, Some(t)).unwrap());
    assert_eq!(r, vec!["aa", "cc", "dd", "bb"]);
}

#[test]
fn constant_encoding_one_byte() {
    let cg = Codegen::new();
    let t = tree(
        vec![mac("M", vec![IRByte::Constant("ANSWER".to_string())])],
        vec![literal("ANSWER", vec![0x2a])],
    );
    let m = mac("M", vec![IRByte::Constant("ANSWER".to_string())]);
    let r = units(cg.recurse_bytecode(m, Some(t)).unwrap());
    assert_eq!(r, vec!["602a"]);
}

#[test]
fn constant_encoding_two_bytes() {
    let cg = Codegen::new();
    let t = tree(
        vec![mac("M", vec![IRByte::Constant("MARKER".to_string())])],
        vec![literal("MARKER", vec![0xbe, 0xef])],
    );
    let m = mac("M", vec![IRByte::Constant("MARKER".to_string())]);
    let r = units(cg.recurse_bytecode(m, Some(t)).unwrap());
    assert_eq!(r, vec!["61beef"]);
}

#[test]
fn free_storage_pointer_resolves_to_zero() {
    let cg = Codegen::new();
    let t = tree(
        vec![mac("M", vec![IRByte::Constant("SLOT".to_string())])],
        vec![ConstantDefinition {
            name: "SLOT".to_string(),
            value: ConstVal::FreeStoragePointer,
        }],
    );
    let m = mac("M", vec![IRByte::Constant("SLOT".to_string())]);
    let r = units(cg.recurse_bytecode(m, Some(t)).unwrap());
    assert_eq!(r, vec!["6000"]);
}

#[test]
fn first_constant_definition_wins() {
    let cg = Codegen::new();
    let t = tree(
        vec![mac("M", vec![IRByte::Constant("K".to_string())])],
        vec![literal("K", vec![0x01]), literal("K", vec![0x02])],
    );
    let m = mac("M", vec![IRByte::Constant("K".to_string())]);
    let r = units(cg.recurse_bytecode(m, Some(t)).unwrap());
    assert_eq!(r, vec!["6001"]);
}

#[test]
fn missing_macro_fails() {
    let cg = Codegen::new();
    let t = tree(vec![mac("M", vec![invoke("NOWHERE")])], vec![]);
    let m = mac("M", vec![invoke("NOWHERE")]);
    let e = cg.recurse_bytecode(m, Some(t)).unwrap_err();
    assert_eq!(e.kind, CodegenErrorKind::MissingMacroDefinition);
}

#[test]
fn missing_constant_fails() {
    let cg = Codegen::new();
    let t = tree(vec![mac("M", vec![IRByte::Constant("GHOSTLY".to_string())])], vec![]);
    let m = mac("M", vec![IRByte::Constant("GHOSTLY".to_string())]);
    let e = cg.recurse_bytecode(m, Some(t)).unwrap_err();
    assert_eq!(e.kind, CodegenErrorKind::MissingConstantDefinition);
}

#[test]
fn invalid_statement_fails() {
    let cg = Codegen::new();
    let t = tree(vec![], vec![]);
    let m = mac("M", vec![IRByte::Statement(Statement::Label("spot".to_string()))]);
    let e = cg.recurse_bytecode(m, Some(t)).unwrap_err();
    assert_eq!(e.kind, CodegenErrorKind::InvalidMacroStatement);
}

#[test]
fn cyclic_direct_invocation_fails() {
    let cg = Codegen::new();
    let t = tree(vec![mac("LOOPER", vec![invoke("LOOPER")])], vec![]);
    let m = mac("LOOPER", vec![invoke("LOOPER")]);
    let e = cg.recurse_bytecode(m, Some(t)).unwrap_err();
    assert_eq!(e.kind, CodegenErrorKind::CircularMacroInvocation);
}

#[test]
fn cyclic_transitive_invocation_fails() {
    let cg = Codegen::new();
    let t = tree(
        vec![mac("A", vec![invoke("B")]), mac("B", vec![invoke("A")])],
        vec![],
    );
    let m = mac("A", vec![invoke("B")]);
    let e = cg.recurse_bytecode(m, Some(t)).unwrap_err();
    assert_eq!(e.kind, CodegenErrorKind::FailedMacroRecursion);
}

#[test]
fn recurse_bytecode_without_any_tree_fails() {
    let cg = Codegen::new();
    let e = cg.recurse_bytecode(mac("M", vec![]), None).unwrap_err();
    assert_eq!(e.kind, CodegenErrorKind::MissingAst);
}

#[test]
fn recurse_bytecode_uses_cached_tree() {
    let mut cg = Codegen::new();
    cg.ast = Some(tree(vec![mac("M", vec![byte("aa")])], vec![]));
    let r = units(cg.recurse_bytecode(mac("M", vec![byte("aa")]), None).unwrap());
    assert_eq!(r, vec!["aa"]);
}

#[test]
fn deployment_assembly_golden() {
    let mut cg = Codegen::new();
    assert!(cg.ast.is_none());
    assert!(cg.artifact.is_none());
    let inputs: Vec<ethers::abi::Token> = vec![];
    let churn_res = cg.churn(inputs, MAIN_BYTECODE, "33600055");
    assert_eq!(churn_res.unwrap().bytecode, EXPECTED_BYTECODE);
}

#[test]
fn churn_sets_runtime_field() {
    let mut cg = Codegen::new();
    let art = cg.churn(vec![], MAIN_BYTECODE, "33600055").unwrap();
    assert_eq!(art.runtime, MAIN_BYTECODE);
}

#[test]
fn churn_encodes_constructor_args() {
    let mut cg = Codegen::new();
    let args = vec![ethers::abi::Token::Uint(ethers::types::U256::from(42u64))];
    let art = cg.churn(args, "aabb", "33600055").unwrap();
    let expected_args = format!("{:064x}", 42);
    let expected =
        format!("336000556100028061001160003960{}f3aabb{}", "00", expected_args);
    assert_eq!(art.bytecode, expected);
}

#[test]
fn noop_export() {
    let cg = Codegen::new();
    assert!(cg.export().is_none());
}

#[test]
fn export_returns_artifact_after_churn() {
    let mut cg = Codegen::new();
    cg.churn(vec![], "aabb", "33600055").unwrap();
    let art = cg.export().unwrap();
    assert_eq!(art.runtime, "aabb");
}

#[test]
fn roll_without_tree_fails() {
    let mut cg = Codegen::new();
    let e = cg.roll(None).unwrap_err();
    assert_eq!(e.kind, CodegenErrorKind::MissingAst);
    assert!(cg.main_bytecode.is_none());
}

#[test]
fn roll_with_tree_yields_empty_bytecode() {
    let mut cg = Codegen::new();
    let r = cg.roll(Some(tree(vec![], vec![]))).unwrap();
    assert_eq!(r, "");
    assert_eq!(cg.main_bytecode, Some(String::new()));
}

#[test]
fn graceful_ast_grab_prefers_given_tree() {
    let mut cg = Codegen::new();
    cg.ast = Some(tree(vec![mac("CACHED", vec![])], vec![]));
    let got = cg.graceful_ast_grab(Some(tree(vec![mac("GIVEN", vec![])], vec![]))).unwrap();
    assert_eq!(got.macros[0].name, "GIVEN");
    let cached = cg.graceful_ast_grab(None).unwrap();
    assert_eq!(cached.macros[0].name, "CACHED");
}

#[test]
fn graceful_ast_grab_without_tree_fails() {
    let cg = Codegen::new();
    let e = cg.graceful_ast_grab(None).unwrap_err();
    assert_eq!(e.kind, CodegenErrorKind::MissingAst);
}

#[test]
fn construct_missing_constructor_fails() {
    let mut cg = Codegen::new();
    let e = cg.construct(Some(tree(vec![mac("MAIN", vec![])], vec![]))).unwrap_err();
    assert_eq!(e.kind, CodegenErrorKind::MissingConstructor);
}

#[test]
fn construct_missing_tree_fails() {
    let mut cg = Codegen::new();
    let e = cg.construct(None).unwrap_err();
    assert_eq!(e.kind, CodegenErrorKind::MissingAst);
}

#[test]
fn construct_joins_constructor_bytes() {
    let mut cg = Codegen::new();
    let t = tree(
        vec![mac("CONSTRUCTOR", vec![byte("33"), byte("600055")])],
        vec![],
    );
    let r = cg.construct(Some(t)).unwrap();
    assert_eq!(r, "33600055");
}

#[test]
fn abigen_sets_interface_on_artifact() {
    let mut cg = Codegen::new();
    let t = Contract {
        macros: vec![],
        constants: vec![],
        functions: vec![FunctionDefinition {
            name: "transfer".to_string(),
            inputs: vec!["address".to_string(), "uint256".to_string()],
            outputs: vec!["bool".to_string()],
        }],
        events: vec![EventDefinition {
            name: "Transfer".to_string(),
            inputs: vec!["address".to_string(), "address".to_string(), "uint256".to_string()],
        }],
    };
    let abi = cg.abigen(t).unwrap();
    assert_eq!(abi.functions.len(), 1);
    assert_eq!(abi.functions[0].name, "transfer");
    assert_eq!(abi.functions[0].inputs, vec!["address", "uint256"]);
    assert_eq!(abi.events[0].name, "Transfer");
    let art: Artifact = cg.export().unwrap();
    assert!(art.abi.is_some());
    assert_eq!(art.bytecode, "");
}

#[test]
fn churn_preserves_interface() {
    let mut cg = Codegen::new();
    let t = Contract {
        macros: vec![],
        constants: vec![],
        functions: vec![FunctionDefinition {
            name: "name".to_string(),
            inputs: vec![],
            outputs: vec!["string".to_string()],
        }],
        events: vec![],
    };
    cg.abigen(t).unwrap();
    let art = cg.churn(vec![], "aabb", "33600055").unwrap();
    assert!(art.abi.is_some());
    assert_eq!(art.abi.unwrap().functions[0].name, "name");
}

#[test]
fn abigen_preserves_bytecode() {
    let mut cg = Codegen::new();
    cg.churn(vec![], "aabb", "33600055").unwrap();
    let t = tree(vec![], vec![]);
    cg.abigen(t).unwrap();
    let art = cg.export().unwrap();
    assert_eq!(art.runtime, "aabb");
    assert!(art.abi.is_some());
}

#[test]
fn hex_string_checker() {
    assert!(check_hex_string("33600055"));
    assert!(check_hex_string(""));
    assert!(check_hex_string("60E01c00"));
    assert!(!check_hex_string("336"));
    assert!(!check_hex_string("zz"));
}

#[test]
fn four_digit_hex_words() {
    assert_eq!(word_to_hex4(214), "00d6");
    assert_eq!(word_to_hex4(17), "0011");
    assert_eq!(word_to_hex4(0x1ac), "01ac");
    assert_eq!(word_to_hex4(0xffff), "ffff");
}

#[test]
fn two_digit_hex_bytes() {
    assert_eq!(byte_to_hex(0x60), "60");
    assert_eq!(byte_to_hex(0), "00");
    assert_eq!(byte_to_hex(0xff), "ff");
}

#[test]
fn churn_with_empty_constructor() {
    let mut cg = Codegen::new();
    let art = cg.churn(vec![], "aabb", "").unwrap();
    assert_eq!(art.bytecode, "6100028061000d6000396000f3aabb");
}

#[test]
fn default_session_is_fresh() {
    let cg = Codegen::default();
    assert!(cg.ast.is_none());
    assert!(cg.artifact.is_none());
    assert!(cg.main_bytecode.is_none());
    assert!(cg.constructor_bytecode.is_none());
}

#[test]
fn churn_encodes_multiple_args_in_order() {
    let mut cg = Codegen::new();
    let args = vec![
        ethers::abi::Token::Uint(ethers::types::U256::from(1u64)),
        ethers::abi::Token::Uint(ethers::types::U256::from(2u64)),
    ];
    let art = cg.churn(args, "aabb", "33600055").unwrap();
    let suffix = format!("{:064x}{:064x}", 1, 2);
    let expected = format!("33600055610002806100116000396000f3aabb{}", suffix);
    assert_eq!(art.bytecode, expected);
}

#[test]
fn artifact_population_is_order_independent() {
    let args = || vec![ethers::abi::Token::Uint(ethers::types::U256::from(7u64))];
    let t = || Contract {
        macros: vec![],
        constants: vec![],
        functions: vec![FunctionDefinition {
            name: "total".to_string(),
            inputs: vec![],
            outputs: vec!["uint256".to_string()],
        }],
        events: vec![],
    };
    let mut first = Codegen::new();
    first.churn(args(), "aabb", "33600055").unwrap();
    first.abigen(t()).unwrap();
    let mut second = Codegen::new();
    second.abigen(t()).unwrap();
    second.churn(args(), "aabb", "33600055").unwrap();
    let a = first.export().unwrap();
    let b = second.export().unwrap();
    assert_eq!(a.bytecode, b.bytecode);
    assert_eq!(a.runtime, b.runtime);
    assert_eq!(a.abi.unwrap().functions[0].name, b.abi.unwrap().functions[0].name);
}
