use auto_parallel_wasm::wasm_parser::{
    expand_locals, CodeBody, FuncType, GlobalType, Import, MemoryType, Operator, Sections,
    ValType, WasmGlobal, WasmModule,
};

fn sections() -> Sections {
    Sections {
        types: vec![
            FuncType::new(vec![ValType::I32], vec![ValType::I64]),
            FuncType::new(vec![], vec![]),
        ],
        imports: vec![],
        functions: vec![],
        start: None,
        memories: vec![],
        globals: vec![],
        code: vec![],
    }
}

fn import(name: &str, is_function: bool) -> Import {
    Import { name: name.to_string(), is_function }
}

fn body(marker: i32) -> CodeBody {
    CodeBody {
        locals: vec![(2, ValType::F32), (0, ValType::I64), (1, ValType::I32)],
        operators: vec![Operator::I32Const { value: marker }, Operator::Drop, Operator::End],
    }
}

#[test]
fn empty_sections_give_an_empty_module() {
    let module = WasmModule::from_sections(&sections());
    assert!(module.functions.is_empty());
    assert_eq!(module.start_func_idx, None);
    assert!(module.memories.is_empty());
    assert!(module.globals.is_empty());
    assert!(!module.has_putchar_import);
}

#[test]
fn locals_are_written_out_group_by_group() {
    assert_eq!(expand_locals(&vec![]), vec![]);
    assert_eq!(
        expand_locals(&vec![(2, ValType::F32), (0, ValType::I64), (3, ValType::I32)]),
        vec![ValType::F32, ValType::F32, ValType::I32, ValType::I32, ValType::I32]
    );
}

#[test]
fn indices_count_imported_functions_first() {
    let mut s = sections();
    s.imports = vec![
        import("memory", false),
        import("putchar", true),
        import("other", true),
        import("table", false),
    ];
    s.functions = vec![1, 0];
    s.code = vec![body(10), body(20)];
    let module = WasmModule::from_sections(&s);
    assert!(module.has_putchar_import);
    assert_eq!(module.functions.len(), 2);
    assert_eq!(module.functions[0].idx, 2);
    assert_eq!(module.functions[1].idx, 3);
    assert!(module.functions[0].func_type.params.is_empty());
    assert_eq!(module.functions[1].func_type.params, vec![ValType::I32]);
    assert_eq!(module.functions[1].func_type.results, vec![ValType::I64]);
    assert_eq!(module.functions[0].body.operators[0], Operator::I32Const { value: 10 });
    assert_eq!(module.functions[1].body.operators[0], Operator::I32Const { value: 20 });
    assert_eq!(
        module.functions[0].body.locals,
        vec![ValType::F32, ValType::F32, ValType::I32]
    );
}

#[test]
fn putchar_counts_only_as_a_function() {
    let mut s = sections();
    s.imports = vec![import("putchar", false), import("getchar", true)];
    assert!(!WasmModule::from_sections(&s).has_putchar_import);
    s.imports.push(import("putchar", true));
    assert!(WasmModule::from_sections(&s).has_putchar_import);
}

#[test]
fn entries_with_an_unknown_type_declare_nothing() {
    let mut s = sections();
    s.functions = vec![0, 2, 1, 7, 0];
    s.code = vec![body(1), body(2), body(3), body(4), body(5)];
    let module = WasmModule::from_sections(&s);
    // the index follows the position in the function section, the body the
    // position among the functions that were declared
    let indices: Vec<u32> = module.functions.iter().map(|f| f.idx).collect();
    assert_eq!(indices, vec![0, 2, 4]);
    let markers: Vec<Operator> = module.functions.iter().map(|f| f.body.operators[0]).collect();
    assert_eq!(
        markers,
        vec![
            Operator::I32Const { value: 1 },
            Operator::I32Const { value: 2 },
            Operator::I32Const { value: 3 },
        ]
    );
}

#[test]
fn functions_without_a_body_are_empty() {
    let mut s = sections();
    s.functions = vec![0, 1];
    s.code = vec![body(1)];
    let module = WasmModule::from_sections(&s);
    assert_eq!(module.functions.len(), 2);
    assert_eq!(module.functions[0].body.operators.len(), 3);
    assert!(module.functions[1].body.operators.is_empty());
    assert!(module.functions[1].body.locals.is_empty());
}

#[test]
fn the_start_function_is_named() {
    let mut s = sections();
    s.imports = vec![import("putchar", true)];
    s.functions = vec![1, 1, 1];
    s.start = Some(2);
    let module = WasmModule::from_sections(&s);
    let names: Vec<Option<String>> = module.functions.iter().map(|f| f.name.clone()).collect();
    assert_eq!(names, vec![None, Some("_start".to_string()), None]);
    assert_eq!(module.start_func_idx, Some(2));

    // a start index that names an import or nothing names no function
    s.start = Some(0);
    let module = WasmModule::from_sections(&s);
    assert!(module.functions.iter().all(|f| f.name.is_none()));
    assert_eq!(module.start_func_idx, Some(0));
}

#[test]
fn memories_and_globals_are_carried_over() {
    let mut s = sections();
    let memory = MemoryType {
        memory64: false,
        shared: true,
        initial: 3,
        maximum: Some(9),
        page_size_log2: None,
    };
    let global = WasmGlobal {
        global_type: GlobalType { content_type: ValType::F64, mutable: true, shared: false },
    };
    s.memories = vec![memory, memory];
    s.globals = vec![global];
    let module = WasmModule::from_sections(&s);
    assert_eq!(module.memories, vec![memory, memory]);
    assert_eq!(module.globals, vec![global]);
}
