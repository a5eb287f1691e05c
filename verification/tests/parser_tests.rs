use auto_parallel_wasm::compiler::Compiler;
use auto_parallel_wasm::machine::{run_function, Outcome};
use auto_parallel_wasm::wasm_parser as model;
use auto_parallel_wasm::wasm_parser::WasmModule;
use wasmparser::{CompositeInnerType, Operator, Parser, Payload, TypeRef};

fn val_type(ty: wasmparser::ValType) -> model::ValType {
    match ty {
        wasmparser::ValType::I32 => model::ValType::I32,
        wasmparser::ValType::I64 => model::ValType::I64,
        wasmparser::ValType::F32 => model::ValType::F32,
        wasmparser::ValType::F64 => model::ValType::F64,
        wasmparser::ValType::V128 => model::ValType::V128,
        wasmparser::ValType::Ref(_) => model::ValType::Ref,
    }
}

fn val_types(types: &[wasmparser::ValType]) -> Vec<model::ValType> {
    types.iter().map(|ty| val_type(*ty)).collect()
}

fn mem_arg(memarg: wasmparser::MemArg) -> model::MemArg {
    model::MemArg {
        align: memarg.align,
        max_align: memarg.max_align,
        offset: memarg.offset,
        memory: memarg.memory,
    }
}

fn block_type(blockty: wasmparser::BlockType) -> model::BlockType {
    match blockty {
        wasmparser::BlockType::Empty => model::BlockType::Empty,
        wasmparser::BlockType::Type(ty) => model::BlockType::Type(val_type(ty)),
        wasmparser::BlockType::FuncType(index) => model::BlockType::FuncType(index),
    }
}

fn heap_type(hty: wasmparser::HeapType) -> model::HeapType {
    match hty {
        wasmparser::HeapType::Abstract { shared, ty } => model::HeapType::Abstract {
            shared,
            ty: match ty {
                wasmparser::AbstractHeapType::Func => model::AbstractHeapType::Func,
                wasmparser::AbstractHeapType::Extern => model::AbstractHeapType::Extern,
                _ => model::AbstractHeapType::Any,
            },
        },
        _ => model::HeapType::Concrete { type_index: 0 },
    }
}

fn opcode_at(wasm_bytes: &[u8], offset: u64) -> u32 {
    usize::try_from(offset)
        .ok()
        .and_then(|at| wasm_bytes.get(at))
        .map_or(0, |byte| u32::from(*byte))
}

fn operator(op: Operator<'_>) -> Option<model::Operator> {
    Some(match op {
        Operator::Unreachable => model::Operator::Unreachable,
        Operator::Block { blockty } => model::Operator::Block { blockty: block_type(blockty) },
        Operator::Loop { blockty } => model::Operator::Loop { blockty: block_type(blockty) },
        Operator::If { blockty } => model::Operator::If { blockty: block_type(blockty) },
        Operator::Else => model::Operator::Else,
        Operator::End => model::Operator::End,
        Operator::Br { relative_depth } => model::Operator::Br { relative_depth },
        Operator::BrIf { relative_depth } => model::Operator::BrIf { relative_depth },
        Operator::Return => model::Operator::Return,
        Operator::Call { function_index } => model::Operator::Call { function_index },
        Operator::Drop => model::Operator::Drop,
        Operator::Select => model::Operator::Select,
        Operator::LocalGet { local_index } => model::Operator::LocalGet { local_index },
        Operator::LocalSet { local_index } => model::Operator::LocalSet { local_index },
        Operator::LocalTee { local_index } => model::Operator::LocalTee { local_index },
        Operator::GlobalGet { global_index } => model::Operator::GlobalGet { global_index },
        Operator::GlobalSet { global_index } => model::Operator::GlobalSet { global_index },
        Operator::I32Load { memarg } => model::Operator::I32Load { memarg: mem_arg(memarg) },
        Operator::I64Load { memarg } => model::Operator::I64Load { memarg: mem_arg(memarg) },
        Operator::F32Load { memarg } => model::Operator::F32Load { memarg: mem_arg(memarg) },
        Operator::F64Load { memarg } => model::Operator::F64Load { memarg: mem_arg(memarg) },
        Operator::I32Load8S { memarg } => model::Operator::I32Load8S { memarg: mem_arg(memarg) },
        Operator::I32Load8U { memarg } => model::Operator::I32Load8U { memarg: mem_arg(memarg) },
        Operator::I32Load16S { memarg } => model::Operator::I32Load16S { memarg: mem_arg(memarg) },
        Operator::I32Load16U { memarg } => model::Operator::I32Load16U { memarg: mem_arg(memarg) },
        Operator::I64Load8S { memarg } => model::Operator::I64Load8S { memarg: mem_arg(memarg) },
        Operator::I64Load8U { memarg } => model::Operator::I64Load8U { memarg: mem_arg(memarg) },
        Operator::I64Load16S { memarg } => model::Operator::I64Load16S { memarg: mem_arg(memarg) },
        Operator::I64Load16U { memarg } => model::Operator::I64Load16U { memarg: mem_arg(memarg) },
        Operator::I64Load32S { memarg } => model::Operator::I64Load32S { memarg: mem_arg(memarg) },
        Operator::I64Load32U { memarg } => model::Operator::I64Load32U { memarg: mem_arg(memarg) },
        Operator::I32Store { memarg } => model::Operator::I32Store { memarg: mem_arg(memarg) },
        Operator::I64Store { memarg } => model::Operator::I64Store { memarg: mem_arg(memarg) },
        Operator::F32Store { memarg } => model::Operator::F32Store { memarg: mem_arg(memarg) },
        Operator::F64Store { memarg } => model::Operator::F64Store { memarg: mem_arg(memarg) },
        Operator::I32Store8 { memarg } => model::Operator::I32Store8 { memarg: mem_arg(memarg) },
        Operator::I32Store16 { memarg } => model::Operator::I32Store16 { memarg: mem_arg(memarg) },
        Operator::I64Store8 { memarg } => model::Operator::I64Store8 { memarg: mem_arg(memarg) },
        Operator::I64Store16 { memarg } => model::Operator::I64Store16 { memarg: mem_arg(memarg) },
        Operator::I64Store32 { memarg } => model::Operator::I64Store32 { memarg: mem_arg(memarg) },
        Operator::MemorySize { mem, .. } => model::Operator::MemorySize { mem },
        Operator::MemoryGrow { mem, .. } => model::Operator::MemoryGrow { mem },
        Operator::MemoryCopy { dst_mem, src_mem } => {
            model::Operator::MemoryCopy { dst_mem, src_mem }
        }
        Operator::MemoryFill { mem } => model::Operator::MemoryFill { mem },
        Operator::I32Const { value } => model::Operator::I32Const { value },
        Operator::I64Const { value } => model::Operator::I64Const { value },
        Operator::F32Const { value } => {
            model::Operator::F32Const { value: model::Ieee32::from_bits(value.bits()) }
        }
        Operator::F64Const { value } => {
            model::Operator::F64Const { value: model::Ieee64::from_bits(value.bits()) }
        }
        Operator::RefNull { hty } => model::Operator::RefNull { hty: heap_type(hty) },
        Operator::RefIsNull => model::Operator::RefIsNull,
        Operator::I32Eqz => model::Operator::I32Eqz,
        Operator::I32Eq => model::Operator::I32Eq,
        Operator::I32Ne => model::Operator::I32Ne,
        Operator::I32LtS => model::Operator::I32LtS,
        Operator::I32LtU => model::Operator::I32LtU,
        Operator::I32GtS => model::Operator::I32GtS,
        Operator::I32GtU => model::Operator::I32GtU,
        Operator::I32LeS => model::Operator::I32LeS,
        Operator::I32LeU => model::Operator::I32LeU,
        Operator::I32GeS => model::Operator::I32GeS,
        Operator::I32GeU => model::Operator::I32GeU,
        Operator::I64Eqz => model::Operator::I64Eqz,
        Operator::I64Eq => model::Operator::I64Eq,
        Operator::I64Ne => model::Operator::I64Ne,
        Operator::I64LtS => model::Operator::I64LtS,
        Operator::I64LtU => model::Operator::I64LtU,
        Operator::I64GtS => model::Operator::I64GtS,
        Operator::I64GtU => model::Operator::I64GtU,
        Operator::I64LeS => model::Operator::I64LeS,
        Operator::I64LeU => model::Operator::I64LeU,
        Operator::I64GeS => model::Operator::I64GeS,
        Operator::I64GeU => model::Operator::I64GeU,
        Operator::F32Eq => model::Operator::F32Eq,
        Operator::F32Ne => model::Operator::F32Ne,
        Operator::F32Lt => model::Operator::F32Lt,
        Operator::F32Gt => model::Operator::F32Gt,
        Operator::F32Le => model::Operator::F32Le,
        Operator::F32Ge => model::Operator::F32Ge,
        Operator::F64Eq => model::Operator::F64Eq,
        Operator::F64Ne => model::Operator::F64Ne,
        Operator::F64Lt => model::Operator::F64Lt,
        Operator::F64Gt => model::Operator::F64Gt,
        Operator::F64Le => model::Operator::F64Le,
        Operator::F64Ge => model::Operator::F64Ge,
        Operator::I32Clz => model::Operator::I32Clz,
        Operator::I32Ctz => model::Operator::I32Ctz,
        Operator::I32Popcnt => model::Operator::I32Popcnt,
        Operator::I32Add => model::Operator::I32Add,
        Operator::I32Sub => model::Operator::I32Sub,
        Operator::I32Mul => model::Operator::I32Mul,
        Operator::I32DivS => model::Operator::I32DivS,
        Operator::I32DivU => model::Operator::I32DivU,
        Operator::I32RemS => model::Operator::I32RemS,
        Operator::I32RemU => model::Operator::I32RemU,
        Operator::I32And => model::Operator::I32And,
        Operator::I32Or => model::Operator::I32Or,
        Operator::I32Xor => model::Operator::I32Xor,
        Operator::I32Shl => model::Operator::I32Shl,
        Operator::I32ShrS => model::Operator::I32ShrS,
        Operator::I32ShrU => model::Operator::I32ShrU,
        Operator::I32Rotl => model::Operator::I32Rotl,
        Operator::I32Rotr => model::Operator::I32Rotr,
        Operator::I64Clz => model::Operator::I64Clz,
        Operator::I64Ctz => model::Operator::I64Ctz,
        Operator::I64Popcnt => model::Operator::I64Popcnt,
        Operator::I64Add => model::Operator::I64Add,
        Operator::I64Sub => model::Operator::I64Sub,
        Operator::I64Mul => model::Operator::I64Mul,
        Operator::I64DivS => model::Operator::I64DivS,
        Operator::I64DivU => model::Operator::I64DivU,
        Operator::I64RemS => model::Operator::I64RemS,
        Operator::I64RemU => model::Operator::I64RemU,
        Operator::I64And => model::Operator::I64And,
        Operator::I64Or => model::Operator::I64Or,
        Operator::I64Xor => model::Operator::I64Xor,
        Operator::I64Shl => model::Operator::I64Shl,
        Operator::I64ShrS => model::Operator::I64ShrS,
        Operator::I64ShrU => model::Operator::I64ShrU,
        Operator::I64Rotl => model::Operator::I64Rotl,
        Operator::I64Rotr => model::Operator::I64Rotr,
        Operator::F32Abs => model::Operator::F32Abs,
        Operator::F32Neg => model::Operator::F32Neg,
        Operator::F32Ceil => model::Operator::F32Ceil,
        Operator::F32Floor => model::Operator::F32Floor,
        Operator::F32Trunc => model::Operator::F32Trunc,
        Operator::F32Nearest => model::Operator::F32Nearest,
        Operator::F32Sqrt => model::Operator::F32Sqrt,
        Operator::F32Add => model::Operator::F32Add,
        Operator::F32Sub => model::Operator::F32Sub,
        Operator::F32Mul => model::Operator::F32Mul,
        Operator::F32Div => model::Operator::F32Div,
        Operator::F32Min => model::Operator::F32Min,
        Operator::F32Max => model::Operator::F32Max,
        Operator::F32Copysign => model::Operator::F32Copysign,
        Operator::F64Abs => model::Operator::F64Abs,
        Operator::F64Neg => model::Operator::F64Neg,
        Operator::F64Ceil => model::Operator::F64Ceil,
        Operator::F64Floor => model::Operator::F64Floor,
        Operator::F64Trunc => model::Operator::F64Trunc,
        Operator::F64Nearest => model::Operator::F64Nearest,
        Operator::F64Sqrt => model::Operator::F64Sqrt,
        Operator::F64Add => model::Operator::F64Add,
        Operator::F64Sub => model::Operator::F64Sub,
        Operator::F64Mul => model::Operator::F64Mul,
        Operator::F64Div => model::Operator::F64Div,
        Operator::F64Min => model::Operator::F64Min,
        Operator::F64Max => model::Operator::F64Max,
        Operator::F64Copysign => model::Operator::F64Copysign,
        Operator::I32WrapI64 => model::Operator::I32WrapI64,
        Operator::I32TruncF32S => model::Operator::I32TruncF32S,
        Operator::I32TruncF32U => model::Operator::I32TruncF32U,
        Operator::I32TruncF64S => model::Operator::I32TruncF64S,
        Operator::I32TruncF64U => model::Operator::I32TruncF64U,
        Operator::I64ExtendI32S => model::Operator::I64ExtendI32S,
        Operator::I64ExtendI32U => model::Operator::I64ExtendI32U,
        Operator::F32ConvertI32S => model::Operator::F32ConvertI32S,
        Operator::F32ConvertI32U => model::Operator::F32ConvertI32U,
        Operator::F32DemoteF64 => model::Operator::F32DemoteF64,
        Operator::F64ConvertI32S => model::Operator::F64ConvertI32S,
        Operator::F64ConvertI32U => model::Operator::F64ConvertI32U,
        Operator::F64PromoteF32 => model::Operator::F64PromoteF32,
        Operator::I32Extend8S => model::Operator::I32Extend8S,
        _ => return None,
    })
}

fn text<E: std::fmt::Display>(error: E) -> String {
    format!("{}", error)
}

fn decode(wasm_bytes: &[u8]) -> Result<model::Sections, String> {
    let mut sections = model::Sections {
        types: Vec::new(),
        imports: Vec::new(),
        functions: Vec::new(),
        start: None,
        memories: Vec::new(),
        globals: Vec::new(),
        code: Vec::new(),
    };
    for payload in Parser::new(0).parse_all(wasm_bytes) {
        match payload.map_err(text)? {
            Payload::TypeSection(types) => {
                for rec_group in types {
                    for sub_type in rec_group.map_err(text)?.into_types() {
                        if let CompositeInnerType::Func(func_type) = &sub_type.composite_type.inner {
                            sections.types.push(model::FuncType::new(
                                val_types(func_type.params()),
                                val_types(func_type.results()),
                            ));
                        }
                    }
                }
            }
            Payload::ImportSection(imports) => {
                for import in imports.into_imports() {
                    let import = import.map_err(text)?;
                    sections.imports.push(model::Import {
                        name: import.name.to_string(),
                        is_function: matches!(import.ty, TypeRef::Func(_)),
                    });
                }
            }
            Payload::FunctionSection(functions) => {
                for type_index in functions {
                    sections.functions.push(type_index.map_err(text)?);
                }
            }
            Payload::StartSection { func, .. } => {
                sections.start = Some(func);
            }
            Payload::MemorySection(memories) => {
                for memory in memories {
                    let memory = memory.map_err(text)?;
                    sections.memories.push(model::MemoryType {
                        memory64: memory.memory64,
                        shared: memory.shared,
                        initial: memory.initial,
                        maximum: memory.maximum,
                        page_size_log2: memory.page_size_log2,
                    });
                }
            }
            Payload::GlobalSection(globals) => {
                for global in globals {
                    let ty = global.map_err(text)?.ty;
                    sections.globals.push(model::WasmGlobal {
                        global_type: model::GlobalType {
                            content_type: val_type(ty.content_type),
                            mutable: ty.mutable,
                            shared: ty.shared,
                        },
                    });
                }
            }
            Payload::CodeSectionEntry(body) => {
                let mut locals = Vec::new();
                for local in body.get_locals_reader().map_err(text)? {
                    let (count, ty) = local.map_err(text)?;
                    locals.push((count, val_type(ty)));
                }
                let mut operators = Vec::new();
                for op in body.get_operators_reader().map_err(text)?.into_iter_with_offsets() {
                    let (op, offset) = op.map_err(text)?;
                    operators.push(match operator(op) {
                        Some(op) => op,
                        None => model::Operator::Unmodeled {
                            opcode: opcode_at(wasm_bytes, offset),
                        },
                    });
                }
                sections.code.push(model::CodeBody { locals, operators });
            }
            _ => {}
        }
    }
    Ok(sections)
}

fn parse(wasm_bytes: &[u8]) -> Result<WasmModule, String> {
    Ok(WasmModule::from_sections(&decode(wasm_bytes)?))
}

fn sample() -> Vec<u8> {
    vec![
        0x00, 0x61, 0x73, 0x6d, 0x01, 0x00, 0x00, 0x00, 0x01, 0x0a, 0x02, 0x60, 0x02, 0x7f,
        0x7f, 0x01, 0x7f, 0x60, 0x00, 0x00, 0x03, 0x03, 0x02, 0x00, 0x01, 0x08, 0x01, 0x01,
        0x0a, 0x1b, 0x02, 0x07, 0x00, 0x20, 0x00, 0x20, 0x01, 0x6a, 0x0b, 0x11, 0x00, 0x41,
        0x0a, 0x41, 0x05, 0x6a, 0x41, 0x02, 0x6c, 0x41, 0x03, 0x6d, 0x41, 0x01, 0x6b, 0x1a,
        0x0b,
    ]
}

#[test]
fn test_parse_simple_wasm() {
    let wasm_bytes = [0x00, 0x61, 0x73, 0x6d, 0x01, 0x00, 0x00, 0x00];

    let result = parse(&wasm_bytes);
    assert!(result.is_ok());

    let module = result.unwrap();
    assert!(module.functions.is_empty());
    assert!(module.start_func_idx.is_none());
    assert!(module.memories.is_empty());
    assert!(!module.has_putchar_import);
}

#[test]
fn test_parse_function_with_i32_const() {
    let wasm_bytes = vec![
        0x00, 0x61, 0x73, 0x6d, 0x01, 0x00, 0x00, 0x00, 0x01, 0x0a, 0x02, 0x60, 0x02, 0x7f,
        0x7f, 0x01, 0x7f, 0x60, 0x00, 0x00, 0x03, 0x03, 0x02, 0x00, 0x01, 0x08, 0x01, 0x01,
        0x0a, 0x1b, 0x02, 0x07, 0x00, 0x20, 0x00, 0x20, 0x01, 0x6a, 0x0b, 0x11, 0x00, 0x41,
        0x0a, 0x41, 0x05, 0x6a, 0x41, 0x02, 0x6c, 0x41, 0x03, 0x6d, 0x41, 0x01, 0x6b, 0x1a,
        0x0b,
    ];

    let result = parse(&wasm_bytes);
    assert!(result.is_ok());

    let module = result.unwrap();
    assert!(!module.functions.is_empty());
    assert!(module.start_func_idx.is_some());
}

#[test]
fn test_function_body_operators() {
    let wasm_bytes = vec![
        0x00, 0x61, 0x73, 0x6d, 0x01, 0x00, 0x00, 0x00, 0x01, 0x0a, 0x02, 0x60, 0x02, 0x7f,
        0x7f, 0x01, 0x7f, 0x60, 0x00, 0x00, 0x03, 0x03, 0x02, 0x00, 0x01, 0x08, 0x01, 0x01,
        0x0a, 0x1b, 0x02, 0x07, 0x00, 0x20, 0x00, 0x20, 0x01, 0x6a, 0x0b, 0x11, 0x00, 0x41,
        0x0a, 0x41, 0x05, 0x6a, 0x41, 0x02, 0x6c, 0x41, 0x03, 0x6d, 0x41, 0x01, 0x6b, 0x1a,
        0x0b,
    ];
    let module = parse(&wasm_bytes).unwrap();

    if let Some(function) = module.functions.first() {
        assert!(!function.body.operators.is_empty());

        let has_const_or_add = function
            .body
            .operators
            .iter()
            .any(|op| matches!(op, model::Operator::I32Const { .. } | model::Operator::I32Add));
        assert!(has_const_or_add);
    }
}

#[test]
fn test_start_function_detection() {
    let wasm_bytes = vec![
        0x00, 0x61, 0x73, 0x6d, 0x01, 0x00, 0x00, 0x00, 0x01, 0x0a, 0x02, 0x60, 0x02, 0x7f,
        0x7f, 0x01, 0x7f, 0x60, 0x00, 0x00, 0x03, 0x03, 0x02, 0x00, 0x01, 0x08, 0x01, 0x01,
        0x0a, 0x1b, 0x02, 0x07, 0x00, 0x20, 0x00, 0x20, 0x01, 0x6a, 0x0b, 0x11, 0x00, 0x41,
        0x0a, 0x41, 0x05, 0x6a, 0x41, 0x02, 0x6c, 0x41, 0x03, 0x6d, 0x41, 0x01, 0x6b, 0x1a,
        0x0b,
    ];
    let module = parse(&wasm_bytes).unwrap();

    assert!(module.start_func_idx.is_some());

    let start_function = module
        .functions
        .iter()
        .find(|f| f.name.as_ref() == Some(&"_start".to_string()));
    assert!(start_function.is_some());
}

#[test]
fn decoded_module_is_assembled_exactly() {
    let module = parse(&sample()).unwrap();
    assert_eq!(module.start_func_idx, Some(1));
    assert_eq!(module.functions.len(), 2);
    let first = &module.functions[0];
    assert_eq!(first.idx, 0);
    assert_eq!(first.name, None);
    assert_eq!(first.func_type.params, vec![model::ValType::I32, model::ValType::I32]);
    assert_eq!(first.func_type.results, vec![model::ValType::I32]);
    assert!(first.body.locals.is_empty());
    assert_eq!(
        first.body.operators,
        vec![
            model::Operator::LocalGet { local_index: 0 },
            model::Operator::LocalGet { local_index: 1 },
            model::Operator::I32Add,
            model::Operator::End,
        ]
    );
    let second = &module.functions[1];
    assert_eq!(second.idx, 1);
    assert_eq!(second.name, Some("_start".to_string()));
    assert!(second.func_type.params.is_empty());
    assert!(second.func_type.results.is_empty());
    assert_eq!(
        second.body.operators,
        vec![
            model::Operator::I32Const { value: 10 },
            model::Operator::I32Const { value: 5 },
            model::Operator::I32Add,
            model::Operator::I32Const { value: 2 },
            model::Operator::I32Mul,
            model::Operator::I32Const { value: 3 },
            model::Operator::I32DivS,
            model::Operator::I32Const { value: 1 },
            model::Operator::I32Sub,
            model::Operator::Drop,
            model::Operator::End,
        ]
    );
}

#[test]
fn decoded_module_is_lowered_and_runs() {
    let module = parse(&sample()).unwrap();
    let mut compiler = Compiler::new("wasm_aot").unwrap();
    assert_eq!(compiler.compile_module(&module), Ok(()));
    let names: Vec<&str> = compiler.functions.iter().map(|f| f.name.as_str()).collect();
    assert_eq!(names, vec!["func_0", "_start", "main"]);
    assert_eq!(
        run_function(&compiler.functions[0], vec![3, 4], vec![], 100),
        Outcome::Returned { value: Some(7) }
    );
    assert_eq!(
        run_function(&compiler.functions[1], vec![], vec![], 100),
        Outcome::Returned { value: None }
    );
}

#[test]
fn truncated_module_is_rejected() {
    let mut bytes = sample();
    bytes.truncate(30);
    assert!(parse(&bytes).is_err());
    assert!(parse(&[0x00, 0x61, 0x73]).is_err());
}

fn module_with_body(body: &[u8]) -> Vec<u8> {
    let mut bytes = vec![
        0x00, 0x61, 0x73, 0x6d, 0x01, 0x00, 0x00, 0x00, // header
        0x01, 0x04, 0x01, 0x60, 0x00, 0x00, // one type: () -> ()
        0x03, 0x02, 0x01, 0x00, // one function of that type
        0x0a,
    ];
    bytes.push(body.len() as u8 + 2);
    bytes.push(0x01);
    bytes.push(body.len() as u8);
    bytes.extend_from_slice(body);
    bytes
}

#[test]
fn operators_outside_the_modeled_set_are_handed_on_and_rejected() {
    // no locals; nop; end
    let module = parse(&module_with_body(&[0x00, 0x01, 0x0b])).unwrap();
    assert_eq!(
        module.functions[0].body.operators,
        vec![model::Operator::Unmodeled { opcode: 0x01 }, model::Operator::End]
    );
    let mut compiler = Compiler::new("m").unwrap();
    assert_eq!(
        compiler.compile_module(&module),
        Err(auto_parallel_wasm::CompileError::UnsupportedOperator { opcode: 0x01 })
    );
}

#[test]
fn other_value_types_are_kept_and_rejected_by_the_lowering() {
    // one local of the type funcref; end
    let module = parse(&module_with_body(&[0x01, 0x01, 0x70, 0x0b])).unwrap();
    assert_eq!(module.functions[0].body.locals, vec![model::ValType::Ref]);
    let mut compiler = Compiler::new("m").unwrap();
    assert_eq!(
        compiler.compile_module(&module),
        Err(auto_parallel_wasm::CompileError::StructuralError(
            auto_parallel_wasm::error::StructuralError::UnsupportedType
        ))
    );
    assert!(compiler.functions.is_empty());
}
