use auto_parallel_wasm::compiler::Compiler;
use auto_parallel_wasm::wasm_parser::{
    AbstractHeapType, FuncType, Function, FunctionBody, GlobalType, HeapType, Ieee32, Ieee64,
    MemArg, MemoryType, Operator, ValType, WasmGlobal, WasmModule,
};

fn create_simple_function(idx: u32, operators: Vec<Operator>) -> Function {
    Function {
        idx,
        name: None,
        func_type: FuncType::new(vec![], vec![]),
        body: FunctionBody {
            locals: vec![],
            operators,
        },
    }
}

#[test]
fn test_compiler_creation() {
    let result = Compiler::new("test_module");
    assert!(result.is_ok());
}

#[test]
fn test_val_type_conversion() {
    let _compiler = Compiler::new("test").unwrap();

    let i32_type = ValType::I32.to_ir_type();
    assert!(i32_type.is_int_type());

    let i64_type = ValType::I64.to_ir_type();
    assert!(i64_type.is_int_type());

    let f32_type = ValType::F32.to_ir_type();
    assert!(f32_type.is_float_type());

    let f64_type = ValType::F64.to_ir_type();
    assert!(f64_type.is_float_type());
}

#[test]
fn test_compile_empty_function() {
    let mut compiler = Compiler::new("test").unwrap();

    let function = create_simple_function(0, vec![Operator::End]);
    let result = compiler.compile_function(&function);
    assert!(result.is_ok());
}

#[test]
fn test_compile_function_with_i32_const() {
    let mut compiler = Compiler::new("test").unwrap();

    let operators = vec![
        Operator::I32Const { value: 42 },
        Operator::Drop,
        Operator::End,
    ];

    let function = create_simple_function(0, operators);
    let result = compiler.compile_function(&function);
    assert!(result.is_ok());
}

#[test]
fn test_compile_function_with_arithmetic() {
    let mut compiler = Compiler::new("test").unwrap();

    let operators = vec![
        Operator::I32Const { value: 10 },
        Operator::I32Const { value: 5 },
        Operator::I32Add,
        Operator::Drop,
        Operator::End,
    ];

    let function = create_simple_function(0, operators);
    let result = compiler.compile_function(&function);
    assert!(result.is_ok());
}

#[test]
fn test_compile_function_with_all_arithmetic_ops() {
    let mut compiler = Compiler::new("test").unwrap();

    let operators = vec![
        Operator::I32Const { value: 20 },
        Operator::I32Const { value: 4 },
        Operator::I32Add,
        Operator::I32Const { value: 2 },
        Operator::I32Sub,
        Operator::I32Const { value: 3 },
        Operator::I32Mul,
        Operator::I32Const { value: 6 },
        Operator::I32DivS,
        Operator::Drop,
        Operator::End,
    ];

    let function = create_simple_function(0, operators);
    let result = compiler.compile_function(&function);
    assert!(result.is_ok());
}

#[test]
fn test_compile_empty_module() {
    let mut compiler = Compiler::new("test").unwrap();

    let module = WasmModule {
        functions: vec![],
        start_func_idx: None,
        memories: vec![],
        has_putchar_import: false,
        globals: vec![],
    };

    let result = compiler.compile_module(&module);
    assert!(result.is_ok());
}

#[test]
fn test_stack_underflow() {
    let mut compiler = Compiler::new("test").unwrap();

    let operators = vec![Operator::I32Add, Operator::End];

    let function = create_simple_function(0, operators);
    let result = compiler.compile_function(&function);
    assert!(result.is_err());
}

#[test]
fn test_compile_module_with_memory() {
    let mut compiler = Compiler::new("test").unwrap();

    let memory_type = MemoryType {
        memory64: false,
        shared: false,
        initial: 1,
        maximum: Some(10),
        page_size_log2: None,
    };

    let module = WasmModule {
        functions: vec![],
        start_func_idx: None,
        memories: vec![memory_type],
        has_putchar_import: false,
        globals: vec![],
    };

    let result = compiler.compile_module(&module);
    assert!(result.is_ok());
    assert!(compiler.memory.is_some());
}

#[test]
fn test_memory_load_store_operations() {
    let mut compiler = Compiler::new("test").unwrap();

    let memory_type = MemoryType {
        memory64: false,
        shared: false,
        initial: 1,
        maximum: Some(10),
        page_size_log2: None,
    };

    compiler.create_memory(&memory_type).unwrap();

    let memarg = MemArg {
        align: 2,
        max_align: 2,
        offset: 0,
        memory: 0,
    };

    let operators = vec![
        Operator::I32Const { value: 0 },
        Operator::I32Const { value: 42 },
        Operator::I32Store { memarg },
        Operator::I32Const { value: 0 },
        Operator::I32Load { memarg },
        Operator::Drop,
        Operator::End,
    ];

    let function = create_simple_function(0, operators);
    let result = compiler.compile_function(&function);
    assert!(result.is_ok());
}

#[test]
fn test_memory_size_operation() {
    let mut compiler = Compiler::new("test").unwrap();

    let memory_type = MemoryType {
        memory64: false,
        shared: false,
        initial: 1,
        maximum: Some(10),
        page_size_log2: None,
    };

    compiler.create_memory(&memory_type).unwrap();

    let operators = vec![
        Operator::MemorySize { mem: 0 },
        Operator::Drop,
        Operator::End,
    ];

    let function = create_simple_function(0, operators);
    let result = compiler.compile_function(&function);
    assert!(result.is_ok());
}

#[test]
fn test_i32_eqz_operation() {
    let mut compiler = Compiler::new("test").unwrap();

    let operators = vec![
        Operator::I32Const { value: 0 },
        Operator::I32Eqz,
        Operator::Drop,
        Operator::End,
    ];

    let function = create_simple_function(0, operators);
    let result = compiler.compile_function(&function);
    assert!(result.is_ok());
}

#[test]
fn test_i32_unsigned_div_rem() {
    let mut compiler = Compiler::new("test").unwrap();

    let operators = vec![
        Operator::I32Const { value: 20 },
        Operator::I32Const { value: 3 },
        Operator::I32DivU,
        Operator::I32Const { value: 20 },
        Operator::I32Const { value: 3 },
        Operator::I32RemU,
        Operator::Drop,
        Operator::Drop,
        Operator::End,
    ];

    let function = create_simple_function(0, operators);
    let result = compiler.compile_function(&function);
    assert!(result.is_ok());
}

#[test]
fn test_i32_unsigned_comparisons() {
    let mut compiler = Compiler::new("test").unwrap();

    let operators = vec![
        Operator::I32Const {
            value: -1i32 as u32 as i32,
        },
        Operator::I32Const { value: 1 },
        Operator::I32LtU,
        Operator::I32Const { value: 1 },
        Operator::I32Const { value: 1 },
        Operator::I32LeU,
        Operator::I32Const {
            value: -1i32 as u32 as i32,
        },
        Operator::I32Const { value: 1 },
        Operator::I32GtU,
        Operator::I32Const { value: 1 },
        Operator::I32Const { value: 1 },
        Operator::I32GeU,
        Operator::Drop,
        Operator::Drop,
        Operator::Drop,
        Operator::Drop,
        Operator::End,
    ];

    let function = create_simple_function(0, operators);
    let result = compiler.compile_function(&function);
    assert!(result.is_ok());
}

#[test]
fn test_i64_arithmetic() {
    let mut compiler = Compiler::new("test").unwrap();

    let operators = vec![
        Operator::I64Const { value: 1000 },
        Operator::I64Const { value: 2000 },
        Operator::I64Add,
        Operator::I64Const { value: 500 },
        Operator::I64Sub,
        Operator::I64Const { value: 2 },
        Operator::I64Mul,
        Operator::Drop,
        Operator::End,
    ];

    let function = create_simple_function(0, operators);
    let result = compiler.compile_function(&function);
    assert!(result.is_ok());
}

#[test]
fn test_i64_div_rem() {
    let mut compiler = Compiler::new("test").unwrap();

    let operators = vec![
        Operator::I64Const { value: 100 },
        Operator::I64Const { value: 3 },
        Operator::I64DivS,
        Operator::I64Const { value: 100 },
        Operator::I64Const { value: 3 },
        Operator::I64DivU,
        Operator::I64Const { value: 100 },
        Operator::I64Const { value: 3 },
        Operator::I64RemS,
        Operator::I64Const { value: 100 },
        Operator::I64Const { value: 3 },
        Operator::I64RemU,
        Operator::Drop,
        Operator::Drop,
        Operator::Drop,
        Operator::Drop,
        Operator::End,
    ];

    let function = create_simple_function(0, operators);
    let result = compiler.compile_function(&function);
    assert!(result.is_ok());
}

#[test]
fn test_i64_comparisons() {
    let mut compiler = Compiler::new("test").unwrap();

    let operators = vec![
        Operator::I64Const { value: 1000 },
        Operator::I64Const { value: 1000 },
        Operator::I64Eq,
        Operator::I64Const { value: 1000 },
        Operator::I64Const { value: 2000 },
        Operator::I64Ne,
        Operator::I64Const { value: 0 },
        Operator::I64Eqz,
        Operator::I64Const { value: -1 },
        Operator::I64Const { value: 1 },
        Operator::I64LtS,
        Operator::I64Const {
            value: -1i64 as u64 as i64,
        },
        Operator::I64Const { value: 1 },
        Operator::I64LtU,
        Operator::Drop,
        Operator::Drop,
        Operator::Drop,
        Operator::Drop,
        Operator::Drop,
        Operator::End,
    ];

    let function = create_simple_function(0, operators);
    let result = compiler.compile_function(&function);
    assert!(result.is_ok());
}

#[test]
fn test_bitwise_operations() {
    let mut compiler = Compiler::new("test").unwrap();

    let operators = vec![
        Operator::I32Const { value: 0x0F0F0F0F },
        Operator::I32Const {
            value: 0xF0F0F0F0u32 as i32,
        },
        Operator::I32And,
        Operator::I32Const { value: 0x0F0F0F0F },
        Operator::I32Const {
            value: 0xF0F0F0F0u32 as i32,
        },
        Operator::I32Or,
        Operator::I32Const { value: 0x0F0F0F0F },
        Operator::I32Const {
            value: 0xF0F0F0F0u32 as i32,
        },
        Operator::I32Xor,
        Operator::I64Const {
            value: 0x0F0F0F0F0F0F0F0F,
        },
        Operator::I64Const {
            value: 0xF0F0F0F0F0F0F0F0u64 as i64,
        },
        Operator::I64And,
        Operator::Drop,
        Operator::Drop,
        Operator::Drop,
        Operator::Drop,
        Operator::End,
    ];

    let function = create_simple_function(0, operators);
    let result = compiler.compile_function(&function);
    assert!(result.is_ok());
}

#[test]
fn test_shift_operations() {
    let mut compiler = Compiler::new("test").unwrap();

    let operators = vec![
        Operator::I32Const { value: 1 },
        Operator::I32Const { value: 4 },
        Operator::I32Shl,
        Operator::I32Const { value: -16 },
        Operator::I32Const { value: 2 },
        Operator::I32ShrS,
        Operator::I32Const { value: -16 },
        Operator::I32Const { value: 2 },
        Operator::I32ShrU,
        Operator::I64Const { value: 1 },
        Operator::I64Const { value: 32 },
        Operator::I64Shl,
        Operator::Drop,
        Operator::Drop,
        Operator::Drop,
        Operator::Drop,
        Operator::End,
    ];

    let function = create_simple_function(0, operators);
    let result = compiler.compile_function(&function);
    assert!(result.is_ok());
}

#[test]
fn test_rotate_operations() {
    let mut compiler = Compiler::new("test").unwrap();

    let operators = vec![
        Operator::I32Const { value: 0x12345678 },
        Operator::I32Const { value: 4 },
        Operator::I32Rotl,
        Operator::I32Const { value: 0x12345678 },
        Operator::I32Const { value: 4 },
        Operator::I32Rotr,
        Operator::I64Const {
            value: 0x123456789ABCDEF0u64 as i64,
        },
        Operator::I64Const { value: 8 },
        Operator::I64Rotl,
        Operator::I64Const {
            value: 0x123456789ABCDEF0u64 as i64,
        },
        Operator::I64Const { value: 8 },
        Operator::I64Rotr,
        Operator::Drop,
        Operator::Drop,
        Operator::Drop,
        Operator::Drop,
        Operator::End,
    ];

    let function = create_simple_function(0, operators);
    let result = compiler.compile_function(&function);
    assert!(result.is_ok());
}

#[test]
fn test_i32_eqz_comprehensive() {
    let mut compiler = Compiler::new("test").unwrap();

    let operators = vec![
        Operator::I32Const { value: 0 },
        Operator::I32Eqz,
        Operator::I32Const { value: 42 },
        Operator::I32Eqz,
        Operator::I32Const { value: -1 },
        Operator::I32Eqz,
        Operator::Drop,
        Operator::Drop,
        Operator::Drop,
        Operator::End,
    ];

    let function = create_simple_function(0, operators);
    let result = compiler.compile_function(&function);
    assert!(result.is_ok());
}

#[test]
fn test_i64_eqz_comprehensive() {
    let mut compiler = Compiler::new("test").unwrap();

    let operators = vec![
        Operator::I64Const { value: 0 },
        Operator::I64Eqz,
        Operator::I64Const {
            value: 9223372036854775807,
        },
        Operator::I64Eqz,
        Operator::I64Const { value: -1 },
        Operator::I64Eqz,
        Operator::Drop,
        Operator::Drop,
        Operator::Drop,
        Operator::End,
    ];

    let function = create_simple_function(0, operators);
    let result = compiler.compile_function(&function);
    assert!(result.is_ok());
}

#[test]
fn test_all_i32_comparison_operations() {
    let mut compiler = Compiler::new("test").unwrap();

    let operators = vec![
        Operator::I32Const { value: 10 },
        Operator::I32Const { value: 20 },
        Operator::I32Eq,
        Operator::I32Const { value: 10 },
        Operator::I32Const { value: 20 },
        Operator::I32Ne,
        Operator::I32Const { value: 10 },
        Operator::I32Const { value: 20 },
        Operator::I32LtS,
        Operator::I32Const { value: 10 },
        Operator::I32Const { value: 20 },
        Operator::I32LeS,
        Operator::I32Const { value: 20 },
        Operator::I32Const { value: 10 },
        Operator::I32GtS,
        Operator::I32Const { value: 20 },
        Operator::I32Const { value: 10 },
        Operator::I32GeS,
        Operator::Drop,
        Operator::Drop,
        Operator::Drop,
        Operator::Drop,
        Operator::Drop,
        Operator::Drop,
        Operator::End,
    ];

    let function = create_simple_function(0, operators);
    let result = compiler.compile_function(&function);
    assert!(result.is_ok());
}

#[test]
fn test_all_i64_comparison_operations() {
    let mut compiler = Compiler::new("test").unwrap();

    let operators = vec![
        Operator::I64Const { value: 1000 },
        Operator::I64Const { value: 2000 },
        Operator::I64Eq,
        Operator::I64Const { value: 1000 },
        Operator::I64Const { value: 2000 },
        Operator::I64Ne,
        Operator::I64Const { value: 1000 },
        Operator::I64Const { value: 2000 },
        Operator::I64LtS,
        Operator::I64Const { value: 1000 },
        Operator::I64Const { value: 2000 },
        Operator::I64LeS,
        Operator::I64Const { value: 2000 },
        Operator::I64Const { value: 1000 },
        Operator::I64GtS,
        Operator::I64Const { value: 2000 },
        Operator::I64Const { value: 1000 },
        Operator::I64GeS,
        Operator::I64Const { value: 1000 },
        Operator::I64Const { value: 2000 },
        Operator::I64LtU,
        Operator::I64Const { value: 1000 },
        Operator::I64Const { value: 2000 },
        Operator::I64LeU,
        Operator::I64Const { value: 2000 },
        Operator::I64Const { value: 1000 },
        Operator::I64GtU,
        Operator::I64Const { value: 2000 },
        Operator::I64Const { value: 1000 },
        Operator::I64GeU,
        Operator::Drop,
        Operator::Drop,
        Operator::Drop,
        Operator::Drop,
        Operator::Drop,
        Operator::Drop,
        Operator::Drop,
        Operator::Drop,
        Operator::Drop,
        Operator::Drop,
        Operator::End,
    ];

    let function = create_simple_function(0, operators);
    let result = compiler.compile_function(&function);
    assert!(result.is_ok());
}

#[test]
fn test_all_i32_bitwise_operations() {
    let mut compiler = Compiler::new("test").unwrap();

    let operators = vec![
        Operator::I32Const { value: 0x0F0F0F0F },
        Operator::I32Const {
            value: 0xF0F0F0F0u32 as i32,
        },
        Operator::I32And,
        Operator::I32Const { value: 0x0F0F0F0F },
        Operator::I32Const {
            value: 0xF0F0F0F0u32 as i32,
        },
        Operator::I32Or,
        Operator::I32Const { value: 0x0F0F0F0F },
        Operator::I32Const {
            value: 0xF0F0F0F0u32 as i32,
        },
        Operator::I32Xor,
        Operator::I32Const { value: 1 },
        Operator::I32Const { value: 4 },
        Operator::I32Shl,
        Operator::I32Const { value: -16 },
        Operator::I32Const { value: 2 },
        Operator::I32ShrS,
        Operator::I32Const { value: -16 },
        Operator::I32Const { value: 2 },
        Operator::I32ShrU,
        Operator::I32Const { value: 0x12345678 },
        Operator::I32Const { value: 4 },
        Operator::I32Rotl,
        Operator::I32Const { value: 0x12345678 },
        Operator::I32Const { value: 4 },
        Operator::I32Rotr,
        Operator::Drop,
        Operator::Drop,
        Operator::Drop,
        Operator::Drop,
        Operator::Drop,
        Operator::Drop,
        Operator::Drop,
        Operator::Drop,
        Operator::End,
    ];

    let function = create_simple_function(0, operators);
    let result = compiler.compile_function(&function);
    assert!(result.is_ok());
}

#[test]
fn test_all_i64_bitwise_operations() {
    let mut compiler = Compiler::new("test").unwrap();

    let operators = vec![
        Operator::I64Const {
            value: 0x0F0F0F0F0F0F0F0F,
        },
        Operator::I64Const {
            value: 0xF0F0F0F0F0F0F0F0u64 as i64,
        },
        Operator::I64And,
        Operator::I64Const {
            value: 0x0F0F0F0F0F0F0F0F,
        },
        Operator::I64Const {
            value: 0xF0F0F0F0F0F0F0F0u64 as i64,
        },
        Operator::I64Or,
        Operator::I64Const {
            value: 0x0F0F0F0F0F0F0F0F,
        },
        Operator::I64Const {
            value: 0xF0F0F0F0F0F0F0F0u64 as i64,
        },
        Operator::I64Xor,
        Operator::I64Const { value: 1 },
        Operator::I64Const { value: 32 },
        Operator::I64Shl,
        Operator::I64Const { value: -1024 },
        Operator::I64Const { value: 2 },
        Operator::I64ShrS,
        Operator::I64Const { value: -1024 },
        Operator::I64Const { value: 2 },
        Operator::I64ShrU,
        Operator::I64Const {
            value: 0x123456789ABCDEF0u64 as i64,
        },
        Operator::I64Const { value: 8 },
        Operator::I64Rotl,
        Operator::I64Const {
            value: 0x123456789ABCDEF0u64 as i64,
        },
        Operator::I64Const { value: 8 },
        Operator::I64Rotr,
        Operator::Drop,
        Operator::Drop,
        Operator::Drop,
        Operator::Drop,
        Operator::Drop,
        Operator::Drop,
        Operator::Drop,
        Operator::Drop,
        Operator::End,
    ];

    let function = create_simple_function(0, operators);
    let result = compiler.compile_function(&function);
    assert!(result.is_ok());
}

#[test]
fn test_boundary_shift_operations() {
    let mut compiler = Compiler::new("test").unwrap();

    let operators = vec![
        Operator::I32Const { value: 1 },
        Operator::I32Const { value: 32 },
        Operator::I32Shl,
        Operator::I32Const { value: 1 },
        Operator::I32Const { value: 31 },
        Operator::I32Shl,
        Operator::I64Const { value: 1 },
        Operator::I64Const { value: 64 },
        Operator::I64Shl,
        Operator::I64Const { value: 1 },
        Operator::I64Const { value: 63 },
        Operator::I64Shl,
        Operator::Drop,
        Operator::Drop,
        Operator::Drop,
        Operator::Drop,
        Operator::End,
    ];

    let function = create_simple_function(0, operators);
    let result = compiler.compile_function(&function);
    assert!(result.is_ok());
}

#[test]
fn test_overflow_arithmetic() {
    let mut compiler = Compiler::new("test").unwrap();

    let operators = vec![
        Operator::I32Const { value: 2147483647 },
        Operator::I32Const { value: 1 },
        Operator::I32Add,
        Operator::I32Const { value: -2147483648 },
        Operator::I32Const { value: 1 },
        Operator::I32Sub,
        Operator::I64Const {
            value: 9223372036854775807,
        },
        Operator::I64Const { value: 1 },
        Operator::I64Add,
        Operator::I64Const {
            value: -9223372036854775808,
        },
        Operator::I64Const { value: 1 },
        Operator::I64Sub,
        Operator::Drop,
        Operator::Drop,
        Operator::Drop,
        Operator::Drop,
        Operator::End,
    ];

    let function = create_simple_function(0, operators);
    let result = compiler.compile_function(&function);
    assert!(result.is_ok());
}

#[test]
fn test_comprehensive_instruction_coverage() {
    let mut compiler = Compiler::new("test").unwrap();

    let operators = vec![
        Operator::I32Const { value: 100 },
        Operator::I32Const { value: 3 },
        Operator::I32RemS,
        Operator::I32Const { value: 100 },
        Operator::I32Const { value: 3 },
        Operator::I32RemU,
        Operator::I64Const { value: 100 },
        Operator::I64Const { value: 3 },
        Operator::I64RemS,
        Operator::I64Const { value: 100 },
        Operator::I64Const { value: 3 },
        Operator::I64RemU,
        Operator::Drop,
        Operator::Drop,
        Operator::Drop,
        Operator::Drop,
        Operator::End,
    ];

    let function = create_simple_function(0, operators);
    let result = compiler.compile_function(&function);
    assert!(result.is_ok());
}

#[test]
fn test_float_const_operations() {
    let mut compiler = Compiler::new("test").unwrap();

    let f32_value = std::f32::consts::PI;
    let f64_value = std::f64::consts::E;

    let operators = vec![
        Operator::F32Const {
            value: Ieee32::from_bits(f32_value.to_bits()),
        },
        Operator::Drop,
        Operator::F64Const {
            value: Ieee64::from_bits(f64_value.to_bits()),
        },
        Operator::Drop,
        Operator::End,
    ];

    let function = create_simple_function(0, operators);
    let result = compiler.compile_function(&function);
    assert!(result.is_ok());
}

#[test]
fn test_f32_arithmetic_operations() {
    let mut compiler = Compiler::new("test").unwrap();

    let f32_value_1 = 10.5f32;
    let f32_value_2 = 2.5f32;

    let operators = vec![
        Operator::F32Const {
            value: Ieee32::from_bits(f32_value_1.to_bits()),
        },
        Operator::F32Const {
            value: Ieee32::from_bits(f32_value_2.to_bits()),
        },
        Operator::F32Add,
        Operator::F32Const {
            value: Ieee32::from_bits(f32_value_1.to_bits()),
        },
        Operator::F32Const {
            value: Ieee32::from_bits(f32_value_2.to_bits()),
        },
        Operator::F32Sub,
        Operator::F32Const {
            value: Ieee32::from_bits(f32_value_1.to_bits()),
        },
        Operator::F32Const {
            value: Ieee32::from_bits(f32_value_2.to_bits()),
        },
        Operator::F32Mul,
        Operator::F32Const {
            value: Ieee32::from_bits(f32_value_1.to_bits()),
        },
        Operator::F32Const {
            value: Ieee32::from_bits(f32_value_2.to_bits()),
        },
        Operator::F32Div,
        Operator::Drop,
        Operator::Drop,
        Operator::Drop,
        Operator::Drop,
        Operator::End,
    ];

    let function = create_simple_function(0, operators);
    let result = compiler.compile_function(&function);
    assert!(result.is_ok());
}

#[test]
fn test_f64_arithmetic_operations() {
    let mut compiler = Compiler::new("test").unwrap();

    let f64_value_1 = 10.5f64;
    let f64_value_2 = 2.5f64;

    let operators = vec![
        Operator::F64Const {
            value: Ieee64::from_bits(f64_value_1.to_bits()),
        },
        Operator::F64Const {
            value: Ieee64::from_bits(f64_value_2.to_bits()),
        },
        Operator::F64Add,
        Operator::F64Const {
            value: Ieee64::from_bits(f64_value_1.to_bits()),
        },
        Operator::F64Const {
            value: Ieee64::from_bits(f64_value_2.to_bits()),
        },
        Operator::F64Sub,
        Operator::F64Const {
            value: Ieee64::from_bits(f64_value_1.to_bits()),
        },
        Operator::F64Const {
            value: Ieee64::from_bits(f64_value_2.to_bits()),
        },
        Operator::F64Mul,
        Operator::F64Const {
            value: Ieee64::from_bits(f64_value_1.to_bits()),
        },
        Operator::F64Const {
            value: Ieee64::from_bits(f64_value_2.to_bits()),
        },
        Operator::F64Div,
        Operator::Drop,
        Operator::Drop,
        Operator::Drop,
        Operator::Drop,
        Operator::End,
    ];

    let function = create_simple_function(0, operators);
    let result = compiler.compile_function(&function);
    assert!(result.is_ok());
}

#[test]
fn test_f32_comparison_operations() {
    let mut compiler = Compiler::new("test").unwrap();

    let f32_value_1 = 10.5f32;
    let f32_value_2 = 2.5f32;

    let operators = vec![
        Operator::F32Const {
            value: Ieee32::from_bits(f32_value_1.to_bits()),
        },
        Operator::F32Const {
            value: Ieee32::from_bits(f32_value_2.to_bits()),
        },
        Operator::F32Eq,
        Operator::F32Const {
            value: Ieee32::from_bits(f32_value_1.to_bits()),
        },
        Operator::F32Const {
            value: Ieee32::from_bits(f32_value_2.to_bits()),
        },
        Operator::F32Ne,
        Operator::F32Const {
            value: Ieee32::from_bits(f32_value_1.to_bits()),
        },
        Operator::F32Const {
            value: Ieee32::from_bits(f32_value_2.to_bits()),
        },
        Operator::F32Lt,
        Operator::F32Const {
            value: Ieee32::from_bits(f32_value_1.to_bits()),
        },
        Operator::F32Const {
            value: Ieee32::from_bits(f32_value_2.to_bits()),
        },
        Operator::F32Gt,
        Operator::F32Const {
            value: Ieee32::from_bits(f32_value_1.to_bits()),
        },
        Operator::F32Const {
            value: Ieee32::from_bits(f32_value_2.to_bits()),
        },
        Operator::F32Le,
        Operator::F32Const {
            value: Ieee32::from_bits(f32_value_1.to_bits()),
        },
        Operator::F32Const {
            value: Ieee32::from_bits(f32_value_2.to_bits()),
        },
        Operator::F32Ge,
        Operator::Drop,
        Operator::Drop,
        Operator::Drop,
        Operator::Drop,
        Operator::Drop,
        Operator::Drop,
        Operator::End,
    ];

    let function = create_simple_function(0, operators);
    let result = compiler.compile_function(&function);
    assert!(result.is_ok());
}

#[test]
fn test_f64_comparison_operations() {
    let mut compiler = Compiler::new("test").unwrap();

    let f64_value_1 = 10.5f64;
    let f64_value_2 = 2.5f64;

    let operators = vec![
        Operator::F64Const {
            value: Ieee64::from_bits(f64_value_1.to_bits()),
        },
        Operator::F64Const {
            value: Ieee64::from_bits(f64_value_2.to_bits()),
        },
        Operator::F64Eq,
        Operator::F64Const {
            value: Ieee64::from_bits(f64_value_1.to_bits()),
        },
        Operator::F64Const {
            value: Ieee64::from_bits(f64_value_2.to_bits()),
        },
        Operator::F64Ne,
        Operator::F64Const {
            value: Ieee64::from_bits(f64_value_1.to_bits()),
        },
        Operator::F64Const {
            value: Ieee64::from_bits(f64_value_2.to_bits()),
        },
        Operator::F64Lt,
        Operator::F64Const {
            value: Ieee64::from_bits(f64_value_1.to_bits()),
        },
        Operator::F64Const {
            value: Ieee64::from_bits(f64_value_2.to_bits()),
        },
        Operator::F64Gt,
        Operator::F64Const {
            value: Ieee64::from_bits(f64_value_1.to_bits()),
        },
        Operator::F64Const {
            value: Ieee64::from_bits(f64_value_2.to_bits()),
        },
        Operator::F64Le,
        Operator::F64Const {
            value: Ieee64::from_bits(f64_value_1.to_bits()),
        },
        Operator::F64Const {
            value: Ieee64::from_bits(f64_value_2.to_bits()),
        },
        Operator::F64Ge,
        Operator::Drop,
        Operator::Drop,
        Operator::Drop,
        Operator::Drop,
        Operator::Drop,
        Operator::Drop,
        Operator::End,
    ];

    let function = create_simple_function(0, operators);
    let result = compiler.compile_function(&function);
    assert!(result.is_ok());
}

#[test]
fn test_i32_wrap_i64() {
    let mut compiler = Compiler::new("test").unwrap();

    let operators = vec![
        Operator::I64Const {
            value: 0x123456789ABCDEF0u64 as i64,
        },
        Operator::I32WrapI64,
        Operator::Drop,
        Operator::End,
    ];

    let function = create_simple_function(0, operators);
    let result = compiler.compile_function(&function);
    assert!(result.is_ok());
}

#[test]
fn test_i64_extend_i32() {
    let mut compiler = Compiler::new("test").unwrap();

    let operators = vec![
        Operator::I32Const { value: -1 },
        Operator::I64ExtendI32S,
        Operator::I32Const { value: -1 },
        Operator::I64ExtendI32U,
        Operator::Drop,
        Operator::Drop,
        Operator::End,
    ];

    let function = create_simple_function(0, operators);
    let result = compiler.compile_function(&function);
    assert!(result.is_ok());
}

#[test]
fn test_float_convert_from_int() {
    let mut compiler = Compiler::new("test").unwrap();

    let operators = vec![
        Operator::I32Const { value: -42 },
        Operator::F32ConvertI32S,
        Operator::I32Const { value: 42 },
        Operator::F32ConvertI32U,
        Operator::I32Const { value: -42 },
        Operator::F64ConvertI32S,
        Operator::I32Const { value: 42 },
        Operator::F64ConvertI32U,
        Operator::Drop,
        Operator::Drop,
        Operator::Drop,
        Operator::Drop,
        Operator::End,
    ];

    let function = create_simple_function(0, operators);
    let result = compiler.compile_function(&function);
    assert!(result.is_ok());
}

#[test]
fn test_int_trunc_from_float() {
    let mut compiler = Compiler::new("test").unwrap();

    let operators = vec![
        Operator::F32Const {
            value: Ieee32::from_bits((-42.7f32).to_bits()),
        },
        Operator::I32TruncF32S,
        Operator::F32Const {
            value: Ieee32::from_bits(42.7f32.to_bits()),
        },
        Operator::I32TruncF32U,
        Operator::F64Const {
            value: Ieee64::from_bits((-42.7f64).to_bits()),
        },
        Operator::I32TruncF64S,
        Operator::F64Const {
            value: Ieee64::from_bits(42.7f64.to_bits()),
        },
        Operator::I32TruncF64U,
        Operator::Drop,
        Operator::Drop,
        Operator::Drop,
        Operator::Drop,
        Operator::End,
    ];

    let function = create_simple_function(0, operators);
    let result = compiler.compile_function(&function);
    assert!(result.is_ok());
}

#[test]
fn test_float_promotion_demotion() {
    let mut compiler = Compiler::new("test").unwrap();

    let operators = vec![
        Operator::F32Const {
            value: Ieee32::from_bits(std::f32::consts::PI.to_bits()),
        },
        Operator::F64PromoteF32,
        Operator::F64Const {
            value: Ieee64::from_bits(std::f64::consts::E.to_bits()),
        },
        Operator::F32DemoteF64,
        Operator::Drop,
        Operator::Drop,
        Operator::End,
    ];

    let function = create_simple_function(0, operators);
    let result = compiler.compile_function(&function);
    assert!(result.is_ok());
}

#[test]
fn test_type_conversion_boundary_values() {
    let mut compiler = Compiler::new("test").unwrap();

    let operators = vec![
        Operator::I64Const { value: i64::MAX },
        Operator::I32WrapI64,
        Operator::I32Const { value: i32::MAX },
        Operator::I64ExtendI32S,
        Operator::I32Const { value: i32::MAX },
        Operator::I64ExtendI32U,
        Operator::Drop,
        Operator::Drop,
        Operator::Drop,
        Operator::End,
    ];

    let function = create_simple_function(0, operators);
    let result = compiler.compile_function(&function);
    assert!(result.is_ok());
}

#[test]
fn test_comprehensive_type_conversions() {
    let mut compiler = Compiler::new("test").unwrap();

    let operators = vec![
        Operator::I32Const { value: 42 },
        Operator::F32ConvertI32S,
        Operator::F64PromoteF32,
        Operator::I32TruncF64S,
        Operator::I64ExtendI32S,
        Operator::I32WrapI64,
        Operator::Drop,
        Operator::End,
    ];

    let function = create_simple_function(0, operators);
    let result = compiler.compile_function(&function);
    assert!(result.is_ok());
}

#[test]
fn test_i32_partial_load_operations() {
    let mut compiler = Compiler::new("test").unwrap();

    let memory_type = MemoryType {
        memory64: false,
        shared: false,
        initial: 1,
        maximum: Some(10),
        page_size_log2: None,
    };

    compiler.create_memory(&memory_type).unwrap();

    let memarg = MemArg {
        align: 0,
        max_align: 0,
        offset: 0,
        memory: 0,
    };

    let test_cases = vec![
        Operator::I32Load8S { memarg },
        Operator::I32Load8U { memarg },
        Operator::I32Load16S { memarg },
        Operator::I32Load16U { memarg },
    ];

    for load_op in test_cases {
        let operators = vec![
            Operator::I32Const { value: 0 },
            load_op,
            Operator::Drop,
            Operator::End,
        ];

        let function = create_simple_function(0, operators);
        let result = compiler.compile_function(&function);
        assert!(result.is_ok());
    }
}

#[test]
fn test_i32_partial_store_operations() {
    let mut compiler = Compiler::new("test").unwrap();

    let memory_type = MemoryType {
        memory64: false,
        shared: false,
        initial: 1,
        maximum: Some(10),
        page_size_log2: None,
    };

    compiler.create_memory(&memory_type).unwrap();

    let memarg = MemArg {
        align: 0,
        max_align: 0,
        offset: 0,
        memory: 0,
    };

    let operators = vec![
        Operator::I32Const { value: 0 },
        Operator::I32Const { value: 12345 },
        Operator::I32Store16 { memarg },
        Operator::End,
    ];

    let function = create_simple_function(0, operators);
    let result = compiler.compile_function(&function);
    assert!(result.is_ok());
}

#[test]
fn test_i64_partial_load_operations() {
    let mut compiler = Compiler::new("test").unwrap();

    let memory_type = MemoryType {
        memory64: false,
        shared: false,
        initial: 1,
        maximum: Some(10),
        page_size_log2: None,
    };

    compiler.create_memory(&memory_type).unwrap();

    let memarg = MemArg {
        align: 0,
        max_align: 0,
        offset: 0,
        memory: 0,
    };

    let test_cases = vec![
        Operator::I64Load8S { memarg },
        Operator::I64Load8U { memarg },
        Operator::I64Load16S { memarg },
        Operator::I64Load16U { memarg },
        Operator::I64Load32S { memarg },
        Operator::I64Load32U { memarg },
    ];

    for load_op in test_cases {
        let operators = vec![
            Operator::I32Const { value: 0 },
            load_op,
            Operator::Drop,
            Operator::End,
        ];

        let function = create_simple_function(0, operators);
        let result = compiler.compile_function(&function);
        assert!(result.is_ok());
    }
}

#[test]
fn test_i64_partial_store_operations() {
    let mut compiler = Compiler::new("test").unwrap();

    let memory_type = MemoryType {
        memory64: false,
        shared: false,
        initial: 1,
        maximum: Some(10),
        page_size_log2: None,
    };

    compiler.create_memory(&memory_type).unwrap();

    let memarg = MemArg {
        align: 0,
        max_align: 0,
        offset: 0,
        memory: 0,
    };

    let test_cases = vec![
        Operator::I64Store8 { memarg },
        Operator::I64Store16 { memarg },
        Operator::I64Store32 { memarg },
    ];

    for store_op in test_cases {
        let operators = vec![
            Operator::I32Const { value: 0 },
            Operator::I64Const {
                value: 0x123456789ABCDEF0,
            },
            store_op,
            Operator::End,
        ];

        let function = create_simple_function(0, operators);
        let result = compiler.compile_function(&function);
        assert!(result.is_ok());
    }
}

#[test]
fn test_float_memory_operations() {
    let mut compiler = Compiler::new("test").unwrap();

    let memory_type = MemoryType {
        memory64: false,
        shared: false,
        initial: 1,
        maximum: Some(10),
        page_size_log2: None,
    };

    compiler.create_memory(&memory_type).unwrap();

    let memarg = MemArg {
        align: 2,
        max_align: 2,
        offset: 0,
        memory: 0,
    };

    let operators_f32 = vec![
        Operator::I32Const { value: 0 },
        Operator::F32Load { memarg },
        Operator::Drop,
        Operator::End,
    ];

    let function_f32 = create_simple_function(0, operators_f32);
    let result = compiler.compile_function(&function_f32);
    assert!(result.is_ok());

    let operators_f64 = vec![
        Operator::I32Const { value: 8 },
        Operator::F64Load { memarg },
        Operator::Drop,
        Operator::End,
    ];

    let function_f64 = create_simple_function(1, operators_f64);
    let result = compiler.compile_function(&function_f64);
    assert!(result.is_ok());
}

#[test]
fn test_partial_load_sign_extension() {
    let mut compiler = Compiler::new("test").unwrap();

    let memory_type = MemoryType {
        memory64: false,
        shared: false,
        initial: 1,
        maximum: Some(10),
        page_size_log2: None,
    };

    compiler.create_memory(&memory_type).unwrap();

    let memarg = MemArg {
        align: 0,
        max_align: 0,
        offset: 0,
        memory: 0,
    };

    let operators = vec![
        Operator::I32Const { value: 0 },
        Operator::I32Const { value: 0xFF },
        Operator::I32Store8 { memarg },
        Operator::I32Const { value: 0 },
        Operator::I32Load8S { memarg },
        Operator::Drop,
        Operator::I32Const { value: 0 },
        Operator::I32Load8U { memarg },
        Operator::Drop,
        Operator::End,
    ];

    let function = create_simple_function(0, operators);
    let result = compiler.compile_function(&function);
    assert!(result.is_ok());
}

#[test]
fn test_local_tee_operation() {
    let mut compiler = Compiler::new("test").unwrap();

    let operators = vec![
        Operator::I32Const { value: 42 },
        Operator::LocalTee { local_index: 0 },
        Operator::LocalTee { local_index: 1 },
        Operator::LocalGet { local_index: 0 },
        Operator::I32Add,
        Operator::LocalGet { local_index: 1 },
        Operator::I32Add,
        Operator::Drop,
        Operator::End,
    ];

    let mut function = create_simple_function(0, operators);
    function.body.locals = vec![ValType::I32, ValType::I32];

    let result = compiler.compile_function(&function);
    assert!(result.is_ok());
}

#[test]
fn test_global_operations() {

    let mut compiler = Compiler::new("test").unwrap();

    let globals = vec![
        WasmGlobal {
            global_type: GlobalType {
                content_type: ValType::I32,
                mutable: true,
                shared: false,
            },
        },
        WasmGlobal {
            global_type: GlobalType {
                content_type: ValType::I64,
                mutable: false,
                shared: false,
            },
        },
    ];

    let result = compiler.create_globals(&globals);
    assert!(result.is_ok());
    assert_eq!(compiler.globals.len(), 2);

    let operators = vec![
        Operator::I32Const { value: 100 },
        Operator::GlobalSet { global_index: 0 },
        Operator::GlobalGet { global_index: 0 },
        Operator::GlobalGet { global_index: 1 },
        Operator::Drop,
        Operator::Drop,
        Operator::End,
    ];

    let function = create_simple_function(0, operators);
    let result = compiler.compile_function(&function);
    assert!(result.is_ok());
}

#[test]
fn test_reference_types_operations() {
    let mut compiler = Compiler::new("test").unwrap();

    let operators = vec![
        Operator::RefNull {
            hty: HeapType::Abstract {
                shared: false,
                ty: AbstractHeapType::Extern,
            },
        },
        Operator::RefIsNull,
        Operator::Drop,
        Operator::End,
    ];

    let function = create_simple_function(0, operators);
    let result = compiler.compile_function(&function);
    assert!(result.is_ok());
}
