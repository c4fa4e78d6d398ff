use nexel_core::BaseplateVm;
use nexel_core::bytecode::{BytecodeModule, ModuleError, Value};
use nexel_core::vlu::{VluError, VluJob, check_job};
use nexel_core::vm::VmStep;

fn module_image(constants: &[u8], code: &[u8]) -> Vec<u8> {
    let mut image = vec![
        0x42, 0x50, 0x58, 0x30, // magic
        0x01, 0x00, // version
        0x00, 0x00, // flags
    ];
    let cp_offset = 23u32;
    let code_offset = cp_offset + constants.len() as u32;
    image.extend_from_slice(&[
        (cp_offset & 0xFF) as u8,
        ((cp_offset >> 8) & 0xFF) as u8,
        ((cp_offset >> 16) & 0xFF) as u8,
        (code_offset & 0xFF) as u8,
        ((code_offset >> 8) & 0xFF) as u8,
        ((code_offset >> 16) & 0xFF) as u8,
        0x00, 0x00, 0x00, // meta offset: none
        0x00, 0x00, // entry point
        0x00, 0x00, 0x00, 0x00, // crc
    ]);
    image.extend_from_slice(constants);
    image.extend_from_slice(code);
    image
}

#[test]
fn module_loader_rejects_short_files() {
    let r = BytecodeModule::from_bytes(&[0x42, 0x50, 0x58, 0x30, 0x00]);
    assert!(matches!(r, Err(ModuleError::TooShort)));
}

#[test]
fn module_loader_rejects_bad_magic() {
    let image = vec![0u8; 32];
    let r = BytecodeModule::from_bytes(&image);
    assert!(matches!(r, Err(ModuleError::BadMagic)));
}

#[test]
fn module_loader_decodes_constants_and_code() {
    // One 24-bit constant, -2, then a HALT instruction.
    let image = module_image(&[0xFE, 0xFF, 0xFF], &[1, 0, 0]);
    let module = BytecodeModule::from_bytes(&image).expect("parse");
    assert_eq!(module.constants().len(), 1);
    assert_eq!(module.constants()[0], Value::Int24(-2));
    assert_eq!(module.bytecode(), &vec![1, 0, 0]);
    assert_eq!(module.entry_point(), 0);
}

#[test]
fn vm_adds_two_constants() {
    // LDI 5; LDI 7; ADD; HALT.
    let code = vec![
        17, 5, 0, 0, 0, 0, // LDI 5
        17, 7, 0, 0, 0, 0, // LDI 7
        32, 0, 0, // ADD
        1, 0, 0, // HALT
    ];
    let image = module_image(&[], &code);
    let module = BytecodeModule::from_bytes(&image).expect("parse");
    let mut vm = BaseplateVm::new(module);
    assert!(matches!(vm.step(), Ok(VmStep::Continue)));
    assert!(matches!(vm.step(), Ok(VmStep::Continue)));
    assert!(matches!(vm.step(), Ok(VmStep::Continue)));
    assert!(matches!(vm.step(), Ok(VmStep::Halted)));
}

#[test]
fn vm_run_stops_at_halt() {
    let code = vec![0, 0, 0, 1, 0, 0]; // NOP; HALT
    let image = module_image(&[], &code);
    let module = BytecodeModule::from_bytes(&image).expect("parse");
    let mut vm = BaseplateVm::new(module);
    assert_eq!(vm.run(10), Ok(true));
}

#[test]
fn vm_reports_unknown_opcode() {
    let code = vec![99, 0, 0];
    let image = module_image(&[], &code);
    let module = BytecodeModule::from_bytes(&image).expect("parse");
    let mut vm = BaseplateVm::new(module);
    assert!(matches!(vm.run(10), Err(_)));
}

#[test]
fn invalid_register_returns_error() {
    let err = check_job(&VluJob::Transform { dest: 8, vec: 0, matrix: 0 }).unwrap_err();
    assert_eq!(err, VluError::InvalidVectorRegister(8));
}

#[test]
fn vlu_job_register_rules() {
    assert!(check_job(&VluJob::Dot { a: 0, b: 7 }).is_ok());
    assert_eq!(
        check_job(&VluJob::Dot { a: 9, b: 0 }),
        Err(VluError::InvalidVectorRegister(9))
    );
    assert_eq!(
        check_job(&VluJob::Transform { dest: 0, vec: 0, matrix: 4 }),
        Err(VluError::InvalidMatrixRegister(4))
    );
    assert!(check_job(&VluJob::Cross { dest: 2, a: 0, b: 1 }).is_ok());
    assert!(check_job(&VluJob::Normalize { dest: 1, src: 0 }).is_ok());
    assert_eq!(
        check_job(&VluJob::Normalize { dest: 8, src: 0 }),
        Err(VluError::InvalidVectorRegister(8))
    );
}
