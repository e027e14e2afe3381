use module_naming::{wasm_module_name, wasm_module_set_name, ByteVector, Module, ModuleHandle};

fn read_name(module: &ModuleHandle) -> ByteVector {
    let mut out = ByteVector::from_text("stale");
    wasm_module_name(module, &mut out);
    out
}

#[test]
fn unnamed_module_reads_as_null() {
    let module = ModuleHandle::new(Module::new(None));
    let out = read_name(&module);
    assert!(out.is_null());
    assert_eq!(out.size(), 0);
    assert_eq!(out.as_slice(), None);
}

#[test]
fn named_module_reads_its_name() {
    let module = ModuleHandle::new(Module::new(Some("moduleName".to_string())));
    let out = read_name(&module);
    assert!(!out.is_null());
    assert_eq!(out.as_slice(), Some(&b"moduleName"[..]));
}

#[test]
fn reading_twice_gives_the_same_bytes() {
    let module = ModuleHandle::new(Module::new(Some("twice".to_string())));
    let first = read_name(&module);
    let second = read_name(&module);
    assert_eq!(first.as_slice(), second.as_slice());
}

#[test]
fn set_then_get_round_trip() {
    let mut module = ModuleHandle::new(Module::new(None));
    assert!(read_name(&module).is_null());
    assert!(wasm_module_set_name(&mut module, &ByteVector::from_text("hello")));
    assert_eq!(read_name(&module).as_slice(), Some(&b"hello"[..]));
}

#[test]
fn multibyte_name_round_trip() {
    let mut module = ModuleHandle::new(Module::new(None));
    let bytes = vec![0x68, 0xC3, 0xA9, 0xE2, 0x82, 0xAC, 0xF0, 0x9F, 0x98, 0x80];
    assert!(wasm_module_set_name(&mut module, &ByteVector::from_bytes(bytes.clone())));
    assert_eq!(read_name(&module).as_slice(), Some(&bytes[..]));
}

#[test]
fn repeating_a_rename_changes_nothing() {
    let mut module = ModuleHandle::new(Module::new(Some("old".to_string())));
    let name = ByteVector::from_text("same");
    assert!(wasm_module_set_name(&mut module, &name));
    let after_first = read_name(&module);
    assert!(wasm_module_set_name(&mut module, &name));
    let after_second = read_name(&module);
    assert_eq!(after_first.as_slice(), Some(&b"same"[..]));
    assert_eq!(after_second.as_slice(), after_first.as_slice());
}

#[test]
fn invalid_utf8_is_refused_and_keeps_the_name() {
    let mut module = ModuleHandle::new(Module::new(Some("kept".to_string())));
    let bad = ByteVector::from_bytes(vec![0xFF]);
    assert!(!wasm_module_set_name(&mut module, &bad));
    assert_eq!(read_name(&module).as_slice(), Some(&b"kept"[..]));
}

#[test]
fn invalid_utf8_on_unnamed_module_keeps_it_unnamed() {
    let mut module = ModuleHandle::new(Module::new(None));
    let bad = ByteVector::from_bytes(vec![0x61, 0xC3, 0x28]);
    assert!(!wasm_module_set_name(&mut module, &bad));
    assert!(read_name(&module).is_null());
}

#[test]
fn null_candidate_is_refused() {
    let mut module = ModuleHandle::new(Module::new(Some("kept".to_string())));
    assert!(!wasm_module_set_name(&mut module, &ByteVector::null()));
    assert_eq!(read_name(&module).as_slice(), Some(&b"kept"[..]));
}

#[test]
fn shared_module_cannot_be_renamed_until_released() {
    let mut first = ModuleHandle::new(Module::new(Some("original".to_string())));
    let second = first.clone();
    let name = ByteVector::from_text("renamed");
    assert!(!wasm_module_set_name(&mut first, &name));
    assert_eq!(read_name(&first).as_slice(), Some(&b"original"[..]));
    assert_eq!(read_name(&second).as_slice(), Some(&b"original"[..]));
    drop(second);
    assert!(wasm_module_set_name(&mut first, &name));
    assert_eq!(read_name(&first).as_slice(), Some(&b"renamed"[..]));
}

#[test]
fn invalid_utf8_on_shared_module_is_refused() {
    let mut first = ModuleHandle::new(Module::new(None));
    let second = first.clone();
    assert!(!wasm_module_set_name(&mut first, &ByteVector::from_bytes(vec![0xFF])));
    assert!(read_name(&second).is_null());
}

#[test]
fn empty_name_is_legal_and_not_null() {
    let mut module = ModuleHandle::new(Module::new(None));
    assert!(wasm_module_set_name(&mut module, &ByteVector::from_bytes(Vec::new())));
    let out = read_name(&module);
    assert!(!out.is_null());
    assert_eq!(out.size(), 0);
    assert_eq!(out.as_slice(), Some(&b""[..]));
}
