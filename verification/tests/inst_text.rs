use o3o_debugger::inst::{disassemble, format_opinfo};

#[test]
fn disassembles_register_register_form() {
    // add x1, x2, x3
    assert_eq!(disassemble(0x003100B3), "add x1, x2, x3");
}

#[test]
fn disassembles_immediate_form_with_negative_immediate() {
    // addi x5, x0, -1
    assert_eq!(disassemble(0xFFF00293), "addi x5, x0, -1");
}

#[test]
fn disassembles_store_with_offset_form() {
    // sw x2, 8(x1)
    assert_eq!(disassemble(0x0020A423), "sw x2, 8(x1)");
}

#[test]
fn invalid_word_renders_marker() {
    assert_eq!(disassemble(0x00000000), "<invalid>");
}

#[test]
fn opinfo_prefixes_hex_program_counter() {
    assert_eq!(format_opinfo(255, 0x003100B3), "ff: add x1, x2, x3");
}

#[test]
fn opinfo_falls_back_to_decimal_counter_on_invalid_word() {
    assert_eq!(format_opinfo(16, 0x00000000), "16: <invalid>");
}
