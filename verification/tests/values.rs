use o3o_debugger::numerals::{u64_to_dec, u64_to_hex, u64_to_hex_prefixed};
use o3o_debugger::utils::{
    parse_fu_type, parse_mem_command, parse_mem_size, parse_mem_state, reg2str, _path_predecessor,
};
use o3o_debugger::values::{Bit, DisplayType, VerilogValue};

fn vector(bits: &[Bit]) -> VerilogValue {
    VerilogValue::Vector(bits.to_vec())
}

#[test]
fn format_hex_with_unknown_bit_is_conservative() {
    let v = vector(&[Bit::V1, Bit::V0, Bit::X]);
    assert_eq!(v.format(&DisplayType::Hex), "X");
}

#[test]
fn format_hex_of_determinate_vector() {
    let v = vector(&[Bit::V1, Bit::V0, Bit::V1]);
    assert_eq!(v.format(&DisplayType::Hex), "0x5");
}

#[test]
fn format_binary_of_scalar() {
    let v = VerilogValue::Scalar(Bit::V1);
    assert_eq!(v.format(&DisplayType::Binary), "1");
}

#[test]
fn format_uses_first_unknown_symbol_in_msb_order() {
    let z_first = vector(&[Bit::V1, Bit::Z, Bit::X]);
    assert_eq!(z_first.format(&DisplayType::Hex), "Z");
    assert_eq!(z_first.format(&DisplayType::Decimal), "Z");
    let x_first = vector(&[Bit::X, Bit::Z, Bit::V0]);
    assert_eq!(x_first.format(&DisplayType::Decimal), "X");
}

#[test]
fn format_decimal_of_determinate_vector() {
    let v = vector(&[Bit::V1, Bit::V1, Bit::V0, Bit::V1]);
    assert_eq!(v.format(&DisplayType::Decimal), "13");
}

#[test]
fn is_high_is_an_and_reduction() {
    assert!(vector(&[Bit::V1, Bit::V1, Bit::V1]).is_high());
    assert!(!vector(&[Bit::V1, Bit::V0, Bit::V1]).is_high());
    assert!(!vector(&[Bit::V1, Bit::V0, Bit::V1]).is_low());
}

#[test]
fn is_low_only_when_every_bit_is_zero() {
    assert!(vector(&[Bit::V0, Bit::V0]).is_low());
    assert!(!vector(&[Bit::V0, Bit::V1]).is_low());
    assert!(VerilogValue::Scalar(Bit::V0).is_low());
}

#[test]
fn is_unknown_when_any_bit_is_x_or_z() {
    assert!(vector(&[Bit::V1, Bit::X]).is_unknown());
    assert!(vector(&[Bit::Z, Bit::V0]).is_unknown());
    assert!(!vector(&[Bit::V1, Bit::V0]).is_unknown());
    assert!(VerilogValue::Scalar(Bit::Z).is_unknown());
}

#[test]
fn as_usize_reads_unknown_bits_as_zero() {
    assert_eq!(vector(&[Bit::V1, Bit::X, Bit::V1]).as_usize(), 5);
    assert_eq!(VerilogValue::Scalar(Bit::V1).as_usize(), 1);
    assert_eq!(VerilogValue::Scalar(Bit::X).as_usize(), 0);
}

#[test]
fn from_usize_builds_msb_first() {
    let v = VerilogValue::from_usize(5, 3);
    assert_eq!(v.as_binary(), "101");
    assert_eq!(v.as_usize(), 5);
    let scalar = VerilogValue::from_usize(3, 1);
    assert_eq!(scalar.as_binary(), "1");
    let truncated = VerilogValue::from_usize(10, 2);
    assert_eq!(truncated.as_binary(), "10");
}

#[test]
fn concat_joins_bits_msb_first() {
    let a = VerilogValue::Scalar(Bit::V1);
    let b = vector(&[Bit::V0, Bit::V1]);
    assert_eq!(a.concat(&b).as_binary(), "101");
    assert_eq!(b.concat(&a).as_binary(), "011");
    let s = VerilogValue::Scalar(Bit::V0);
    assert_eq!(a.concat(&s).as_binary(), "10");
}

#[test]
fn scalar_renders_lowercase() {
    assert_eq!(VerilogValue::Scalar(Bit::X).format(&DisplayType::Hex), "x");
    assert_eq!(VerilogValue::Scalar(Bit::Z).as_decimal(), "z");
    assert_eq!(VerilogValue::Scalar(Bit::V0).as_binary(), "0");
}

#[test]
fn display_type_cycles_through_radixes() {
    assert_eq!(DisplayType::Binary.next(), DisplayType::Decimal);
    assert_eq!(DisplayType::Decimal.next(), DisplayType::Hex);
    assert_eq!(DisplayType::Hex.next(), DisplayType::Binary);
    assert_eq!(DisplayType::Decimal.name(), "Decimal");
}

#[test]
fn numeral_text_matches_std_formatting() {
    assert_eq!(u64_to_dec(0), "0");
    assert_eq!(u64_to_dec(1234), "1234");
    assert_eq!(u64_to_hex(255), "ff");
    assert_eq!(u64_to_hex_prefixed(255), "0xff");
    assert_eq!(u64_to_hex_prefixed(0), "0x0");
}

#[test]
fn register_names_are_x_prefixed() {
    assert_eq!(reg2str(0), "x0");
    assert_eq!(reg2str(31), "x31");
}

#[test]
fn mem_field_decoders() {
    let load = VerilogValue::from_usize(1, 2);
    assert_eq!(parse_mem_command(&load), "MEM_LOAD");
    assert_eq!(parse_mem_size(&load), "HALF");
    assert_eq!(parse_mem_state(&load), "DCACHE_PEDNING");
    assert_eq!(parse_fu_type(&VerilogValue::from_usize(5, 3)), "BRANCH");
    assert_eq!(parse_fu_type(&VerilogValue::from_usize(7, 3)), "<invalid>");
    let unknown = VerilogValue::Vector(vec![Bit::X, Bit::V0]);
    assert_eq!(parse_mem_command(&unknown), "xxxxx");
}

#[test]
fn path_predecessor_drops_last_segment() {
    assert_eq!(_path_predecessor("tb.dut.valid"), "tb.dut");
    assert_eq!(_path_predecessor("tb"), "");
    assert_eq!(_path_predecessor(""), "");
}
