//! Decoders for small enumerated hardware fields, and path helpers.

use vstd::prelude::*;

use vstd::string::StrSliceExecFns;

use crate::numerals::dec_text;
use crate::values::{bits_unsigned, has_unknown, vv_bits, VerilogValue};

verus! {

/// Whether a field value can be read as an unsigned integer on this
/// machine: at most 64 bits wide, and in range of `usize`.
pub open spec fn field_readable(v: VerilogValue) -> bool {
    vv_bits(v).len() <= 64 && bits_unsigned(vv_bits(v)) <= usize::MAX
}

/// What [`parse_mem_command`] prints for each value.
pub open spec fn spec_mem_command(v: VerilogValue) -> Seq<char> {
    if has_unknown(vv_bits(v)) {
        "xxxxx"@
    } else if bits_unsigned(vv_bits(v)) == 0 {
        "MEM_NONE"@
    } else if bits_unsigned(vv_bits(v)) == 1 {
        "MEM_LOAD"@
    } else if bits_unsigned(vv_bits(v)) == 2 {
        "MEM_STORE"@
    } else {
        "<invalid>"@
    }
}

/// Decodes a memory-command field.
pub fn parse_mem_command(val: &VerilogValue) -> (r: &'static str)
    requires
        field_readable(*val),
    ensures
        r@ == spec_mem_command(*val),
{
    if val.is_unknown() {
        return "xxxxx";
    }
    match val.as_usize() {
        0 => "MEM_NONE",
        1 => "MEM_LOAD",
        2 => "MEM_STORE",
        _ => "<invalid>",
    }
}

/// What [`parse_mem_size`] prints for each value.
pub open spec fn spec_mem_size(v: VerilogValue) -> Seq<char> {
    if has_unknown(vv_bits(v)) {
        "xxxxx"@
    } else if bits_unsigned(vv_bits(v)) == 0 {
        "BYTE"@
    } else if bits_unsigned(vv_bits(v)) == 1 {
        "HALF"@
    } else if bits_unsigned(vv_bits(v)) == 2 {
        "WORD"@
    } else if bits_unsigned(vv_bits(v)) == 3 {
        "DOUBLE"@
    } else {
        "<invalid>"@
    }
}

/// Decodes a memory-access-size field.
pub fn parse_mem_size(val: &VerilogValue) -> (r: &'static str)
    requires
        field_readable(*val),
    ensures
        r@ == spec_mem_size(*val),
{
    if val.is_unknown() {
        return "xxxxx";
    }
    match val.as_usize() {
        0 => "BYTE",
        1 => "HALF",
        2 => "WORD",
        3 => "DOUBLE",
        _ => "<invalid>",
    }
}

/// What [`parse_mem_state`] prints for each value.
pub open spec fn spec_mem_state(v: VerilogValue) -> Seq<char> {
    if has_unknown(vv_bits(v)) {
        "xxxxx"@
    } else if bits_unsigned(vv_bits(v)) == 0 {
        "IDLE"@
    } else if bits_unsigned(vv_bits(v)) == 1 {
        "DCACHE_PEDNING"@
    } else if bits_unsigned(vv_bits(v)) == 2 {
        "LOAD_PENDING"@
    } else if bits_unsigned(vv_bits(v)) == 3 {
        "STORE_PENDING"@
    } else {
        "<invalid>"@
    }
}

/// Decodes a memory-unit state field.
pub fn parse_mem_state(val: &VerilogValue) -> (r: &'static str)
    requires
        field_readable(*val),
    ensures
        r@ == spec_mem_state(*val),
{
    if val.is_unknown() {
        return "xxxxx";
    }
    match val.as_usize() {
        0 => "IDLE",
        1 => "DCACHE_PEDNING",
        2 => "LOAD_PENDING",
        3 => "STORE_PENDING",
        _ => "<invalid>",
    }
}

/// What [`parse_fu_type`] prints for each value.
pub open spec fn spec_fu_type(v: VerilogValue) -> Seq<char> {
    if has_unknown(vv_bits(v)) {
        "xxxxx"@
    } else if bits_unsigned(vv_bits(v)) == 0 {
        "NOP"@
    } else if bits_unsigned(vv_bits(v)) == 1 {
        "IALU"@
    } else if bits_unsigned(vv_bits(v)) == 2 {
        "LOAD"@
    } else if bits_unsigned(vv_bits(v)) == 3 {
        "STORE"@
    } else if bits_unsigned(vv_bits(v)) == 4 {
        "MULT"@
    } else if bits_unsigned(vv_bits(v)) == 5 {
        "BRANCH"@
    } else {
        "<invalid>"@
    }
}

/// Decodes a functional-unit kind field.
pub fn parse_fu_type(val: &VerilogValue) -> (r: String)
    requires
        field_readable(*val),
    ensures
        r@ == spec_fu_type(*val),
{
    let s: &'static str = if val.is_unknown() {
        "xxxxx"
    } else {
        match val.as_usize() {
            0 => "NOP",
            1 => "IALU",
            2 => "LOAD",
            3 => "STORE",
            4 => "MULT",
            5 => "BRANCH",
            _ => "<invalid>",
        }
    };
    s.to_owned()
}

/// Renders a register number as its conventional name.
pub fn reg2str(rd_value: usize) -> (r: String)
    ensures
        r@ == seq!['x'] + dec_text(rd_value as nat),
{
    proof {
        reveal_strlit("x");
        assert("x"@ =~= seq!['x']);
    }
    let mut s = "x".to_owned();
    let digits = crate::numerals::u64_to_dec(rd_value as u64);
    s.append(digits.as_str());
    proof {
        assert(s@ =~= seq!['x'] + dec_text(rd_value as nat));
    }
    s
}

/// The dotted path one level above `s`: everything before the last dot,
/// or empty when there is none.
pub open spec fn spec_path_predecessor(s: Seq<char>) -> Seq<char>
    decreases s.len(),
{
    if s.len() == 0 {
        s
    } else if s.last() == '.' {
        s.drop_last()
    } else {
        spec_path_predecessor(s.drop_last())
    }
}

/// The parent path of a dotted path: the segments with the last removed.
pub fn _path_predecessor(path: &str) -> (r: String)
    ensures
        r@ == spec_path_predecessor(path@),
{
    let n = path.unicode_len();
    let mut i: usize = n;
    proof {
        assert(path@.take(n as int) =~= path@);
    }
    while i > 0
        invariant
            i <= n,
            n == path@.len(),
            spec_path_predecessor(path@) == spec_path_predecessor(path@.take(i as int)),
        decreases i,
    {
        proof {
            assert(path@.take(i as int).last() == path@[i - 1]);
            assert(path@.take(i as int).drop_last() =~= path@.take(i - 1));
        }
        if path.get_char(i - 1) == '.' {
            let r = path.substring_char(0, i - 1);
            proof {
                assert(r@ =~= path@.take(i - 1));
            }
            return r.to_owned();
        }
        i = i - 1;
    }
    proof {
        assert(path@.take(0) =~= Seq::<char>::empty());
    }
    String::new()
}

} // verus!
