//! Instruction rendering: the decoded fields of one RISC-V instruction
//! word, and the verified assembly-text builder over them.

use vstd::prelude::*;

use crate::numerals::{dec_text, hex_text, u64_to_dec, u64_to_hex, u64_to_hex_prefixed};
use crate::snapshots::Snapshots;
use crate::strutil::str_eq;
use crate::structures::probe::{dotted, join_dotted};
use crate::utils::reg2str;
use crate::values::{bits_unsigned, view_bits, vv_bits, vv_view};
use crate::var_index::spec_lookup;

verus! {

/// The fields raki's decoder extracts from one instruction word: the
/// format's discriminant, the opcode's display name, the operand
/// registers and the immediate.
pub struct DecodedInst {
    pub fmt: u8,
    pub opc: String,
    pub rd: Option<usize>,
    pub rs1: Option<usize>,
    pub rs2: Option<usize>,
    pub imm: Option<i32>,
}

/// What raki's RISC-V decoder yields for one 32-bit word, a function of
/// the word alone: format discriminant, opcode name, operands, immediate;
/// nothing when the word is not a valid instruction.
pub uninterp spec fn rv32_decoded(bits: u32) -> Option<
    (u8, Seq<char>, Option<usize>, Option<usize>, Option<usize>, Option<i32>),
>;

/// Relies on raki's `Decode::decode` for `u32` under the RV32 ISA: the
/// result depends on the instruction word alone.
#[verifier::external_body]
fn decode_rv32(bits: u32) -> (r: Option<DecodedInst>)
    ensures
        match r {
            Option::Some(d) => rv32_decoded(bits) == Option::Some(
                (d.fmt, d.opc@, d.rd, d.rs1, d.rs2, d.imm),
            ),
            Option::None => rv32_decoded(bits) is None,
        },
{
    match raki::Decode::decode(&bits, raki::Isa::Rv32) {
        Result::Ok(i) => Option::Some(DecodedInst {
            fmt: i.inst_format as u8,
            opc: format!("{}", i.opc),
            rd: i.rd,
            rs1: i.rs1,
            rs2: i.rs2,
            imm: i.imm,
        }),
        Result::Err(_) => Option::None,
    }
}

/// A register operand's name, or a placeholder where the decoder left the
/// slot empty (no valid instruction does).
pub open spec fn reg_text(r: Option<usize>) -> Seq<char> {
    match r {
        Option::Some(n) => seq!['x'] + dec_text(n as nat),
        Option::None => seq!['?'],
    }
}

/// A raw (unnamed) register slot in decimal, or the placeholder.
pub open spec fn raw_text(r: Option<usize>) -> Seq<char> {
    match r {
        Option::Some(n) => dec_text(n as nat),
        Option::None => seq!['?'],
    }
}

/// A signed immediate in decimal.
pub open spec fn imm_dec(r: Option<i32>) -> Seq<char> {
    match r {
        Option::Some(n) => if n >= 0 {
            dec_text(n as nat)
        } else {
            seq!['-'] + dec_text((-(n as int)) as nat)
        },
        Option::None => seq!['?'],
    }
}

/// An immediate printed as the lowercase hex of its 32-bit two's
/// complement representation.
pub open spec fn imm_hex(r: Option<i32>) -> Seq<char> {
    match r {
        Option::Some(n) => hex_text((n as u32) as nat),
        Option::None => seq!['?'],
    }
}

/// An immediate printed as `0x`-prefixed lowercase hex of its 32-bit
/// two's complement representation.
pub open spec fn imm_hex_prefixed(r: Option<i32>) -> Seq<char> {
    match r {
        Option::Some(n) => seq!['0', 'x'] + hex_text((n as u32) as nat),
        Option::None => seq!['?'],
    }
}

/// A raw register slot as `0x`-prefixed hex.
pub open spec fn raw_hex_prefixed(r: Option<usize>) -> Seq<char> {
    match r {
        Option::Some(n) => seq!['0', 'x'] + hex_text(n as nat),
        Option::None => seq!['?'],
    }
}

/// The assembly text for decoded fields, by format discriminant, matching
/// raki's own notation with the store/branch operand order corrected.
pub open spec fn spec_inst_text(
    fmt: u8,
    opc: Seq<char>,
    rd: Option<usize>,
    rs1: Option<usize>,
    rs2: Option<usize>,
    imm: Option<i32>,
) -> Seq<char> {
    let sep = ", "@;
    let sp = " "@;
    if fmt == 0 || fmt == 18 {
        // regular and multiply: opc rd, rs1, rs2
        opc + sp + reg_text(rd) + sep + reg_text(rs1) + sep + reg_text(rs2)
    } else if fmt == 19 {
        // atomics: load-reserved has no rs2
        if opc.len() >= 3 && opc.subrange(0, 3) == "lr."@ {
            opc + sp + reg_text(rd) + sep + reg_text(rs1)
        } else {
            opc + sp + reg_text(rd) + sep + reg_text(rs1) + sep + reg_text(rs2)
        }
    } else if fmt == 1 {
        // shift-amount: opc rd, rs1
        opc + sp + reg_text(rd) + sep + reg_text(rs1)
    } else if fmt == 2 || fmt == 11 || fmt == 20 {
        // immediate, compressed load, lr: opc rd, rs1, imm
        opc + sp + reg_text(rd) + sep + reg_text(rs1) + sep + imm_dec(imm)
    } else if fmt == 3 {
        // store: opc rs2, imm(rs1)
        opc + sp + reg_text(rs2) + sep + imm_dec(imm) + seq!['('] + reg_text(rs1) + seq![')']
    } else if fmt == 4 {
        // branch: opc rs1, rs2, imm
        opc + sp + reg_text(rs1) + sep + reg_text(rs2) + sep + imm_dec(imm)
    } else if fmt == 12 {
        // compressed store: opc rs1, imm(rs2)
        opc + sp + reg_text(rs1) + sep + imm_dec(imm) + seq!['('] + reg_text(rs2) + seq![')']
    } else if fmt == 10 {
        // compressed wide immediate: opc rd, sp, imm-in-hex
        opc + sp + reg_text(rd) + sep + "sp"@ + sep + imm_hex(imm)
    } else if fmt == 9 {
        // compressed stack store: opc rs2, imm(sp)
        opc + sp + reg_text(rs2) + sep + imm_dec(imm) + "(sp)"@
    } else if fmt == 5 || fmt == 6 {
        // upper-immediate and jump: opc rd, imm-in-hex
        opc + sp + reg_text(rd) + sep + imm_hex_prefixed(imm)
    } else if fmt == 15 {
        // compressed jump: opc imm
        opc + sp + imm_dec(imm)
    } else if fmt == 8 {
        // compressed immediate: opc rd, rd, imm
        opc + sp + reg_text(rd) + sep + reg_text(rd) + sep + imm_dec(imm)
    } else if fmt == 7 {
        // compressed register: by opcode
        if opc == "c.jr"@ {
            opc + " zero, 0("@ + reg_text(rs1) + seq![')']
        } else if opc == "c.jalr"@ {
            opc + " ra, 0("@ + reg_text(rs1) + seq![')']
        } else if opc == "c.mv"@ {
            opc + sp + reg_text(rd) + sep + reg_text(rs2)
        } else {
            opc + sp + reg_text(rd) + sep + reg_text(rd) + sep + reg_text(rs2)
        }
    } else if fmt == 13 {
        // compressed arithmetic: opc rd, rd, rs2
        opc + sp + reg_text(rd) + sep + reg_text(rd) + sep + reg_text(rs2)
    } else if fmt == 14 {
        // compressed branch: opc raw-rs1, imm
        opc + sp + raw_text(rs1) + sep + imm_dec(imm)
    } else if fmt == 16 {
        // csr: opc rd, csr-in-hex, rs1
        opc + sp + reg_text(rd) + sep + raw_hex_prefixed(rs2) + sep + reg_text(rs1)
    } else if fmt == 17 {
        // csr with unsigned immediate: opc rd, csr, imm
        opc + sp + reg_text(rd) + sep + raw_text(rs2) + sep + imm_dec(imm)
    } else if fmt == 22 {
        opc + sp + reg_text(rd)
    } else if fmt == 23 {
        opc + sp + reg_text(rs1)
    } else if fmt == 24 {
        opc + sp + reg_text(rs2)
    } else {
        // no operands
        opc
    }
}

fn push_reg(s: &mut String, r: &Option<usize>)
    ensures
        final(s)@ == old(s)@ + reg_text(*r),
{
    match r {
        Option::Some(n) => {
            let t = reg2str(*n);
            s.append(t.as_str());
        },
        Option::None => {
            proof {
                reveal_strlit("?");
                assert("?"@ =~= seq!['?']);
            }
            s.append("?");
        },
    }
}

fn push_raw(s: &mut String, r: &Option<usize>)
    ensures
        final(s)@ == old(s)@ + raw_text(*r),
{
    match r {
        Option::Some(n) => {
            let t = u64_to_dec(*n as u64);
            s.append(t.as_str());
        },
        Option::None => {
            proof {
                reveal_strlit("?");
                assert("?"@ =~= seq!['?']);
            }
            s.append("?");
        },
    }
}

fn push_raw_hex_prefixed(s: &mut String, r: &Option<usize>)
    ensures
        final(s)@ == old(s)@ + raw_hex_prefixed(*r),
{
    match r {
        Option::Some(n) => {
            let t = u64_to_hex_prefixed(*n as u64);
            s.append(t.as_str());
        },
        Option::None => {
            proof {
                reveal_strlit("?");
                assert("?"@ =~= seq!['?']);
            }
            s.append("?");
        },
    }
}

fn push_imm_dec(s: &mut String, r: &Option<i32>)
    ensures
        final(s)@ == old(s)@ + imm_dec(*r),
{
    proof {
        reveal_strlit("?");
        reveal_strlit("-");
        assert("?"@ =~= seq!['?']);
        assert("-"@ =~= seq!['-']);
    }
    match r {
        Option::Some(n) => {
            if *n >= 0 {
                let t = u64_to_dec(*n as u64);
                s.append(t.as_str());
            } else {
                s.append("-");
                let m = -(*n as i64);
                let t = u64_to_dec(m as u64);
                s.append(t.as_str());
                proof {
                    assert(s@ =~= old(s)@ + imm_dec(*r));
                }
            }
        },
        Option::None => {
            s.append("?");
        },
    }
}

fn push_imm_hex(s: &mut String, r: &Option<i32>, prefixed: bool)
    ensures
        final(s)@ == old(s)@ + if prefixed {
            imm_hex_prefixed(*r)
        } else {
            imm_hex(*r)
        },
{
    proof {
        reveal_strlit("?");
        assert("?"@ =~= seq!['?']);
    }
    match r {
        Option::Some(n) => {
            let bits32: u32 = *n as u32;
            let t = if prefixed {
                u64_to_hex_prefixed(bits32 as u64)
            } else {
                u64_to_hex(bits32 as u64)
            };
            s.append(t.as_str());
        },
        Option::None => {
            s.append("?");
        },
    }
}

/// Builds the assembly text of decoded fields, exactly as
/// [`spec_inst_text`] lays it out.
pub fn format_decoded(d: &DecodedInst) -> (r: String)
    ensures
        r@ == spec_inst_text(d.fmt, d.opc@, d.rd, d.rs1, d.rs2, d.imm),
{
    proof {
        reveal_strlit(" ");
        reveal_strlit(", ");
        reveal_strlit("(");
        reveal_strlit(")");
        reveal_strlit("sp");
        reveal_strlit("(sp)");
        reveal_strlit("lr.");
        reveal_strlit("c.jr");
        reveal_strlit("c.jalr");
        reveal_strlit("c.mv");
        reveal_strlit(" zero, 0(");
        reveal_strlit(" ra, 0(");
    }
    let fmt = d.fmt;
    let mut s = crate::var_index::clone_string(&d.opc);
    if fmt == 0 || fmt == 18 {
        s.append(" ");
        push_reg(&mut s, &d.rd);
        s.append(", ");
        push_reg(&mut s, &d.rs1);
        s.append(", ");
        push_reg(&mut s, &d.rs2);
    } else if fmt == 19 {
        let is_lr = d.opc.as_str().unicode_len() >= 3 && str_eq(
            d.opc.as_str().substring_char(0, 3),
            "lr.",
        );
        proof {
            assert(is_lr == (d.opc@.len() >= 3 && d.opc@.subrange(0, 3) == "lr."@));
        }
        s.append(" ");
        push_reg(&mut s, &d.rd);
        s.append(", ");
        push_reg(&mut s, &d.rs1);
        if !is_lr {
            s.append(", ");
            push_reg(&mut s, &d.rs2);
        }
    } else if fmt == 1 {
        s.append(" ");
        push_reg(&mut s, &d.rd);
        s.append(", ");
        push_reg(&mut s, &d.rs1);
    } else if fmt == 2 || fmt == 11 || fmt == 20 {
        s.append(" ");
        push_reg(&mut s, &d.rd);
        s.append(", ");
        push_reg(&mut s, &d.rs1);
        s.append(", ");
        push_imm_dec(&mut s, &d.imm);
    } else if fmt == 3 {
        s.append(" ");
        push_reg(&mut s, &d.rs2);
        s.append(", ");
        push_imm_dec(&mut s, &d.imm);
        s.append("(");
        push_reg(&mut s, &d.rs1);
        s.append(")");
    } else if fmt == 4 {
        s.append(" ");
        push_reg(&mut s, &d.rs1);
        s.append(", ");
        push_reg(&mut s, &d.rs2);
        s.append(", ");
        push_imm_dec(&mut s, &d.imm);
    } else if fmt == 12 {
        s.append(" ");
        push_reg(&mut s, &d.rs1);
        s.append(", ");
        push_imm_dec(&mut s, &d.imm);
        s.append("(");
        push_reg(&mut s, &d.rs2);
        s.append(")");
    } else if fmt == 10 {
        s.append(" ");
        push_reg(&mut s, &d.rd);
        s.append(", ");
        s.append("sp");
        s.append(", ");
        push_imm_hex(&mut s, &d.imm, false);
    } else if fmt == 9 {
        s.append(" ");
        push_reg(&mut s, &d.rs2);
        s.append(", ");
        push_imm_dec(&mut s, &d.imm);
        s.append("(sp)");
    } else if fmt == 5 || fmt == 6 {
        s.append(" ");
        push_reg(&mut s, &d.rd);
        s.append(", ");
        push_imm_hex(&mut s, &d.imm, true);
    } else if fmt == 15 {
        s.append(" ");
        push_imm_dec(&mut s, &d.imm);
    } else if fmt == 8 {
        s.append(" ");
        push_reg(&mut s, &d.rd);
        s.append(", ");
        push_reg(&mut s, &d.rd);
        s.append(", ");
        push_imm_dec(&mut s, &d.imm);
    } else if fmt == 7 {
        if str_eq(d.opc.as_str(), "c.jr") {
            s.append(" zero, 0(");
            push_reg(&mut s, &d.rs1);
            s.append(")");
        } else if str_eq(d.opc.as_str(), "c.jalr") {
            s.append(" ra, 0(");
            push_reg(&mut s, &d.rs1);
            s.append(")");
        } else if str_eq(d.opc.as_str(), "c.mv") {
            s.append(" ");
            push_reg(&mut s, &d.rd);
            s.append(", ");
            push_reg(&mut s, &d.rs2);
        } else {
            s.append(" ");
            push_reg(&mut s, &d.rd);
            s.append(", ");
            push_reg(&mut s, &d.rd);
            s.append(", ");
            push_reg(&mut s, &d.rs2);
        }
    } else if fmt == 13 {
        s.append(" ");
        push_reg(&mut s, &d.rd);
        s.append(", ");
        push_reg(&mut s, &d.rd);
        s.append(", ");
        push_reg(&mut s, &d.rs2);
    } else if fmt == 14 {
        s.append(" ");
        push_raw(&mut s, &d.rs1);
        s.append(", ");
        push_imm_dec(&mut s, &d.imm);
    } else if fmt == 16 {
        s.append(" ");
        push_reg(&mut s, &d.rd);
        s.append(", ");
        push_raw_hex_prefixed(&mut s, &d.rs2);
        s.append(", ");
        push_reg(&mut s, &d.rs1);
    } else if fmt == 17 {
        s.append(" ");
        push_reg(&mut s, &d.rd);
        s.append(", ");
        push_raw(&mut s, &d.rs2);
        s.append(", ");
        push_imm_dec(&mut s, &d.imm);
    } else if fmt == 22 {
        s.append(" ");
        push_reg(&mut s, &d.rd);
    } else if fmt == 23 {
        s.append(" ");
        push_reg(&mut s, &d.rs1);
    } else if fmt == 24 {
        s.append(" ");
        push_reg(&mut s, &d.rs2);
    }
    proof {
        assert(s@ =~= spec_inst_text(d.fmt, d.opc@, d.rd, d.rs1, d.rs2, d.imm));
    }
    s
}

/// What [`disassemble`] prints for an instruction word.
pub open spec fn spec_disassemble(bits: u32) -> Seq<char> {
    match rv32_decoded(bits) {
        Option::Some(t) => spec_inst_text(t.0, t.1, t.2, t.3, t.4, t.5),
        Option::None => "<invalid>"@,
    }
}

/// Decodes one 32-bit word under RV32 and renders its assembly text, or
/// the invalid marker.
pub fn disassemble(bits: u32) -> (r: String)
    ensures
        r@ == spec_disassemble(bits),
{
    match decode_rv32(bits) {
        Option::Some(d) => format_decoded(&d),
        Option::None => {
            proof {
                reveal_strlit("<invalid>");
            }
            "<invalid>".to_owned()
        },
    }
}

/// What an operation-info line shows: the program counter in hex, then
/// the disassembled instruction; an undecodable word falls back to the
/// decimal counter and the invalid marker.
pub open spec fn spec_opinfo(pc: nat, bits: u32) -> Seq<char> {
    if rv32_decoded(bits) is Some {
        hex_text(pc) + ": "@ + spec_disassemble(bits)
    } else {
        dec_text(pc) + ": <invalid>"@
    }
}

/// Renders the operation-info line for a program counter and an
/// instruction word.
pub fn format_opinfo(pc: usize, bits: u32) -> (r: String)
    ensures
        r@ == spec_opinfo(pc as nat, bits),
{
    proof {
        reveal_strlit(": ");
        reveal_strlit(": <invalid>");
    }
    match decode_rv32(bits) {
        Option::Some(d) => {
            let mut s = u64_to_hex(pc as u64);
            s.append(": ");
            let body = format_decoded(&d);
            s.append(body.as_str());
            proof {
                assert(s@ =~= spec_opinfo(pc as nat, bits));
            }
            s
        },
        Option::None => {
            let mut s = u64_to_dec(pc as u64);
            s.append(": <invalid>");
            proof {
                assert(s@ =~= spec_opinfo(pc as nat, bits));
            }
            s
        },
    }
}

/// The unsigned reading of the variable at `path` in the snapshot under
/// the cursor, where one is present and fits the machine.
pub open spec fn usize_var_at(s: Snapshots, path: Seq<char>) -> Option<nat> {
    match spec_lookup(s.paths(), path) {
        Option::Some(id) => if s.shots_model()[s.cursor()].vars.contains_key(id) {
            let bits = view_bits(s.shots_model()[s.cursor()].vars[id]);
            if bits.len() <= 64 && bits_unsigned(bits) <= usize::MAX {
                Option::Some(bits_unsigned(bits))
            } else {
                Option::None
            }
        } else {
            Option::None
        },
        Option::None => Option::None,
    }
}

/// Reads the variable at `path` as an unsigned integer.
fn read_usize_var(snapshots: &Snapshots, path: &str) -> (r: usize)
    requires
        snapshots.wf(),
        usize_var_at(*snapshots, path@) is Some,
    ensures
        r == usize_var_at(*snapshots, path@).unwrap(),
{
    let v = match snapshots.get_var(path) {
        Option::Some(v) => v,
        Option::None => {
            proof {
                assert(false);
            }
            return 0;
        },
    };
    proof {
        assert(view_bits(vv_view(*v)) =~= vv_bits(*v));
    }
    v.as_usize()
}

/// Disassembles the instruction word held by `base.inst`, as the fetch
/// widget shows it.
pub fn parse_inst(base: &str, snapshots: &Snapshots) -> (r: String)
    requires
        snapshots.wf(),
        usize_var_at(*snapshots, dotted(base@, "inst"@)) is Some,
    ensures
        r@ == spec_disassemble(
            (usize_var_at(*snapshots, dotted(base@, "inst"@)).unwrap() % 0x100000000) as u32,
        ),
{
    let path = join_dotted(base, "inst");
    let bits = read_usize_var(snapshots, path.as_str());
    let word: u32 = ((bits as u64) % 0x100000000u64) as u32;
    disassemble(word)
}

/// Renders the operation-info line of the operation scope at `base`: its
/// program counter and the instruction word under `base.inst.inst`.
pub fn parse_opinfo(base: &str, snapshots: &Snapshots) -> (r: String)
    requires
        snapshots.wf(),
        usize_var_at(*snapshots, dotted(base@, "PC"@)) is Some,
        usize_var_at(*snapshots, dotted(base@, "inst.inst"@)) is Some,
    ensures
        r@ == spec_opinfo(
            usize_var_at(*snapshots, dotted(base@, "PC"@)).unwrap(),
            (usize_var_at(*snapshots, dotted(base@, "inst.inst"@)).unwrap() % 0x100000000) as u32,
        ),
{
    let pc_path = join_dotted(base, "PC");
    let pc = read_usize_var(snapshots, pc_path.as_str());
    let inst_path = join_dotted(base, "inst.inst");
    let bits = read_usize_var(snapshots, inst_path.as_str());
    let word: u32 = ((bits as u64) % 0x100000000u64) as u32;
    format_opinfo(pc, word)
}

} // verus!
