use vstd::prelude::*;
use crate::instruction::{instruction_name, INSTRUCTION_COUNT};

verus! {

/// Strict lexicographic order on character sequences, by code point.
pub open spec fn lex_lt(a: Seq<char>, b: Seq<char>) -> bool
    decreases a.len(),
{
    if a.len() == 0 {
        b.len() > 0
    } else if b.len() == 0 {
        false
    } else if (a[0] as u32) < (b[0] as u32) {
        true
    } else if a[0] == b[0] {
        lex_lt(a.drop_first(), b.drop_first())
    } else {
        false
    }
}

proof fn lemma_lex_lt_irreflexive(a: Seq<char>)
    ensures
        !lex_lt(a, a),
    decreases a.len(),
{
    if a.len() > 0 {
        lemma_lex_lt_irreflexive(a.drop_first());
    }
}

proof fn lemma_lex_lt_transitive(a: Seq<char>, b: Seq<char>, c: Seq<char>)
    requires
        lex_lt(a, b),
        lex_lt(b, c),
    ensures
        lex_lt(a, c),
    decreases a.len(),
{
    if a.len() > 0 && b.len() > 0 && c.len() > 0 && a[0] == b[0] && b[0] == c[0] {
        lemma_lex_lt_transitive(a.drop_first(), b.drop_first(), c.drop_first());
    }
}

/// Each instruction's name comes strictly before the next one's.
#[verifier::rlimit(100)]
proof fn lemma_names_sorted_at(i: int)
    requires
        0 <= i < INSTRUCTION_COUNT - 1,
    ensures
        lex_lt(instruction_name(i), instruction_name(i + 1)),
{
    if i == 0 {
        reveal_strlit("add_32");
        reveal_strlit("add_64");
        assert(lex_lt("add_32"@, "add_64"@)) by {
            reveal_with_fuel(lex_lt, 6);
        }
    } else if i == 1 {
        reveal_strlit("add_64");
        reveal_strlit("add_imm_32");
        assert(lex_lt("add_64"@, "add_imm_32"@)) by {
            reveal_with_fuel(lex_lt, 6);
        }
    } else if i == 2 {
        reveal_strlit("add_imm_32");
        reveal_strlit("add_imm_64");
        assert(lex_lt("add_imm_32"@, "add_imm_64"@)) by {
            reveal_with_fuel(lex_lt, 10);
        }
    } else if i == 3 {
        reveal_strlit("add_imm_64");
        reveal_strlit("and");
        assert(lex_lt("add_imm_64"@, "and"@)) by {
            reveal_with_fuel(lex_lt, 3);
        }
    } else if i == 4 {
        reveal_strlit("and");
        reveal_strlit("and_imm");
        assert(lex_lt("and"@, "and_imm"@)) by {
            reveal_with_fuel(lex_lt, 5);
        }
    } else if i == 5 {
        reveal_strlit("and_imm");
        reveal_strlit("and_inverted");
        assert(lex_lt("and_imm"@, "and_inverted"@)) by {
            reveal_with_fuel(lex_lt, 7);
        }
    } else if i == 6 {
        reveal_strlit("and_inverted");
        reveal_strlit("branch_eq");
        assert(lex_lt("and_inverted"@, "branch_eq"@)) by {
            reveal_with_fuel(lex_lt, 2);
        }
    } else if i == 7 {
        reveal_strlit("branch_eq");
        reveal_strlit("branch_eq_imm");
        assert(lex_lt("branch_eq"@, "branch_eq_imm"@)) by {
            reveal_with_fuel(lex_lt, 11);
        }
    } else if i == 8 {
        reveal_strlit("branch_eq_imm");
        reveal_strlit("branch_greater_or_equal_signed");
        assert(lex_lt("branch_eq_imm"@, "branch_greater_or_equal_signed"@)) by {
            reveal_with_fuel(lex_lt, 9);
        }
    } else if i == 9 {
        reveal_strlit("branch_greater_or_equal_signed");
        reveal_strlit("branch_greater_or_equal_signed_imm");
        assert(lex_lt("branch_greater_or_equal_signed"@, "branch_greater_or_equal_signed_imm"@)) by {
            reveal_with_fuel(lex_lt, 32);
        }
    } else if i == 10 {
        reveal_strlit("branch_greater_or_equal_signed_imm");
        reveal_strlit("branch_greater_or_equal_unsigned");
        assert(lex_lt("branch_greater_or_equal_signed_imm"@, "branch_greater_or_equal_unsigned"@)) by {
            reveal_with_fuel(lex_lt, 26);
        }
    } else if i == 11 {
        reveal_strlit("branch_greater_or_equal_unsigned");
        reveal_strlit("branch_greater_or_equal_unsigned_imm");
        assert(lex_lt("branch_greater_or_equal_unsigned"@, "branch_greater_or_equal_unsigned_imm"@)) by {
            reveal_with_fuel(lex_lt, 34);
        }
    } else if i == 12 {
        reveal_strlit("branch_greater_or_equal_unsigned_imm");
        reveal_strlit("branch_greater_signed_imm");
        assert(lex_lt("branch_greater_or_equal_unsigned_imm"@, "branch_greater_signed_imm"@)) by {
            reveal_with_fuel(lex_lt, 17);
        }
    } else if i == 13 {
        reveal_strlit("branch_greater_signed_imm");
        reveal_strlit("branch_greater_unsigned_imm");
        assert(lex_lt("branch_greater_signed_imm"@, "branch_greater_unsigned_imm"@)) by {
            reveal_with_fuel(lex_lt, 17);
        }
    } else if i == 14 {
        reveal_strlit("branch_greater_unsigned_imm");
        reveal_strlit("branch_less_or_equal_signed_imm");
        assert(lex_lt("branch_greater_unsigned_imm"@, "branch_less_or_equal_signed_imm"@)) by {
            reveal_with_fuel(lex_lt, 9);
        }
    } else if i == 15 {
        reveal_strlit("branch_less_or_equal_signed_imm");
        reveal_strlit("branch_less_or_equal_unsigned_imm");
        assert(lex_lt("branch_less_or_equal_signed_imm"@, "branch_less_or_equal_unsigned_imm"@)) by {
            reveal_with_fuel(lex_lt, 23);
        }
    } else if i == 16 {
        reveal_strlit("branch_less_or_equal_unsigned_imm");
        reveal_strlit("branch_less_signed");
        assert(lex_lt("branch_less_or_equal_unsigned_imm"@, "branch_less_signed"@)) by {
            reveal_with_fuel(lex_lt, 14);
        }
    } else if i == 17 {
        reveal_strlit("branch_less_signed");
        reveal_strlit("branch_less_signed_imm");
        assert(lex_lt("branch_less_signed"@, "branch_less_signed_imm"@)) by {
            reveal_with_fuel(lex_lt, 20);
        }
    } else if i == 18 {
        reveal_strlit("branch_less_signed_imm");
        reveal_strlit("branch_less_unsigned");
        assert(lex_lt("branch_less_signed_imm"@, "branch_less_unsigned"@)) by {
            reveal_with_fuel(lex_lt, 14);
        }
    } else if i == 19 {
        reveal_strlit("branch_less_unsigned");
        reveal_strlit("branch_less_unsigned_imm");
        assert(lex_lt("branch_less_unsigned"@, "branch_less_unsigned_imm"@)) by {
            reveal_with_fuel(lex_lt, 22);
        }
    } else if i == 20 {
        reveal_strlit("branch_less_unsigned_imm");
        reveal_strlit("branch_not_eq");
        assert(lex_lt("branch_less_unsigned_imm"@, "branch_not_eq"@)) by {
            reveal_with_fuel(lex_lt, 9);
        }
    } else if i == 21 {
        reveal_strlit("branch_not_eq");
        reveal_strlit("branch_not_eq_imm");
        assert(lex_lt("branch_not_eq"@, "branch_not_eq_imm"@)) by {
            reveal_with_fuel(lex_lt, 15);
        }
    } else if i == 22 {
        reveal_strlit("branch_not_eq_imm");
        reveal_strlit("cmov_if_not_zero");
        assert(lex_lt("branch_not_eq_imm"@, "cmov_if_not_zero"@)) by {
            reveal_with_fuel(lex_lt, 2);
        }
    } else if i == 23 {
        reveal_strlit("cmov_if_not_zero");
        reveal_strlit("cmov_if_not_zero_imm");
        assert(lex_lt("cmov_if_not_zero"@, "cmov_if_not_zero_imm"@)) by {
            reveal_with_fuel(lex_lt, 18);
        }
    } else if i == 24 {
        reveal_strlit("cmov_if_not_zero_imm");
        reveal_strlit("cmov_if_zero");
        assert(lex_lt("cmov_if_not_zero_imm"@, "cmov_if_zero"@)) by {
            reveal_with_fuel(lex_lt, 10);
        }
    } else if i == 25 {
        reveal_strlit("cmov_if_zero");
        reveal_strlit("cmov_if_zero_imm");
        assert(lex_lt("cmov_if_zero"@, "cmov_if_zero_imm"@)) by {
            reveal_with_fuel(lex_lt, 14);
        }
    } else if i == 26 {
        reveal_strlit("cmov_if_zero_imm");
        reveal_strlit("count_leading_zero_bits_32");
        assert(lex_lt("cmov_if_zero_imm"@, "count_leading_zero_bits_32"@)) by {
            reveal_with_fuel(lex_lt, 3);
        }
    } else if i == 27 {
        reveal_strlit("count_leading_zero_bits_32");
        reveal_strlit("count_leading_zero_bits_64");
        assert(lex_lt("count_leading_zero_bits_32"@, "count_leading_zero_bits_64"@)) by {
            reveal_with_fuel(lex_lt, 26);
        }
    } else if i == 28 {
        reveal_strlit("count_leading_zero_bits_64");
        reveal_strlit("count_set_bits_32");
        assert(lex_lt("count_leading_zero_bits_64"@, "count_set_bits_32"@)) by {
            reveal_with_fuel(lex_lt, 8);
        }
    } else if i == 29 {
        reveal_strlit("count_set_bits_32");
        reveal_strlit("count_set_bits_64");
        assert(lex_lt("count_set_bits_32"@, "count_set_bits_64"@)) by {
            reveal_with_fuel(lex_lt, 17);
        }
    } else if i == 30 {
        reveal_strlit("count_set_bits_64");
        reveal_strlit("count_trailing_zero_bits_32");
        assert(lex_lt("count_set_bits_64"@, "count_trailing_zero_bits_32"@)) by {
            reveal_with_fuel(lex_lt, 8);
        }
    } else if i == 31 {
        reveal_strlit("count_trailing_zero_bits_32");
        reveal_strlit("count_trailing_zero_bits_64");
        assert(lex_lt("count_trailing_zero_bits_32"@, "count_trailing_zero_bits_64"@)) by {
            reveal_with_fuel(lex_lt, 27);
        }
    } else if i == 32 {
        reveal_strlit("count_trailing_zero_bits_64");
        reveal_strlit("div_signed_32");
        assert(lex_lt("count_trailing_zero_bits_64"@, "div_signed_32"@)) by {
            reveal_with_fuel(lex_lt, 2);
        }
    } else if i == 33 {
        reveal_strlit("div_signed_32");
        reveal_strlit("div_signed_64");
        assert(lex_lt("div_signed_32"@, "div_signed_64"@)) by {
            reveal_with_fuel(lex_lt, 13);
        }
    } else if i == 34 {
        reveal_strlit("div_signed_64");
        reveal_strlit("div_unsigned_32");
        assert(lex_lt("div_signed_64"@, "div_unsigned_32"@)) by {
            reveal_with_fuel(lex_lt, 6);
        }
    } else if i == 35 {
        reveal_strlit("div_unsigned_32");
        reveal_strlit("div_unsigned_64");
        assert(lex_lt("div_unsigned_32"@, "div_unsigned_64"@)) by {
            reveal_with_fuel(lex_lt, 15);
        }
    } else if i == 36 {
        reveal_strlit("div_unsigned_64");
        reveal_strlit("ecalli");
        assert(lex_lt("div_unsigned_64"@, "ecalli"@)) by {
            reveal_with_fuel(lex_lt, 2);
        }
    } else if i == 37 {
        reveal_strlit("ecalli");
        reveal_strlit("fallthrough");
        assert(lex_lt("ecalli"@, "fallthrough"@)) by {
            reveal_with_fuel(lex_lt, 2);
        }
    } else if i == 38 {
        reveal_strlit("fallthrough");
        reveal_strlit("invalid");
        assert(lex_lt("fallthrough"@, "invalid"@)) by {
            reveal_with_fuel(lex_lt, 2);
        }
    } else if i == 39 {
        reveal_strlit("invalid");
        reveal_strlit("jump");
        assert(lex_lt("invalid"@, "jump"@)) by {
            reveal_with_fuel(lex_lt, 2);
        }
    } else if i == 40 {
        reveal_strlit("jump");
        reveal_strlit("jump_indirect");
        assert(lex_lt("jump"@, "jump_indirect"@)) by {
            reveal_with_fuel(lex_lt, 6);
        }
    } else if i == 41 {
        reveal_strlit("jump_indirect");
        reveal_strlit("load_i16");
        assert(lex_lt("jump_indirect"@, "load_i16"@)) by {
            reveal_with_fuel(lex_lt, 2);
        }
    } else if i == 42 {
        reveal_strlit("load_i16");
        reveal_strlit("load_i32");
        assert(lex_lt("load_i16"@, "load_i32"@)) by {
            reveal_with_fuel(lex_lt, 8);
        }
    } else if i == 43 {
        reveal_strlit("load_i32");
        reveal_strlit("load_i8");
        assert(lex_lt("load_i32"@, "load_i8"@)) by {
            reveal_with_fuel(lex_lt, 8);
        }
    } else if i == 44 {
        reveal_strlit("load_i8");
        reveal_strlit("load_imm");
        assert(lex_lt("load_i8"@, "load_imm"@)) by {
            reveal_with_fuel(lex_lt, 8);
        }
    } else if i == 45 {
        reveal_strlit("load_imm");
        reveal_strlit("load_imm64");
        assert(lex_lt("load_imm"@, "load_imm64"@)) by {
            reveal_with_fuel(lex_lt, 10);
        }
    } else if i == 46 {
        reveal_strlit("load_imm64");
        reveal_strlit("load_imm_and_jump");
        assert(lex_lt("load_imm64"@, "load_imm_and_jump"@)) by {
            reveal_with_fuel(lex_lt, 10);
        }
    } else if i == 47 {
        reveal_strlit("load_imm_and_jump");
        reveal_strlit("load_imm_and_jump_indirect");
        assert(lex_lt("load_imm_and_jump"@, "load_imm_and_jump_indirect"@)) by {
            reveal_with_fuel(lex_lt, 19);
        }
    } else if i == 48 {
        reveal_strlit("load_imm_and_jump_indirect");
        reveal_strlit("load_indirect_i16");
        assert(lex_lt("load_imm_and_jump_indirect"@, "load_indirect_i16"@)) by {
            reveal_with_fuel(lex_lt, 8);
        }
    } else if i == 49 {
        reveal_strlit("load_indirect_i16");
        reveal_strlit("load_indirect_i32");
        assert(lex_lt("load_indirect_i16"@, "load_indirect_i32"@)) by {
            reveal_with_fuel(lex_lt, 17);
        }
    } else if i == 50 {
        reveal_strlit("load_indirect_i32");
        reveal_strlit("load_indirect_i8");
        assert(lex_lt("load_indirect_i32"@, "load_indirect_i8"@)) by {
            reveal_with_fuel(lex_lt, 17);
        }
    } else if i == 51 {
        reveal_strlit("load_indirect_i8");
        reveal_strlit("load_indirect_u16");
        assert(lex_lt("load_indirect_i8"@, "load_indirect_u16"@)) by {
            reveal_with_fuel(lex_lt, 16);
        }
    } else if i == 52 {
        reveal_strlit("load_indirect_u16");
        reveal_strlit("load_indirect_u32");
        assert(lex_lt("load_indirect_u16"@, "load_indirect_u32"@)) by {
            reveal_with_fuel(lex_lt, 17);
        }
    } else if i == 53 {
        reveal_strlit("load_indirect_u32");
        reveal_strlit("load_indirect_u64");
        assert(lex_lt("load_indirect_u32"@, "load_indirect_u64"@)) by {
            reveal_with_fuel(lex_lt, 17);
        }
    } else if i == 54 {
        reveal_strlit("load_indirect_u64");
        reveal_strlit("load_indirect_u8");
        assert(lex_lt("load_indirect_u64"@, "load_indirect_u8"@)) by {
            reveal_with_fuel(lex_lt, 17);
        }
    } else if i == 55 {
        reveal_strlit("load_indirect_u8");
        reveal_strlit("load_u16");
        assert(lex_lt("load_indirect_u8"@, "load_u16"@)) by {
            reveal_with_fuel(lex_lt, 7);
        }
    } else if i == 56 {
        reveal_strlit("load_u16");
        reveal_strlit("load_u32");
        assert(lex_lt("load_u16"@, "load_u32"@)) by {
            reveal_with_fuel(lex_lt, 8);
        }
    } else if i == 57 {
        reveal_strlit("load_u32");
        reveal_strlit("load_u64");
        assert(lex_lt("load_u32"@, "load_u64"@)) by {
            reveal_with_fuel(lex_lt, 8);
        }
    } else if i == 58 {
        reveal_strlit("load_u64");
        reveal_strlit("load_u8");
        assert(lex_lt("load_u64"@, "load_u8"@)) by {
            reveal_with_fuel(lex_lt, 8);
        }
    } else if i == 59 {
        reveal_strlit("load_u8");
        reveal_strlit("maximum");
        assert(lex_lt("load_u8"@, "maximum"@)) by {
            reveal_with_fuel(lex_lt, 2);
        }
    } else if i == 60 {
        reveal_strlit("maximum");
        reveal_strlit("maximum_unsigned");
        assert(lex_lt("maximum"@, "maximum_unsigned"@)) by {
            reveal_with_fuel(lex_lt, 9);
        }
    } else if i == 61 {
        reveal_strlit("maximum_unsigned");
        reveal_strlit("memset");
        assert(lex_lt("maximum_unsigned"@, "memset"@)) by {
            reveal_with_fuel(lex_lt, 3);
        }
    } else if i == 62 {
        reveal_strlit("memset");
        reveal_strlit("minimum");
        assert(lex_lt("memset"@, "minimum"@)) by {
            reveal_with_fuel(lex_lt, 3);
        }
    } else if i == 63 {
        reveal_strlit("minimum");
        reveal_strlit("minimum_unsigned");
        assert(lex_lt("minimum"@, "minimum_unsigned"@)) by {
            reveal_with_fuel(lex_lt, 9);
        }
    } else if i == 64 {
        reveal_strlit("minimum_unsigned");
        reveal_strlit("move_reg");
        assert(lex_lt("minimum_unsigned"@, "move_reg"@)) by {
            reveal_with_fuel(lex_lt, 3);
        }
    } else if i == 65 {
        reveal_strlit("move_reg");
        reveal_strlit("mul_32");
        assert(lex_lt("move_reg"@, "mul_32"@)) by {
            reveal_with_fuel(lex_lt, 3);
        }
    } else if i == 66 {
        reveal_strlit("mul_32");
        reveal_strlit("mul_64");
        assert(lex_lt("mul_32"@, "mul_64"@)) by {
            reveal_with_fuel(lex_lt, 6);
        }
    } else if i == 67 {
        reveal_strlit("mul_64");
        reveal_strlit("mul_imm_32");
        assert(lex_lt("mul_64"@, "mul_imm_32"@)) by {
            reveal_with_fuel(lex_lt, 6);
        }
    } else if i == 68 {
        reveal_strlit("mul_imm_32");
        reveal_strlit("mul_imm_64");
        assert(lex_lt("mul_imm_32"@, "mul_imm_64"@)) by {
            reveal_with_fuel(lex_lt, 10);
        }
    } else if i == 69 {
        reveal_strlit("mul_imm_64");
        reveal_strlit("mul_upper_signed_signed");
        assert(lex_lt("mul_imm_64"@, "mul_upper_signed_signed"@)) by {
            reveal_with_fuel(lex_lt, 6);
        }
    } else if i == 70 {
        reveal_strlit("mul_upper_signed_signed");
        reveal_strlit("mul_upper_signed_unsigned");
        assert(lex_lt("mul_upper_signed_signed"@, "mul_upper_signed_unsigned"@)) by {
            reveal_with_fuel(lex_lt, 19);
        }
    } else if i == 71 {
        reveal_strlit("mul_upper_signed_unsigned");
        reveal_strlit("mul_upper_unsigned_unsigned");
        assert(lex_lt("mul_upper_signed_unsigned"@, "mul_upper_unsigned_unsigned"@)) by {
            reveal_with_fuel(lex_lt, 12);
        }
    } else if i == 72 {
        reveal_strlit("mul_upper_unsigned_unsigned");
        reveal_strlit("negate_and_add_imm_32");
        assert(lex_lt("mul_upper_unsigned_unsigned"@, "negate_and_add_imm_32"@)) by {
            reveal_with_fuel(lex_lt, 2);
        }
    } else if i == 73 {
        reveal_strlit("negate_and_add_imm_32");
        reveal_strlit("negate_and_add_imm_64");
        assert(lex_lt("negate_and_add_imm_32"@, "negate_and_add_imm_64"@)) by {
            reveal_with_fuel(lex_lt, 21);
        }
    } else if i == 74 {
        reveal_strlit("negate_and_add_imm_64");
        reveal_strlit("or");
        assert(lex_lt("negate_and_add_imm_64"@, "or"@)) by {
            reveal_with_fuel(lex_lt, 2);
        }
    } else if i == 75 {
        reveal_strlit("or");
        reveal_strlit("or_imm");
        assert(lex_lt("or"@, "or_imm"@)) by {
            reveal_with_fuel(lex_lt, 4);
        }
    } else if i == 76 {
        reveal_strlit("or_imm");
        reveal_strlit("or_inverted");
        assert(lex_lt("or_imm"@, "or_inverted"@)) by {
            reveal_with_fuel(lex_lt, 6);
        }
    } else if i == 77 {
        reveal_strlit("or_inverted");
        reveal_strlit("rem_signed_32");
        assert(lex_lt("or_inverted"@, "rem_signed_32"@)) by {
            reveal_with_fuel(lex_lt, 2);
        }
    } else if i == 78 {
        reveal_strlit("rem_signed_32");
        reveal_strlit("rem_signed_64");
        assert(lex_lt("rem_signed_32"@, "rem_signed_64"@)) by {
            reveal_with_fuel(lex_lt, 13);
        }
    } else if i == 79 {
        reveal_strlit("rem_signed_64");
        reveal_strlit("rem_unsigned_32");
        assert(lex_lt("rem_signed_64"@, "rem_unsigned_32"@)) by {
            reveal_with_fuel(lex_lt, 6);
        }
    } else if i == 80 {
        reveal_strlit("rem_unsigned_32");
        reveal_strlit("rem_unsigned_64");
        assert(lex_lt("rem_unsigned_32"@, "rem_unsigned_64"@)) by {
            reveal_with_fuel(lex_lt, 15);
        }
    } else if i == 81 {
        reveal_strlit("rem_unsigned_64");
        reveal_strlit("reverse_byte");
        assert(lex_lt("rem_unsigned_64"@, "reverse_byte"@)) by {
            reveal_with_fuel(lex_lt, 4);
        }
    } else if i == 82 {
        reveal_strlit("reverse_byte");
        reveal_strlit("rotate_left_32");
        assert(lex_lt("reverse_byte"@, "rotate_left_32"@)) by {
            reveal_with_fuel(lex_lt, 3);
        }
    } else if i == 83 {
        reveal_strlit("rotate_left_32");
        reveal_strlit("rotate_left_64");
        assert(lex_lt("rotate_left_32"@, "rotate_left_64"@)) by {
            reveal_with_fuel(lex_lt, 14);
        }
    } else if i == 84 {
        reveal_strlit("rotate_left_64");
        reveal_strlit("rotate_right_32");
        assert(lex_lt("rotate_left_64"@, "rotate_right_32"@)) by {
            reveal_with_fuel(lex_lt, 9);
        }
    } else if i == 85 {
        reveal_strlit("rotate_right_32");
        reveal_strlit("rotate_right_64");
        assert(lex_lt("rotate_right_32"@, "rotate_right_64"@)) by {
            reveal_with_fuel(lex_lt, 15);
        }
    } else if i == 86 {
        reveal_strlit("rotate_right_64");
        reveal_strlit("rotate_right_imm_32");
        assert(lex_lt("rotate_right_64"@, "rotate_right_imm_32"@)) by {
            reveal_with_fuel(lex_lt, 15);
        }
    } else if i == 87 {
        reveal_strlit("rotate_right_imm_32");
        reveal_strlit("rotate_right_imm_64");
        assert(lex_lt("rotate_right_imm_32"@, "rotate_right_imm_64"@)) by {
            reveal_with_fuel(lex_lt, 19);
        }
    } else if i == 88 {
        reveal_strlit("rotate_right_imm_64");
        reveal_strlit("rotate_right_imm_alt_32");
        assert(lex_lt("rotate_right_imm_64"@, "rotate_right_imm_alt_32"@)) by {
            reveal_with_fuel(lex_lt, 19);
        }
    } else if i == 89 {
        reveal_strlit("rotate_right_imm_alt_32");
        reveal_strlit("rotate_right_imm_alt_64");
        assert(lex_lt("rotate_right_imm_alt_32"@, "rotate_right_imm_alt_64"@)) by {
            reveal_with_fuel(lex_lt, 23);
        }
    } else if i == 90 {
        reveal_strlit("rotate_right_imm_alt_64");
        reveal_strlit("sbrk");
        assert(lex_lt("rotate_right_imm_alt_64"@, "sbrk"@)) by {
            reveal_with_fuel(lex_lt, 2);
        }
    } else if i == 91 {
        reveal_strlit("sbrk");
        reveal_strlit("set_greater_than_signed_imm");
        assert(lex_lt("sbrk"@, "set_greater_than_signed_imm"@)) by {
            reveal_with_fuel(lex_lt, 3);
        }
    } else if i == 92 {
        reveal_strlit("set_greater_than_signed_imm");
        reveal_strlit("set_greater_than_unsigned_imm");
        assert(lex_lt("set_greater_than_signed_imm"@, "set_greater_than_unsigned_imm"@)) by {
            reveal_with_fuel(lex_lt, 19);
        }
    } else if i == 93 {
        reveal_strlit("set_greater_than_unsigned_imm");
        reveal_strlit("set_less_than_signed");
        assert(lex_lt("set_greater_than_unsigned_imm"@, "set_less_than_signed"@)) by {
            reveal_with_fuel(lex_lt, 6);
        }
    } else if i == 94 {
        reveal_strlit("set_less_than_signed");
        reveal_strlit("set_less_than_signed_imm");
        assert(lex_lt("set_less_than_signed"@, "set_less_than_signed_imm"@)) by {
            reveal_with_fuel(lex_lt, 22);
        }
    } else if i == 95 {
        reveal_strlit("set_less_than_signed_imm");
        reveal_strlit("set_less_than_unsigned");
        assert(lex_lt("set_less_than_signed_imm"@, "set_less_than_unsigned"@)) by {
            reveal_with_fuel(lex_lt, 16);
        }
    } else if i == 96 {
        reveal_strlit("set_less_than_unsigned");
        reveal_strlit("set_less_than_unsigned_imm");
        assert(lex_lt("set_less_than_unsigned"@, "set_less_than_unsigned_imm"@)) by {
            reveal_with_fuel(lex_lt, 24);
        }
    } else if i == 97 {
        reveal_strlit("set_less_than_unsigned_imm");
        reveal_strlit("shift_arithmetic_right_32");
        assert(lex_lt("set_less_than_unsigned_imm"@, "shift_arithmetic_right_32"@)) by {
            reveal_with_fuel(lex_lt, 3);
        }
    } else if i == 98 {
        reveal_strlit("shift_arithmetic_right_32");
        reveal_strlit("shift_arithmetic_right_64");
        assert(lex_lt("shift_arithmetic_right_32"@, "shift_arithmetic_right_64"@)) by {
            reveal_with_fuel(lex_lt, 25);
        }
    } else if i == 99 {
        reveal_strlit("shift_arithmetic_right_64");
        reveal_strlit("shift_arithmetic_right_imm_32");
        assert(lex_lt("shift_arithmetic_right_64"@, "shift_arithmetic_right_imm_32"@)) by {
            reveal_with_fuel(lex_lt, 25);
        }
    } else if i == 100 {
        reveal_strlit("shift_arithmetic_right_imm_32");
        reveal_strlit("shift_arithmetic_right_imm_64");
        assert(lex_lt("shift_arithmetic_right_imm_32"@, "shift_arithmetic_right_imm_64"@)) by {
            reveal_with_fuel(lex_lt, 29);
        }
    } else if i == 101 {
        reveal_strlit("shift_arithmetic_right_imm_64");
        reveal_strlit("shift_arithmetic_right_imm_alt_32");
        assert(lex_lt("shift_arithmetic_right_imm_64"@, "shift_arithmetic_right_imm_alt_32"@)) by {
            reveal_with_fuel(lex_lt, 29);
        }
    } else if i == 102 {
        reveal_strlit("shift_arithmetic_right_imm_alt_32");
        reveal_strlit("shift_arithmetic_right_imm_alt_64");
        assert(lex_lt("shift_arithmetic_right_imm_alt_32"@, "shift_arithmetic_right_imm_alt_64"@)) by {
            reveal_with_fuel(lex_lt, 33);
        }
    } else if i == 103 {
        reveal_strlit("shift_arithmetic_right_imm_alt_64");
        reveal_strlit("shift_logical_left_32");
        assert(lex_lt("shift_arithmetic_right_imm_alt_64"@, "shift_logical_left_32"@)) by {
            reveal_with_fuel(lex_lt, 8);
        }
    } else if i == 104 {
        reveal_strlit("shift_logical_left_32");
        reveal_strlit("shift_logical_left_64");
        assert(lex_lt("shift_logical_left_32"@, "shift_logical_left_64"@)) by {
            reveal_with_fuel(lex_lt, 21);
        }
    } else if i == 105 {
        reveal_strlit("shift_logical_left_64");
        reveal_strlit("shift_logical_left_imm_32");
        assert(lex_lt("shift_logical_left_64"@, "shift_logical_left_imm_32"@)) by {
            reveal_with_fuel(lex_lt, 21);
        }
    } else if i == 106 {
        reveal_strlit("shift_logical_left_imm_32");
        reveal_strlit("shift_logical_left_imm_64");
        assert(lex_lt("shift_logical_left_imm_32"@, "shift_logical_left_imm_64"@)) by {
            reveal_with_fuel(lex_lt, 25);
        }
    } else if i == 107 {
        reveal_strlit("shift_logical_left_imm_64");
        reveal_strlit("shift_logical_left_imm_alt_32");
        assert(lex_lt("shift_logical_left_imm_64"@, "shift_logical_left_imm_alt_32"@)) by {
            reveal_with_fuel(lex_lt, 25);
        }
    } else if i == 108 {
        reveal_strlit("shift_logical_left_imm_alt_32");
        reveal_strlit("shift_logical_left_imm_alt_64");
        assert(lex_lt("shift_logical_left_imm_alt_32"@, "shift_logical_left_imm_alt_64"@)) by {
            reveal_with_fuel(lex_lt, 29);
        }
    } else if i == 109 {
        reveal_strlit("shift_logical_left_imm_alt_64");
        reveal_strlit("shift_logical_right_32");
        assert(lex_lt("shift_logical_left_imm_alt_64"@, "shift_logical_right_32"@)) by {
            reveal_with_fuel(lex_lt, 16);
        }
    } else if i == 110 {
        reveal_strlit("shift_logical_right_32");
        reveal_strlit("shift_logical_right_64");
        assert(lex_lt("shift_logical_right_32"@, "shift_logical_right_64"@)) by {
            reveal_with_fuel(lex_lt, 22);
        }
    } else if i == 111 {
        reveal_strlit("shift_logical_right_64");
        reveal_strlit("shift_logical_right_imm_32");
        assert(lex_lt("shift_logical_right_64"@, "shift_logical_right_imm_32"@)) by {
            reveal_with_fuel(lex_lt, 22);
        }
    } else if i == 112 {
        reveal_strlit("shift_logical_right_imm_32");
        reveal_strlit("shift_logical_right_imm_64");
        assert(lex_lt("shift_logical_right_imm_32"@, "shift_logical_right_imm_64"@)) by {
            reveal_with_fuel(lex_lt, 26);
        }
    } else if i == 113 {
        reveal_strlit("shift_logical_right_imm_64");
        reveal_strlit("shift_logical_right_imm_alt_32");
        assert(lex_lt("shift_logical_right_imm_64"@, "shift_logical_right_imm_alt_32"@)) by {
            reveal_with_fuel(lex_lt, 26);
        }
    } else if i == 114 {
        reveal_strlit("shift_logical_right_imm_alt_32");
        reveal_strlit("shift_logical_right_imm_alt_64");
        assert(lex_lt("shift_logical_right_imm_alt_32"@, "shift_logical_right_imm_alt_64"@)) by {
            reveal_with_fuel(lex_lt, 30);
        }
    } else if i == 115 {
        reveal_strlit("shift_logical_right_imm_alt_64");
        reveal_strlit("sign_extend_16");
        assert(lex_lt("shift_logical_right_imm_alt_64"@, "sign_extend_16"@)) by {
            reveal_with_fuel(lex_lt, 3);
        }
    } else if i == 116 {
        reveal_strlit("sign_extend_16");
        reveal_strlit("sign_extend_8");
        assert(lex_lt("sign_extend_16"@, "sign_extend_8"@)) by {
            reveal_with_fuel(lex_lt, 14);
        }
    } else if i == 117 {
        reveal_strlit("sign_extend_8");
        reveal_strlit("store_imm_indirect_u16");
        assert(lex_lt("sign_extend_8"@, "store_imm_indirect_u16"@)) by {
            reveal_with_fuel(lex_lt, 3);
        }
    } else if i == 118 {
        reveal_strlit("store_imm_indirect_u16");
        reveal_strlit("store_imm_indirect_u32");
        assert(lex_lt("store_imm_indirect_u16"@, "store_imm_indirect_u32"@)) by {
            reveal_with_fuel(lex_lt, 22);
        }
    } else if i == 119 {
        reveal_strlit("store_imm_indirect_u32");
        reveal_strlit("store_imm_indirect_u64");
        assert(lex_lt("store_imm_indirect_u32"@, "store_imm_indirect_u64"@)) by {
            reveal_with_fuel(lex_lt, 22);
        }
    } else if i == 120 {
        reveal_strlit("store_imm_indirect_u64");
        reveal_strlit("store_imm_indirect_u8");
        assert(lex_lt("store_imm_indirect_u64"@, "store_imm_indirect_u8"@)) by {
            reveal_with_fuel(lex_lt, 22);
        }
    } else if i == 121 {
        reveal_strlit("store_imm_indirect_u8");
        reveal_strlit("store_imm_u16");
        assert(lex_lt("store_imm_indirect_u8"@, "store_imm_u16"@)) by {
            reveal_with_fuel(lex_lt, 12);
        }
    } else if i == 122 {
        reveal_strlit("store_imm_u16");
        reveal_strlit("store_imm_u32");
        assert(lex_lt("store_imm_u16"@, "store_imm_u32"@)) by {
            reveal_with_fuel(lex_lt, 13);
        }
    } else if i == 123 {
        reveal_strlit("store_imm_u32");
        reveal_strlit("store_imm_u64");
        assert(lex_lt("store_imm_u32"@, "store_imm_u64"@)) by {
            reveal_with_fuel(lex_lt, 13);
        }
    } else if i == 124 {
        reveal_strlit("store_imm_u64");
        reveal_strlit("store_imm_u8");
        assert(lex_lt("store_imm_u64"@, "store_imm_u8"@)) by {
            reveal_with_fuel(lex_lt, 13);
        }
    } else if i == 125 {
        reveal_strlit("store_imm_u8");
        reveal_strlit("store_indirect_u16");
        assert(lex_lt("store_imm_u8"@, "store_indirect_u16"@)) by {
            reveal_with_fuel(lex_lt, 9);
        }
    } else if i == 126 {
        reveal_strlit("store_indirect_u16");
        reveal_strlit("store_indirect_u32");
        assert(lex_lt("store_indirect_u16"@, "store_indirect_u32"@)) by {
            reveal_with_fuel(lex_lt, 18);
        }
    } else if i == 127 {
        reveal_strlit("store_indirect_u32");
        reveal_strlit("store_indirect_u64");
        assert(lex_lt("store_indirect_u32"@, "store_indirect_u64"@)) by {
            reveal_with_fuel(lex_lt, 18);
        }
    } else if i == 128 {
        reveal_strlit("store_indirect_u64");
        reveal_strlit("store_indirect_u8");
        assert(lex_lt("store_indirect_u64"@, "store_indirect_u8"@)) by {
            reveal_with_fuel(lex_lt, 18);
        }
    } else if i == 129 {
        reveal_strlit("store_indirect_u8");
        reveal_strlit("store_u16");
        assert(lex_lt("store_indirect_u8"@, "store_u16"@)) by {
            reveal_with_fuel(lex_lt, 8);
        }
    } else if i == 130 {
        reveal_strlit("store_u16");
        reveal_strlit("store_u32");
        assert(lex_lt("store_u16"@, "store_u32"@)) by {
            reveal_with_fuel(lex_lt, 9);
        }
    } else if i == 131 {
        reveal_strlit("store_u32");
        reveal_strlit("store_u64");
        assert(lex_lt("store_u32"@, "store_u64"@)) by {
            reveal_with_fuel(lex_lt, 9);
        }
    } else if i == 132 {
        reveal_strlit("store_u64");
        reveal_strlit("store_u8");
        assert(lex_lt("store_u64"@, "store_u8"@)) by {
            reveal_with_fuel(lex_lt, 9);
        }
    } else if i == 133 {
        reveal_strlit("store_u8");
        reveal_strlit("sub_32");
        assert(lex_lt("store_u8"@, "sub_32"@)) by {
            reveal_with_fuel(lex_lt, 3);
        }
    } else if i == 134 {
        reveal_strlit("sub_32");
        reveal_strlit("sub_64");
        assert(lex_lt("sub_32"@, "sub_64"@)) by {
            reveal_with_fuel(lex_lt, 6);
        }
    } else if i == 135 {
        reveal_strlit("sub_64");
        reveal_strlit("trap");
        assert(lex_lt("sub_64"@, "trap"@)) by {
            reveal_with_fuel(lex_lt, 2);
        }
    } else if i == 136 {
        reveal_strlit("trap");
        reveal_strlit("xnor");
        assert(lex_lt("trap"@, "xnor"@)) by {
            reveal_with_fuel(lex_lt, 2);
        }
    } else if i == 137 {
        reveal_strlit("xnor");
        reveal_strlit("xor");
        assert(lex_lt("xnor"@, "xor"@)) by {
            reveal_with_fuel(lex_lt, 3);
        }
    } else if i == 138 {
        reveal_strlit("xor");
        reveal_strlit("xor_imm");
        assert(lex_lt("xor"@, "xor_imm"@)) by {
            reveal_with_fuel(lex_lt, 5);
        }
    } else if i == 139 {
        reveal_strlit("xor_imm");
        reveal_strlit("zero_extend_16");
        assert(lex_lt("xor_imm"@, "zero_extend_16"@)) by {
            reveal_with_fuel(lex_lt, 2);
        }
    }
}

proof fn lemma_names_ordered(i: int, j: int)
    requires
        0 <= i < j < INSTRUCTION_COUNT,
    ensures
        lex_lt(instruction_name(i), instruction_name(j)),
    decreases j - i,
{
    lemma_names_sorted_at(j - 1);
    if i < j - 1 {
        lemma_names_ordered(i, j - 1);
        lemma_lex_lt_transitive(instruction_name(i), instruction_name(j - 1), instruction_name(j));
    }
}

/// No two instructions share a name.
pub proof fn lemma_names_distinct(i: int, j: int)
    requires
        0 <= i < INSTRUCTION_COUNT,
        0 <= j < INSTRUCTION_COUNT,
        i != j,
    ensures
        instruction_name(i) != instruction_name(j),
{
    if i < j {
        lemma_names_ordered(i, j);
    } else {
        lemma_names_ordered(j, i);
    }
    lemma_lex_lt_irreflexive(instruction_name(i));
}

} // verus!
