use vstd::prelude::*;

verus! {
/// Number of instructions in the fixed instruction set.
pub const INSTRUCTION_COUNT: usize = 141;

/// The name of the instruction at position `i` of the canonical order.
pub open spec fn instruction_name(i: int) -> Seq<char> {
    if i == 0 {
        "add_32"@
    } else     if i == 1 {
        "add_64"@
    } else     if i == 2 {
        "add_imm_32"@
    } else     if i == 3 {
        "add_imm_64"@
    } else     if i == 4 {
        "and"@
    } else     if i == 5 {
        "and_imm"@
    } else     if i == 6 {
        "and_inverted"@
    } else     if i == 7 {
        "branch_eq"@
    } else     if i == 8 {
        "branch_eq_imm"@
    } else     if i == 9 {
        "branch_greater_or_equal_signed"@
    } else     if i == 10 {
        "branch_greater_or_equal_signed_imm"@
    } else     if i == 11 {
        "branch_greater_or_equal_unsigned"@
    } else     if i == 12 {
        "branch_greater_or_equal_unsigned_imm"@
    } else     if i == 13 {
        "branch_greater_signed_imm"@
    } else     if i == 14 {
        "branch_greater_unsigned_imm"@
    } else     if i == 15 {
        "branch_less_or_equal_signed_imm"@
    } else     if i == 16 {
        "branch_less_or_equal_unsigned_imm"@
    } else     if i == 17 {
        "branch_less_signed"@
    } else     if i == 18 {
        "branch_less_signed_imm"@
    } else     if i == 19 {
        "branch_less_unsigned"@
    } else     if i == 20 {
        "branch_less_unsigned_imm"@
    } else     if i == 21 {
        "branch_not_eq"@
    } else     if i == 22 {
        "branch_not_eq_imm"@
    } else     if i == 23 {
        "cmov_if_not_zero"@
    } else     if i == 24 {
        "cmov_if_not_zero_imm"@
    } else     if i == 25 {
        "cmov_if_zero"@
    } else     if i == 26 {
        "cmov_if_zero_imm"@
    } else     if i == 27 {
        "count_leading_zero_bits_32"@
    } else     if i == 28 {
        "count_leading_zero_bits_64"@
    } else     if i == 29 {
        "count_set_bits_32"@
    } else     if i == 30 {
        "count_set_bits_64"@
    } else     if i == 31 {
        "count_trailing_zero_bits_32"@
    } else     if i == 32 {
        "count_trailing_zero_bits_64"@
    } else     if i == 33 {
        "div_signed_32"@
    } else     if i == 34 {
        "div_signed_64"@
    } else     if i == 35 {
        "div_unsigned_32"@
    } else     if i == 36 {
        "div_unsigned_64"@
    } else     if i == 37 {
        "ecalli"@
    } else     if i == 38 {
        "fallthrough"@
    } else     if i == 39 {
        "invalid"@
    } else     if i == 40 {
        "jump"@
    } else     if i == 41 {
        "jump_indirect"@
    } else     if i == 42 {
        "load_i16"@
    } else     if i == 43 {
        "load_i32"@
    } else     if i == 44 {
        "load_i8"@
    } else     if i == 45 {
        "load_imm"@
    } else     if i == 46 {
        "load_imm64"@
    } else     if i == 47 {
        "load_imm_and_jump"@
    } else     if i == 48 {
        "load_imm_and_jump_indirect"@
    } else     if i == 49 {
        "load_indirect_i16"@
    } else     if i == 50 {
        "load_indirect_i32"@
    } else     if i == 51 {
        "load_indirect_i8"@
    } else     if i == 52 {
        "load_indirect_u16"@
    } else     if i == 53 {
        "load_indirect_u32"@
    } else     if i == 54 {
        "load_indirect_u64"@
    } else     if i == 55 {
        "load_indirect_u8"@
    } else     if i == 56 {
        "load_u16"@
    } else     if i == 57 {
        "load_u32"@
    } else     if i == 58 {
        "load_u64"@
    } else     if i == 59 {
        "load_u8"@
    } else     if i == 60 {
        "maximum"@
    } else     if i == 61 {
        "maximum_unsigned"@
    } else     if i == 62 {
        "memset"@
    } else     if i == 63 {
        "minimum"@
    } else     if i == 64 {
        "minimum_unsigned"@
    } else     if i == 65 {
        "move_reg"@
    } else     if i == 66 {
        "mul_32"@
    } else     if i == 67 {
        "mul_64"@
    } else     if i == 68 {
        "mul_imm_32"@
    } else     if i == 69 {
        "mul_imm_64"@
    } else     if i == 70 {
        "mul_upper_signed_signed"@
    } else     if i == 71 {
        "mul_upper_signed_unsigned"@
    } else     if i == 72 {
        "mul_upper_unsigned_unsigned"@
    } else     if i == 73 {
        "negate_and_add_imm_32"@
    } else     if i == 74 {
        "negate_and_add_imm_64"@
    } else     if i == 75 {
        "or"@
    } else     if i == 76 {
        "or_imm"@
    } else     if i == 77 {
        "or_inverted"@
    } else     if i == 78 {
        "rem_signed_32"@
    } else     if i == 79 {
        "rem_signed_64"@
    } else     if i == 80 {
        "rem_unsigned_32"@
    } else     if i == 81 {
        "rem_unsigned_64"@
    } else     if i == 82 {
        "reverse_byte"@
    } else     if i == 83 {
        "rotate_left_32"@
    } else     if i == 84 {
        "rotate_left_64"@
    } else     if i == 85 {
        "rotate_right_32"@
    } else     if i == 86 {
        "rotate_right_64"@
    } else     if i == 87 {
        "rotate_right_imm_32"@
    } else     if i == 88 {
        "rotate_right_imm_64"@
    } else     if i == 89 {
        "rotate_right_imm_alt_32"@
    } else     if i == 90 {
        "rotate_right_imm_alt_64"@
    } else     if i == 91 {
        "sbrk"@
    } else     if i == 92 {
        "set_greater_than_signed_imm"@
    } else     if i == 93 {
        "set_greater_than_unsigned_imm"@
    } else     if i == 94 {
        "set_less_than_signed"@
    } else     if i == 95 {
        "set_less_than_signed_imm"@
    } else     if i == 96 {
        "set_less_than_unsigned"@
    } else     if i == 97 {
        "set_less_than_unsigned_imm"@
    } else     if i == 98 {
        "shift_arithmetic_right_32"@
    } else     if i == 99 {
        "shift_arithmetic_right_64"@
    } else     if i == 100 {
        "shift_arithmetic_right_imm_32"@
    } else     if i == 101 {
        "shift_arithmetic_right_imm_64"@
    } else     if i == 102 {
        "shift_arithmetic_right_imm_alt_32"@
    } else     if i == 103 {
        "shift_arithmetic_right_imm_alt_64"@
    } else     if i == 104 {
        "shift_logical_left_32"@
    } else     if i == 105 {
        "shift_logical_left_64"@
    } else     if i == 106 {
        "shift_logical_left_imm_32"@
    } else     if i == 107 {
        "shift_logical_left_imm_64"@
    } else     if i == 108 {
        "shift_logical_left_imm_alt_32"@
    } else     if i == 109 {
        "shift_logical_left_imm_alt_64"@
    } else     if i == 110 {
        "shift_logical_right_32"@
    } else     if i == 111 {
        "shift_logical_right_64"@
    } else     if i == 112 {
        "shift_logical_right_imm_32"@
    } else     if i == 113 {
        "shift_logical_right_imm_64"@
    } else     if i == 114 {
        "shift_logical_right_imm_alt_32"@
    } else     if i == 115 {
        "shift_logical_right_imm_alt_64"@
    } else     if i == 116 {
        "sign_extend_16"@
    } else     if i == 117 {
        "sign_extend_8"@
    } else     if i == 118 {
        "store_imm_indirect_u16"@
    } else     if i == 119 {
        "store_imm_indirect_u32"@
    } else     if i == 120 {
        "store_imm_indirect_u64"@
    } else     if i == 121 {
        "store_imm_indirect_u8"@
    } else     if i == 122 {
        "store_imm_u16"@
    } else     if i == 123 {
        "store_imm_u32"@
    } else     if i == 124 {
        "store_imm_u64"@
    } else     if i == 125 {
        "store_imm_u8"@
    } else     if i == 126 {
        "store_indirect_u16"@
    } else     if i == 127 {
        "store_indirect_u32"@
    } else     if i == 128 {
        "store_indirect_u64"@
    } else     if i == 129 {
        "store_indirect_u8"@
    } else     if i == 130 {
        "store_u16"@
    } else     if i == 131 {
        "store_u32"@
    } else     if i == 132 {
        "store_u64"@
    } else     if i == 133 {
        "store_u8"@
    } else     if i == 134 {
        "sub_32"@
    } else     if i == 135 {
        "sub_64"@
    } else     if i == 136 {
        "trap"@
    } else     if i == 137 {
        "xnor"@
    } else     if i == 138 {
        "xor"@
    } else     if i == 139 {
        "xor_imm"@
    } else     if i == 140 {
        "zero_extend_16"@
    } else {
        Seq::empty()
    }
}

/// The fixed instruction set, by name, in its canonical order. An instruction
/// is identified by its position in this sequence.
pub open spec fn instruction_names() -> Seq<Seq<char>> {
    Seq::new(INSTRUCTION_COUNT as nat, |i: int| instruction_name(i))
}

/// Whether `key` is the name of an instruction of the fixed set.
pub open spec fn is_instruction_name(key: Seq<char>) -> bool {
    instruction_names().contains(key)
}

/// The view of a list of owned strings as character sequences.
pub open spec fn strings_view(v: Seq<String>) -> Seq<Seq<char>> {
    v.map_values(|s: String| s@)
}

/// The name of the instruction at position `i`.
pub fn instruction_name_at(i: usize) -> (r: &'static str)
    requires
        i < INSTRUCTION_COUNT,
    ensures
        r@ == instruction_name(i as int),
{
    if i == 0 {
        "add_32"
    } else     if i == 1 {
        "add_64"
    } else     if i == 2 {
        "add_imm_32"
    } else     if i == 3 {
        "add_imm_64"
    } else     if i == 4 {
        "and"
    } else     if i == 5 {
        "and_imm"
    } else     if i == 6 {
        "and_inverted"
    } else     if i == 7 {
        "branch_eq"
    } else     if i == 8 {
        "branch_eq_imm"
    } else     if i == 9 {
        "branch_greater_or_equal_signed"
    } else     if i == 10 {
        "branch_greater_or_equal_signed_imm"
    } else     if i == 11 {
        "branch_greater_or_equal_unsigned"
    } else     if i == 12 {
        "branch_greater_or_equal_unsigned_imm"
    } else     if i == 13 {
        "branch_greater_signed_imm"
    } else     if i == 14 {
        "branch_greater_unsigned_imm"
    } else     if i == 15 {
        "branch_less_or_equal_signed_imm"
    } else     if i == 16 {
        "branch_less_or_equal_unsigned_imm"
    } else     if i == 17 {
        "branch_less_signed"
    } else     if i == 18 {
        "branch_less_signed_imm"
    } else     if i == 19 {
        "branch_less_unsigned"
    } else     if i == 20 {
        "branch_less_unsigned_imm"
    } else     if i == 21 {
        "branch_not_eq"
    } else     if i == 22 {
        "branch_not_eq_imm"
    } else     if i == 23 {
        "cmov_if_not_zero"
    } else     if i == 24 {
        "cmov_if_not_zero_imm"
    } else     if i == 25 {
        "cmov_if_zero"
    } else     if i == 26 {
        "cmov_if_zero_imm"
    } else     if i == 27 {
        "count_leading_zero_bits_32"
    } else     if i == 28 {
        "count_leading_zero_bits_64"
    } else     if i == 29 {
        "count_set_bits_32"
    } else     if i == 30 {
        "count_set_bits_64"
    } else     if i == 31 {
        "count_trailing_zero_bits_32"
    } else     if i == 32 {
        "count_trailing_zero_bits_64"
    } else     if i == 33 {
        "div_signed_32"
    } else     if i == 34 {
        "div_signed_64"
    } else     if i == 35 {
        "div_unsigned_32"
    } else     if i == 36 {
        "div_unsigned_64"
    } else     if i == 37 {
        "ecalli"
    } else     if i == 38 {
        "fallthrough"
    } else     if i == 39 {
        "invalid"
    } else     if i == 40 {
        "jump"
    } else     if i == 41 {
        "jump_indirect"
    } else     if i == 42 {
        "load_i16"
    } else     if i == 43 {
        "load_i32"
    } else     if i == 44 {
        "load_i8"
    } else     if i == 45 {
        "load_imm"
    } else     if i == 46 {
        "load_imm64"
    } else     if i == 47 {
        "load_imm_and_jump"
    } else     if i == 48 {
        "load_imm_and_jump_indirect"
    } else     if i == 49 {
        "load_indirect_i16"
    } else     if i == 50 {
        "load_indirect_i32"
    } else     if i == 51 {
        "load_indirect_i8"
    } else     if i == 52 {
        "load_indirect_u16"
    } else     if i == 53 {
        "load_indirect_u32"
    } else     if i == 54 {
        "load_indirect_u64"
    } else     if i == 55 {
        "load_indirect_u8"
    } else     if i == 56 {
        "load_u16"
    } else     if i == 57 {
        "load_u32"
    } else     if i == 58 {
        "load_u64"
    } else     if i == 59 {
        "load_u8"
    } else     if i == 60 {
        "maximum"
    } else     if i == 61 {
        "maximum_unsigned"
    } else     if i == 62 {
        "memset"
    } else     if i == 63 {
        "minimum"
    } else     if i == 64 {
        "minimum_unsigned"
    } else     if i == 65 {
        "move_reg"
    } else     if i == 66 {
        "mul_32"
    } else     if i == 67 {
        "mul_64"
    } else     if i == 68 {
        "mul_imm_32"
    } else     if i == 69 {
        "mul_imm_64"
    } else     if i == 70 {
        "mul_upper_signed_signed"
    } else     if i == 71 {
        "mul_upper_signed_unsigned"
    } else     if i == 72 {
        "mul_upper_unsigned_unsigned"
    } else     if i == 73 {
        "negate_and_add_imm_32"
    } else     if i == 74 {
        "negate_and_add_imm_64"
    } else     if i == 75 {
        "or"
    } else     if i == 76 {
        "or_imm"
    } else     if i == 77 {
        "or_inverted"
    } else     if i == 78 {
        "rem_signed_32"
    } else     if i == 79 {
        "rem_signed_64"
    } else     if i == 80 {
        "rem_unsigned_32"
    } else     if i == 81 {
        "rem_unsigned_64"
    } else     if i == 82 {
        "reverse_byte"
    } else     if i == 83 {
        "rotate_left_32"
    } else     if i == 84 {
        "rotate_left_64"
    } else     if i == 85 {
        "rotate_right_32"
    } else     if i == 86 {
        "rotate_right_64"
    } else     if i == 87 {
        "rotate_right_imm_32"
    } else     if i == 88 {
        "rotate_right_imm_64"
    } else     if i == 89 {
        "rotate_right_imm_alt_32"
    } else     if i == 90 {
        "rotate_right_imm_alt_64"
    } else     if i == 91 {
        "sbrk"
    } else     if i == 92 {
        "set_greater_than_signed_imm"
    } else     if i == 93 {
        "set_greater_than_unsigned_imm"
    } else     if i == 94 {
        "set_less_than_signed"
    } else     if i == 95 {
        "set_less_than_signed_imm"
    } else     if i == 96 {
        "set_less_than_unsigned"
    } else     if i == 97 {
        "set_less_than_unsigned_imm"
    } else     if i == 98 {
        "shift_arithmetic_right_32"
    } else     if i == 99 {
        "shift_arithmetic_right_64"
    } else     if i == 100 {
        "shift_arithmetic_right_imm_32"
    } else     if i == 101 {
        "shift_arithmetic_right_imm_64"
    } else     if i == 102 {
        "shift_arithmetic_right_imm_alt_32"
    } else     if i == 103 {
        "shift_arithmetic_right_imm_alt_64"
    } else     if i == 104 {
        "shift_logical_left_32"
    } else     if i == 105 {
        "shift_logical_left_64"
    } else     if i == 106 {
        "shift_logical_left_imm_32"
    } else     if i == 107 {
        "shift_logical_left_imm_64"
    } else     if i == 108 {
        "shift_logical_left_imm_alt_32"
    } else     if i == 109 {
        "shift_logical_left_imm_alt_64"
    } else     if i == 110 {
        "shift_logical_right_32"
    } else     if i == 111 {
        "shift_logical_right_64"
    } else     if i == 112 {
        "shift_logical_right_imm_32"
    } else     if i == 113 {
        "shift_logical_right_imm_64"
    } else     if i == 114 {
        "shift_logical_right_imm_alt_32"
    } else     if i == 115 {
        "shift_logical_right_imm_alt_64"
    } else     if i == 116 {
        "sign_extend_16"
    } else     if i == 117 {
        "sign_extend_8"
    } else     if i == 118 {
        "store_imm_indirect_u16"
    } else     if i == 119 {
        "store_imm_indirect_u32"
    } else     if i == 120 {
        "store_imm_indirect_u64"
    } else     if i == 121 {
        "store_imm_indirect_u8"
    } else     if i == 122 {
        "store_imm_u16"
    } else     if i == 123 {
        "store_imm_u32"
    } else     if i == 124 {
        "store_imm_u64"
    } else     if i == 125 {
        "store_imm_u8"
    } else     if i == 126 {
        "store_indirect_u16"
    } else     if i == 127 {
        "store_indirect_u32"
    } else     if i == 128 {
        "store_indirect_u64"
    } else     if i == 129 {
        "store_indirect_u8"
    } else     if i == 130 {
        "store_u16"
    } else     if i == 131 {
        "store_u32"
    } else     if i == 132 {
        "store_u64"
    } else     if i == 133 {
        "store_u8"
    } else     if i == 134 {
        "sub_32"
    } else     if i == 135 {
        "sub_64"
    } else     if i == 136 {
        "trap"
    } else     if i == 137 {
        "xnor"
    } else     if i == 138 {
        "xor"
    } else     if i == 139 {
        "xor_imm"
    } else {
        "zero_extend_16"
    }
}

/// The names of all instructions, in their canonical order.
pub fn instruction_name_list() -> (r: Vec<String>)
    ensures
        strings_view(r@) == instruction_names(),
        r@.len() == INSTRUCTION_COUNT,
{
    let mut v: Vec<String> = Vec::new();
    let mut i: usize = 0;
    while i < INSTRUCTION_COUNT
        invariant
            i <= INSTRUCTION_COUNT,
            v@.len() == i,
            forall|j: int| 0 <= j < i ==> #[trigger] v@[j]@ == instruction_name(j),
        decreases INSTRUCTION_COUNT - i,
    {
        v.push(String::from_str(instruction_name_at(i)));
        i = i + 1;
    }
    assert(strings_view(v@) =~= instruction_names());
    v
}

/// Whether `key` names an instruction; `names` is the canonical name list.
pub fn is_instruction_name_in(names: &Vec<String>, key: &String) -> (r: bool)
    requires
        strings_view(names@) == instruction_names(),
    ensures
        r == is_instruction_name(key@),
{
    let mut i: usize = 0;
    while i < names.len()
        invariant
            strings_view(names@) == instruction_names(),
            0 <= i <= names@.len(),
            forall|j: int| 0 <= j < i ==> instruction_names()[j] != key@,
        decreases names@.len() - i,
    {
        if names[i] == *key {
            assert(instruction_names()[i as int] == key@);
            return true;
        }
        assert(instruction_names()[i as int] == names@[i as int]@);
        i = i + 1;
    }
    proof {
        if is_instruction_name(key@) {
            let j = choose|j: int| 0 <= j < instruction_names().len() && instruction_names()[j] == key@;
            assert(instruction_names()[j] == key@);
        }
    }
    false
}

} // verus!
