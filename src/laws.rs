use vstd::prelude::*;
use crate::cost_model::{
    all_costs_present, extra_keys, first_missing, load_outcome, loads, lookup, model_entries,
    CostModel, LoadError,
};
use crate::names_order::lemma_names_distinct;
use crate::driver::gas_used_spec;
use crate::instruction::{instruction_name, is_instruction_name, strings_view, INSTRUCTION_COUNT};

verus! {

/// Whether some pair of `entries` has the key `key`.
pub open spec fn has_key(entries: Seq<(Seq<char>, u32)>, key: Seq<char>) -> bool {
    exists|j: int| 0 <= j < entries.len() && #[trigger] entries[j].0 == key
}

proof fn lemma_lookup_some(entries: Seq<(Seq<char>, u32)>, key: Seq<char>)
    ensures
        lookup(entries, key) is Some <==> has_key(entries, key),
    decreases entries.len(),
{
    if entries.len() > 0 {
        let rest = entries.drop_last();
        lemma_lookup_some(rest, key);
        if has_key(rest, key) {
            let j = choose|j: int| 0 <= j < rest.len() && #[trigger] rest[j].0 == key;
            assert(entries[j].0 == key);
        }
        if has_key(entries, key) && entries.last().0 != key {
            let j = choose|j: int| 0 <= j < entries.len() && #[trigger] entries[j].0 == key;
            assert(rest[j].0 == key);
        }
    }
}

proof fn lemma_extra_keys_empty(entries: Seq<(Seq<char>, u32)>)
    requires
        forall|j: int| 0 <= j < entries.len() ==> is_instruction_name(#[trigger] entries[j].0),
    ensures
        extra_keys(entries) == Seq::<Seq<char>>::empty(),
    decreases entries.len(),
{
    if entries.len() > 0 {
        let rest = entries.drop_last();
        assert forall|j: int| 0 <= j < rest.len() implies is_instruction_name(#[trigger] rest[j].0) by {
            assert(rest[j] == entries[j]);
        }
        lemma_extra_keys_empty(rest);
        assert(is_instruction_name(entries[entries.len() - 1].0));
    }
}

proof fn lemma_extra_keys_single(entries: Seq<(Seq<char>, u32)>, j0: int)
    requires
        0 <= j0 < entries.len(),
        !is_instruction_name(entries[j0].0),
        forall|j: int| 0 <= j < entries.len() && j != j0 ==> is_instruction_name(#[trigger] entries[j].0),
    ensures
        extra_keys(entries) == seq![entries[j0].0],
    decreases entries.len(),
{
    let rest = entries.drop_last();
    if j0 == entries.len() - 1 {
        assert forall|j: int| 0 <= j < rest.len() implies is_instruction_name(#[trigger] rest[j].0) by {
            assert(rest[j] == entries[j]);
        }
        lemma_extra_keys_empty(rest);
        assert(extra_keys(entries) =~= seq![entries[j0].0]);
    } else {
        assert forall|j: int| 0 <= j < rest.len() && j != j0 implies is_instruction_name(
            #[trigger] rest[j].0,
        ) by {
            assert(rest[j] == entries[j]);
        }
        assert(rest[j0] == entries[j0]);
        lemma_extra_keys_single(rest, j0);
        assert(is_instruction_name(entries[entries.len() - 1].0));
    }
}

/// A well-formed cost model holds exactly one entry per instruction: among
/// its entries, the name of each instruction stands at the instruction's own
/// position and nowhere else, with that instruction's weight.
pub proof fn lemma_one_entry_per_instruction(m: &CostModel)
    requires
        m.wf(),
    ensures
        model_entries(m@).len() == INSTRUCTION_COUNT,
        forall|i: int, j: int|
            0 <= i < INSTRUCTION_COUNT && 0 <= j < INSTRUCTION_COUNT ==> ((#[trigger] model_entries(
                m@,
            )[j]).0 == #[trigger] instruction_name(i) <==> j == i),
        forall|i: int| 0 <= i < INSTRUCTION_COUNT ==> (#[trigger] model_entries(m@)[i]).1 == m@[i],
{
    assert forall|i: int, j: int|
        0 <= i < INSTRUCTION_COUNT && 0 <= j < INSTRUCTION_COUNT implies ((#[trigger] model_entries(
            m@,
        )[j]).0 == #[trigger] instruction_name(i) <==> j == i) by {
        if i != j {
            lemma_names_distinct(i, j);
        }
    }
}

/// Loading pairs whose keys are exactly the instruction names succeeds, and
/// each instruction gets the weight that the pairs give its name.
pub proof fn lemma_load_exact_keys(entries: Seq<(Seq<char>, u32)>, r: Result<CostModel, LoadError>)
    requires
        forall|key: Seq<char>| has_key(entries, key) <==> is_instruction_name(key),
        load_outcome(entries, r),
    ensures
        loads(entries),
        r matches Ok(m) && m.wf() && forall|i: int|
            #![trigger m@[i]]
            0 <= i < INSTRUCTION_COUNT ==> lookup(entries, instruction_name(i)) == Some(m@[i]),
{
    assert forall|i: int| 0 <= i < INSTRUCTION_COUNT implies (#[trigger] lookup(
        entries,
        instruction_name(i),
    )).is_some() by {
        assert(crate::instruction::instruction_names()[i] == instruction_name(i));
        assert(is_instruction_name(instruction_name(i)));
        lemma_lookup_some(entries, instruction_name(i));
    }
    assert forall|j: int| 0 <= j < entries.len() implies is_instruction_name(#[trigger] entries[j].0) by {
        assert(has_key(entries, entries[j].0));
    }
    lemma_extra_keys_empty(entries);
}

/// Loading pairs that give a weight to every instruction but one fails, and
/// the error names that instruction as missing.
pub proof fn lemma_load_one_missing(
    entries: Seq<(Seq<char>, u32)>,
    k: int,
    r: Result<CostModel, LoadError>,
)
    requires
        0 <= k < INSTRUCTION_COUNT,
        !has_key(entries, instruction_name(k)),
        forall|i: int|
            0 <= i < INSTRUCTION_COUNT && i != k ==> has_key(entries, #[trigger] instruction_name(i)),
        load_outcome(entries, r),
    ensures
        r matches Err(LoadError::MissingCost(name)) && name@ == instruction_name(k),
{
    lemma_lookup_some(entries, instruction_name(k));
    assert(!all_costs_present(entries));
    match r {
        Err(LoadError::MissingCost(name)) => {
            let i = choose|i: int| first_missing(entries, i) && name@ == #[trigger] instruction_name(i);
            lemma_lookup_some(entries, instruction_name(i));
            if i != k {
                lemma_names_distinct(i, k);
            }
        },
        _ => {},
    }
}

/// Loading pairs that give a weight to every instruction, and have one
/// further pair whose key names no instruction, fails, and the error lists
/// that key and no other.
pub proof fn lemma_load_one_unknown_key(
    entries: Seq<(Seq<char>, u32)>,
    j0: int,
    r: Result<CostModel, LoadError>,
)
    requires
        forall|i: int| 0 <= i < INSTRUCTION_COUNT ==> has_key(entries, #[trigger] instruction_name(i)),
        0 <= j0 < entries.len(),
        !is_instruction_name(entries[j0].0),
        forall|j: int| 0 <= j < entries.len() && j != j0 ==> is_instruction_name(#[trigger] entries[j].0),
        load_outcome(entries, r),
    ensures
        r matches Err(LoadError::ExtraKeys(keys)) && strings_view(keys@) == seq![entries[j0].0],
{
    assert forall|i: int| 0 <= i < INSTRUCTION_COUNT implies (#[trigger] lookup(
        entries,
        instruction_name(i),
    )).is_some() by {
        lemma_lookup_some(entries, instruction_name(i));
    }
    assert(all_costs_present(entries));
    lemma_extra_keys_single(entries, j0);
    match r {
        Err(LoadError::MissingCost(name)) => {
            let i = choose|i: int| first_missing(entries, i) && name@ == #[trigger] instruction_name(i);
            assert(lookup(entries, instruction_name(i)).is_some());
        },
        _ => {},
    }
}

/// The gas that a run which finished normally reports, with `remaining`
/// left of `gas_budget`, is the budget less what remains, and lies between
/// zero and the budget.
pub proof fn lemma_gas_used_within_budget(gas_budget: u64, remaining: i64)
    requires
        gas_used_spec(gas_budget, remaining) is Some,
    ensures
        remaining <= gas_budget,
        gas_used_spec(gas_budget, remaining)->0 == gas_budget - remaining,
        0 <= gas_used_spec(gas_budget, remaining)->0 <= gas_budget,
{
}

} // verus!
