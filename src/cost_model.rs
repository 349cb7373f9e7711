use vstd::prelude::*;
use crate::names_order::lex_lt;
use crate::instruction::{
    instruction_name, instruction_name_list, instruction_names, is_instruction_name,
    is_instruction_name_in, strings_view, INSTRUCTION_COUNT,
};

verus! {

/// The view of key/weight pairs, keys as character sequences.
pub open spec fn entries_view(v: Seq<(String, u32)>) -> Seq<(Seq<char>, u32)> {
    v.map_values(|e: (String, u32)| (e.0@, e.1))
}

/// The weight that `entries` gives to `key`: as in a map filled from the
/// pairs in order, a later pair for the same key replaces an earlier one.
pub open spec fn lookup(entries: Seq<(Seq<char>, u32)>, key: Seq<char>) -> Option<u32>
    decreases entries.len(),
{
    if entries.len() == 0 {
        None
    } else if entries.last().0 == key {
        Some(entries.last().1)
    } else {
        lookup(entries.drop_last(), key)
    }
}

/// The keys of `entries` that name no instruction, in input order.
pub open spec fn extra_keys(entries: Seq<(Seq<char>, u32)>) -> Seq<Seq<char>>
    decreases entries.len(),
{
    if entries.len() == 0 {
        Seq::empty()
    } else if is_instruction_name(entries.last().0) {
        extra_keys(entries.drop_last())
    } else {
        extra_keys(entries.drop_last()).push(entries.last().0)
    }
}

/// Whether `entries` gives a weight to every instruction.
pub open spec fn all_costs_present(entries: Seq<(Seq<char>, u32)>) -> bool {
    forall|i: int| 0 <= i < INSTRUCTION_COUNT ==> (#[trigger] lookup(entries, instruction_name(i))).is_some()
}

/// Whether `i` is the first instruction, in canonical order, without a weight.
pub open spec fn first_missing(entries: Seq<(Seq<char>, u32)>, i: int) -> bool {
    &&& 0 <= i < INSTRUCTION_COUNT
    &&& lookup(entries, instruction_name(i)) is None
    &&& forall|j: int| 0 <= j < i ==> (#[trigger] lookup(entries, instruction_name(j))).is_some()
}

/// Whether `entries` is a complete and exact description of a cost model.
pub open spec fn loads(entries: Seq<(Seq<char>, u32)>) -> bool {
    all_costs_present(entries) && extra_keys(entries).len() == 0
}

/// A weight for every instruction of the fixed set. Position `i` of the view
/// holds the weight of the instruction at position `i` of the canonical order.
#[derive(Debug)]
pub struct CostModel {
    weights: Vec<u32>,
}

impl View for CostModel {
    type V = Seq<u32>;

    closed spec fn view(&self) -> Seq<u32> {
        self.weights@
    }
}

/// The entries of a cost model with weights `w`, in canonical order.
pub open spec fn model_entries(w: Seq<u32>) -> Seq<(Seq<char>, u32)> {
    Seq::new(w.len(), |i: int| (instruction_name(i), w[i]))
}

impl CostModel {
    /// One weight per instruction.
    pub open spec fn wf(&self) -> bool {
        self@.len() == INSTRUCTION_COUNT
    }

    /// The baseline model, in which every instruction costs one unit.
    pub fn naive() -> (r: CostModel)
        ensures
            r.wf(),
            forall|i: int| 0 <= i < INSTRUCTION_COUNT ==> r@[i] == 1,
    {
        let mut weights: Vec<u32> = Vec::new();
        let mut i: usize = 0;
        while i < INSTRUCTION_COUNT
            invariant
                i <= INSTRUCTION_COUNT,
                weights@.len() == i,
                forall|j: int| 0 <= j < i ==> weights@[j] == 1,
            decreases INSTRUCTION_COUNT - i,
        {
            weights.push(1);
            i = i + 1;
        }
        CostModel { weights }
    }

    /// The weight of the instruction at position `i`.
    pub fn weight(&self, i: usize) -> (r: u32)
        requires
            self.wf(),
            i < INSTRUCTION_COUNT,
        ensures
            r == self@[i as int],
    {
        self.weights[i]
    }

    /// Gives the instruction at position `i` the weight `w`.
    pub fn set_weight(&mut self, i: usize, w: u32)
        requires
            old(self).wf(),
            i < INSTRUCTION_COUNT,
        ensures
            final(self).wf(),
            final(self)@ == old(self)@.update(i as int, w),
    {
        self.weights.set(i, w);
    }

    /// Every instruction's name with its weight, in canonical order.
    pub fn entries(&self) -> (r: Vec<(String, u32)>)
        requires
            self.wf(),
        ensures
            entries_view(r@) == model_entries(self@),
    {
        let mut out: Vec<(String, u32)> = Vec::new();
        let mut i: usize = 0;
        while i < INSTRUCTION_COUNT
            invariant
                self.wf(),
                i <= INSTRUCTION_COUNT,
                out@.len() == i,
                forall|j: int| 0 <= j < i ==> #[trigger] out@[j].0@ == instruction_name(j) && out@[j].1
                    == self@[j],
            decreases INSTRUCTION_COUNT - i,
        {
            out.push((String::from_str(crate::instruction::instruction_name_at(i)), self.weights[i]));
            i = i + 1;
        }
        assert(entries_view(out@) =~= model_entries(self@));
        out
    }
}

/// Why a cost model could not be loaded.
#[derive(Debug)]
pub enum LoadError {
    /// The input is not a map from names to non-negative integer weights.
    Malformed,
    /// The instruction with this name has no weight.
    MissingCost(String),
    /// These keys name no instruction.
    ExtraKeys(Vec<String>),
}

/// `key` between single quotes.
pub open spec fn quoted(key: Seq<char>) -> Seq<char> {
    "'"@ + key + "'"@
}

/// The keys, each quoted, separated by a comma and a space.
pub open spec fn quoted_list(keys: Seq<Seq<char>>) -> Seq<char>
    decreases keys.len(),
{
    if keys.len() == 0 {
        Seq::empty()
    } else if keys.len() == 1 {
        quoted(keys[0])
    } else {
        quoted_list(keys.drop_last()) + ", "@ + quoted(keys.last())
    }
}

impl LoadError {
    /// The human-readable description of the error.
    pub open spec fn message_of(&self) -> Seq<char> {
        match self {
            LoadError::Malformed => "failed to parse the cost model"@,
            LoadError::MissingCost(name) => "missing cost for: "@ + quoted(name@),
            LoadError::ExtraKeys(keys) => "failed to deserialize cost model: extra keys: "@
                + quoted_list(strings_view(keys@)),
        }
    }

    /// The human-readable description of the error.
    pub fn message(&self) -> (r: String)
        ensures
            r@ == self.message_of(),
    {
        match self {
            LoadError::Malformed => String::from_str("failed to parse the cost model"),
            LoadError::MissingCost(name) => {
                let mut s = String::from_str("missing cost for: ");
                s.append("'");
                s.append(name.as_str());
                s.append("'");
                assert(s@ =~= "missing cost for: "@ + quoted(name@));
                s
            },
            LoadError::ExtraKeys(keys) => {
                let mut s = String::from_str("failed to deserialize cost model: extra keys: ");
                let list = quote_list(keys);
                s.append(list.as_str());
                s
            },
        }
    }
}

fn quote_list(keys: &Vec<String>) -> (r: String)
    ensures
        r@ == quoted_list(strings_view(keys@)),
{
    let mut s = String::new();
    let mut i: usize = 0;
    while i < keys.len()
        invariant
            i <= keys@.len(),
            s@ == quoted_list(strings_view(keys@).take(i as int)),
        decreases keys@.len() - i,
    {
        let ghost prev = strings_view(keys@).take(i as int);
        let ghost next = strings_view(keys@).take(i + 1);
        assert(next.drop_last() =~= prev);
        if i > 0 {
            s.append(", ");
        }
        s.append("'");
        s.append(keys[i].as_str());
        s.append("'");
        proof {
            if i == 0 {
                assert(s@ =~= quoted(next[0]));
            } else {
                assert(s@ =~= quoted_list(prev) + ", "@ + quoted(next.last()));
            }
        }
        i = i + 1;
    }
    assert(strings_view(keys@).take(keys@.len() as int) =~= strings_view(keys@));
    s
}

/// The weight that `entries` gives to `key`.
pub fn find_weight(entries: &Vec<(String, u32)>, key: &String) -> (r: Option<u32>)
    ensures
        r == lookup(entries_view(entries@), key@),
{
    let mut found: Option<u32> = None;
    let mut j: usize = 0;
    while j < entries.len()
        invariant
            j <= entries@.len(),
            found == lookup(entries_view(entries@).take(j as int), key@),
        decreases entries@.len() - j,
    {
        let ghost ev = entries_view(entries@);
        assert(ev.take(j + 1).drop_last() =~= ev.take(j as int));
        if entries[j].0 == *key {
            found = Some(entries[j].1);
        }
        j = j + 1;
    }
    assert(entries_view(entries@).take(entries@.len() as int) =~= entries_view(entries@));
    found
}

/// The keys of `entries` that name no instruction, in input order.
pub fn collect_extra_keys(entries: &Vec<(String, u32)>) -> (r: Vec<String>)
    ensures
        strings_view(r@) == extra_keys(entries_view(entries@)),
{
    let names = instruction_name_list();
    let mut out: Vec<String> = Vec::new();
    let mut j: usize = 0;
    while j < entries.len()
        invariant
            strings_view(names@) == instruction_names(),
            j <= entries@.len(),
            strings_view(out@) == extra_keys(entries_view(entries@).take(j as int)),
        decreases entries@.len() - j,
    {
        let ghost ev = entries_view(entries@);
        assert(ev.take(j + 1).drop_last() =~= ev.take(j as int));
        if !is_instruction_name_in(&names, &entries[j].0) {
            let ghost before = out@;
            out.push(entries[j].0.clone());
            assert(strings_view(out@) =~= strings_view(before).push(entries@[j as int].0@));
        }
        j = j + 1;
    }
    assert(entries_view(entries@).take(entries@.len() as int) =~= entries_view(entries@));
    out
}

/// What loading `entries` gives: a model holding each instruction's weight
/// when `entries` is complete and exact; else the first instruction, in
/// canonical order, without a weight; else every key that names no
/// instruction.
pub open spec fn load_outcome(entries: Seq<(Seq<char>, u32)>, r: Result<CostModel, LoadError>) -> bool {
    &&& r is Ok <==> loads(entries)
    &&& match r {
        Ok(m) => m.wf() && forall|i: int|
            #![trigger lookup(entries, instruction_name(i))]
            #![trigger m@[i]]
            0 <= i < INSTRUCTION_COUNT ==> lookup(entries, instruction_name(i)) == Some(m@[i]),
        Err(LoadError::MissingCost(name)) => exists|i: int|
            first_missing(entries, i) && name@ == #[trigger] instruction_name(i),
        Err(LoadError::ExtraKeys(keys)) => all_costs_present(entries) && strings_view(keys@)
            == extra_keys(entries) && keys@.len() > 0,
        Err(LoadError::Malformed) => false,
    }
}

/// Builds a cost model from name/weight pairs. Every instruction must have a
/// weight, looked up in canonical order, and every key must name an
/// instruction.
pub fn load_cost_model(entries: &Vec<(String, u32)>) -> (r: Result<CostModel, LoadError>)
    ensures
        load_outcome(entries_view(entries@), r),
{
    let ghost ev = entries_view(entries@);
    let names = instruction_name_list();
    let mut model = CostModel::naive();
    let mut i: usize = 0;
    while i < INSTRUCTION_COUNT
        invariant
            ev == entries_view(entries@),
            strings_view(names@) == instruction_names(),
            names@.len() == INSTRUCTION_COUNT,
            model.wf(),
            i <= INSTRUCTION_COUNT,
            forall|j: int|
                #![trigger lookup(ev, instruction_name(j))]
                #![trigger model@[j]]
                0 <= j < i ==> lookup(ev, instruction_name(j)) == Some(model@[j]),
        decreases INSTRUCTION_COUNT - i,
    {
        assert(strings_view(names@)[i as int] == names@[i as int]@);
        assert(instruction_names()[i as int] == instruction_name(i as int));
        match find_weight(entries, &names[i]) {
            None => {
                let name = names[i].clone();
                assert(first_missing(ev, i as int));
                return Err(LoadError::MissingCost(name));
            },
            Some(w) => {
                model.set_weight(i, w);
            },
        }
        i = i + 1;
    }
    assert(all_costs_present(ev));
    let extras = collect_extra_keys(entries);
    assert(strings_view(extras@).len() == extras@.len());
    if extras.len() > 0 {
        return Err(LoadError::ExtraKeys(extras));
    }
    Ok(model)
}

/// What `serde_json` decodes from `text` as a map from strings to `u32`,
/// as its pairs in ascending key order; `None` where decoding fails.
pub uninterp spec fn json_weight_entries(text: Seq<u8>) -> Option<Seq<(Seq<char>, u32)>>;

/// Relies on `serde_json::from_slice` into a `BTreeMap<String, u32>`: it
/// decodes a JSON object with non-negative integer values that fit in `u32`,
/// and fails on anything else. The map's pairs are handed out as it iterates
/// them: by key in ascending order, and `String`'s order is that of the bytes,
/// which is that of the characters' code points.
#[verifier::external_body]
fn decode_weight_map(text: &[u8]) -> (r: Option<Vec<(String, u32)>>)
    ensures
        r is Some <==> json_weight_entries(text@) is Some,
        r is Some ==> entries_view(r->0@) == json_weight_entries(text@)->0,
        r is Some ==> forall|i: int, j: int|
            0 <= i < j < r->0@.len() ==> lex_lt(#[trigger] r->0@[i].0@, #[trigger] r->0@[j].0@),
{
    match serde_json::from_slice::<std::collections::BTreeMap<String, u32>>(text) {
        Ok(map) => Some(map.into_iter().collect()),
        Err(_) => None,
    }
}

/// Decodes a JSON object from instruction names to weights and builds a
/// cost model from it.
pub fn load_cost_model_json(text: &[u8]) -> (r: Result<CostModel, LoadError>)
    ensures
        json_weight_entries(text@) is None ==> r matches Err(LoadError::Malformed),
        json_weight_entries(text@) matches Some(e) ==> load_outcome(e, r),
{
    match decode_weight_map(text) {
        None => Err(LoadError::Malformed),
        Some(entries) => load_cost_model(&entries),
    }
}

} // verus!
