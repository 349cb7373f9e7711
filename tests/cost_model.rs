use pvm_host::cost_model::{load_cost_model, load_cost_model_json, CostModel, LoadError};
use pvm_host::instruction::{instruction_name_at, instruction_name_list, INSTRUCTION_COUNT};

fn full_entries() -> Vec<(String, u32)> {
    (0..INSTRUCTION_COUNT)
        .map(|i| (instruction_name_at(i).to_string(), (i as u32) * 7 + 3))
        .collect()
}

#[test]
fn name_list_is_complete_and_ordered() {
    let names = instruction_name_list();
    assert_eq!(names.len(), INSTRUCTION_COUNT);
    assert_eq!(names[0], "add_32");
    assert_eq!(names[INSTRUCTION_COUNT - 1], "zero_extend_16");
    assert!(names.iter().any(|n| n == "trap"));
    let mut sorted = names.clone();
    sorted.dedup();
    assert_eq!(sorted.len(), INSTRUCTION_COUNT);
}

#[test]
fn naive_model_costs_one_everywhere() {
    let m = CostModel::naive();
    for i in 0..INSTRUCTION_COUNT {
        assert_eq!(m.weight(i), 1);
    }
}

#[test]
fn set_weight_changes_one_entry() {
    let mut m = CostModel::naive();
    m.set_weight(5, 42);
    assert_eq!(m.weight(5), 42);
    assert_eq!(m.weight(4), 1);
    assert_eq!(m.weight(6), 1);
}

#[test]
fn entries_list_each_instruction_once() {
    let mut m = CostModel::naive();
    m.set_weight(INSTRUCTION_COUNT - 1, 9);
    let e = m.entries();
    assert_eq!(e.len(), INSTRUCTION_COUNT);
    for (i, (name, w)) in e.iter().enumerate() {
        assert_eq!(name, instruction_name_at(i));
        assert_eq!(*w, if i == INSTRUCTION_COUNT - 1 { 9 } else { 1 });
        assert_eq!(e.iter().filter(|(n, _)| n == name).count(), 1);
    }
}

#[test]
fn full_map_round_trips() {
    let entries = full_entries();
    let m = load_cost_model(&entries).expect("a complete map loads");
    for i in 0..INSTRUCTION_COUNT {
        assert_eq!(m.weight(i), (i as u32) * 7 + 3);
    }
    let back = m.entries();
    assert_eq!(back, entries);
}

#[test]
fn full_map_with_zero_and_max_weights_round_trips() {
    let entries: Vec<(String, u32)> = (0..INSTRUCTION_COUNT)
        .map(|i| (instruction_name_at(i).to_string(), if i % 2 == 0 { 0 } else { u32::MAX }))
        .collect();
    let m = load_cost_model(&entries).expect("loads");
    assert_eq!(m.weight(0), 0);
    assert_eq!(m.weight(1), u32::MAX);
}

#[test]
fn missing_trap_is_reported() {
    let entries: Vec<(String, u32)> = full_entries().into_iter().filter(|(k, _)| k != "trap").collect();
    match load_cost_model(&entries) {
        Err(LoadError::MissingCost(name)) => assert_eq!(name, "trap"),
        other => panic!("unexpected: {:?}", other),
    }
    let err = load_cost_model(&entries).unwrap_err();
    assert_eq!(err.message(), "missing cost for: 'trap'");
    assert!(err.message().contains("trap"));
}

#[test]
fn first_missing_in_canonical_order_is_reported() {
    let entries: Vec<(String, u32)> = full_entries()
        .into_iter()
        .filter(|(k, _)| k != "xor" && k != "and")
        .collect();
    match load_cost_model(&entries) {
        Err(LoadError::MissingCost(name)) => assert_eq!(name, "and"),
        other => panic!("unexpected: {:?}", other),
    }
}

#[test]
fn unknown_key_is_reported() {
    let mut entries = full_entries();
    entries.push(("frobnicate".to_string(), 5));
    match load_cost_model(&entries) {
        Err(LoadError::ExtraKeys(keys)) => assert_eq!(keys, vec!["frobnicate".to_string()]),
        other => panic!("unexpected: {:?}", other),
    }
    let err = load_cost_model(&entries).unwrap_err();
    assert_eq!(err.message(), "failed to deserialize cost model: extra keys: 'frobnicate'");
}

#[test]
fn every_unknown_key_is_listed() {
    let mut entries = full_entries();
    entries.insert(0, ("alpha".to_string(), 1));
    entries.push(("omega".to_string(), 2));
    let err = load_cost_model(&entries).unwrap_err();
    assert_eq!(err.message(), "failed to deserialize cost model: extra keys: 'alpha', 'omega'");
}

#[test]
fn missing_key_wins_over_unknown_key() {
    let mut entries: Vec<(String, u32)> =
        full_entries().into_iter().filter(|(k, _)| k != "trap").collect();
    entries.push(("frobnicate".to_string(), 5));
    assert!(matches!(load_cost_model(&entries), Err(LoadError::MissingCost(_))));
}

#[test]
fn empty_map_misses_the_first_instruction() {
    match load_cost_model(&Vec::new()) {
        Err(LoadError::MissingCost(name)) => assert_eq!(name, "add_32"),
        other => panic!("unexpected: {:?}", other),
    }
}

fn full_json(extra: &str, skip: &str) -> String {
    let mut s = String::from("{");
    for i in 0..INSTRUCTION_COUNT {
        let name = instruction_name_at(i);
        if name == skip || name == "zero_extend_16" {
            continue;
        }
        s.push_str(&format!("\"{}\": {},", name, i + 10));
    }
    s.push_str(extra);
    s.push_str("\"zero_extend_16\": 77}");
    s
}

#[test]
fn json_full_map_loads() {
    let text = full_json("", "zero_extend_16");
    let m = load_cost_model_json(text.as_bytes()).expect("loads");
    assert_eq!(m.weight(0), 10);
    assert_eq!(m.weight(INSTRUCTION_COUNT - 1), 77);
}

#[test]
fn json_missing_trap() {
    let text = full_json("", "trap");
    let err = load_cost_model_json(text.as_bytes()).unwrap_err();
    assert_eq!(err.message(), "missing cost for: 'trap'");
}

#[test]
fn json_extra_key() {
    let text = full_json("\"frobnicate\": 5,", "zero_extend_16");
    let err = load_cost_model_json(text.as_bytes()).unwrap_err();
    assert!(err.message().contains("'frobnicate'"));
}

#[test]
fn json_malformed_inputs() {
    for text in [&b"not json"[..], b"{\"add_32\": -1}", b"{\"add_32\": 1.5}", b"[1, 2]", b"\xff\xfe"] {
        assert!(matches!(load_cost_model_json(text), Err(LoadError::Malformed)));
    }
    assert_eq!(LoadError::Malformed.message(), "failed to parse the cost model");
}

#[test]
fn json_small_map_misses_second_instruction() {
    match load_cost_model_json(b"{\"add_32\": 1}") {
        Err(LoadError::MissingCost(name)) => assert_eq!(name, "add_64"),
        other => panic!("unexpected: {:?}", other),
    }
}
