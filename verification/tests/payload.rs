use stress4844::payload::payloads_for_plan;
use stress4844::planner::{build_plan, PlanEntry};

#[test]
fn payload_sizes_match_the_plan() {
    let plan = build_plan(1, 128, 2 * 1024 * 1024, 0).unwrap();
    let payloads = payloads_for_plan(&plan);
    assert_eq!(payloads.len(), plan.len());
    for (payload, entry) in payloads.iter().zip(plan.iter()) {
        assert_eq!(payload.len(), entry.size);
    }
}

#[test]
fn zero_size_entry_gets_an_empty_payload() {
    let plan = vec![
        PlanEntry { size: 0, nonce: 0 },
        PlanEntry { size: 5, nonce: 1 },
    ];
    let payloads = payloads_for_plan(&plan);
    assert_eq!(payloads.len(), 2);
    assert!(payloads[0].is_empty());
    assert_eq!(payloads[1].len(), 5);
}
