use v_contractx::wasm::{
    contract_response, invalid_projection_input, rejected_contract_response, settlement_output,
    WasmContractRequest, WasmProjectionInput,
};

#[test]
fn settlement_output_accepts_non_empty_locks() {
    let out = settlement_output(WasmProjectionInput {
        projection_id: "p1".to_string(),
        locked_components: vec![3, 4],
        rule_environment: "env".to_string(),
        settlement_rule: "immediate".to_string(),
    });
    assert!(out.accepted);
    assert_eq!(out.projected_components, vec![3, 4]);
    assert_eq!(out.narrative, "projection p1 settled inside environment env");
    let fallback = settlement_output(invalid_projection_input());
    assert!(!fallback.accepted);
    assert_eq!(fallback.narrative, "projection invalid settled inside environment invalid");
}

#[test]
fn contract_response_notes_settlement_style() {
    let req = |gain: bool, loss: bool| WasmContractRequest {
        projection_id: "p1".to_string(),
        locked_components: vec![],
        rule_environment: "env".to_string(),
        allow_gain: gain,
        allow_loss: loss,
    };
    let r = contract_response(req(true, false));
    assert!(!r.accepted);
    assert_eq!(r.note, "projection p1 accepted in env");
    assert_eq!(contract_response(req(false, true)).note, "projection p1 accepted in env");
    assert_eq!(contract_response(req(false, false)).note, "projection p1 accepted with conservative settlement");
    let mut full = req(false, false);
    full.locked_components = vec![1];
    assert!(contract_response(full).accepted);
    let bad = rejected_contract_response("expected value");
    assert!(!bad.accepted);
    assert_eq!(bad.note, "invalid input: expected value");
}
