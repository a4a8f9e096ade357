//! The decisions of the portable (WASM) contract evaluators; JSON in and out is the host's.
use vstd::prelude::*;

verus! {

#[derive(Debug, PartialEq, Eq)]
pub struct WasmProjectionInput {
    pub projection_id: String,
    pub locked_components: Vec<u128>,
    pub rule_environment: String,
    pub settlement_rule: String,
}

#[derive(Debug, PartialEq, Eq)]
pub struct WasmSettlementOutput {
    pub accepted: bool,
    pub projected_components: Vec<u128>,
    pub narrative: String,
}

/// The input assumed when the payload cannot be read.
pub fn invalid_projection_input() -> (r: WasmProjectionInput)
    ensures
        r.projection_id@ == "invalid"@,
        r.locked_components@.len() == 0,
        r.rule_environment@ == "invalid"@,
        r.settlement_rule@ == "invalid"@,
{
    WasmProjectionInput {
        projection_id: String::from_str("invalid"),
        locked_components: Vec::new(),
        rule_environment: String::from_str("invalid"),
        settlement_rule: String::from_str("invalid"),
    }
}

/// A projection is accepted when it locks at least one component; the output echoes the
/// components and narrates where the projection settled.
pub fn settlement_output(input: WasmProjectionInput) -> (r: WasmSettlementOutput)
    ensures
        r.accepted == (input.locked_components@.len() > 0),
        r.projected_components@ == input.locked_components@,
        r.narrative@ == "projection "@ + input.projection_id@ + " settled inside environment "@
            + input.rule_environment@,
{
    let narrative = String::from_str("projection ").concat(input.projection_id.as_str()).concat(
        " settled inside environment ",
    ).concat(input.rule_environment.as_str());
    WasmSettlementOutput {
        accepted: input.locked_components.len() > 0,
        projected_components: input.locked_components,
        narrative,
    }
}

#[derive(Debug, PartialEq, Eq)]
pub struct WasmContractRequest {
    pub projection_id: String,
    pub locked_components: Vec<u128>,
    pub rule_environment: String,
    pub allow_gain: bool,
    pub allow_loss: bool,
}

#[derive(Debug, PartialEq, Eq)]
pub struct WasmContractResponse {
    pub accepted: bool,
    pub projected_components: Vec<u128>,
    pub note: String,
}

/// The note a contract response carries for `req`.
pub open spec fn contract_note(req: WasmContractRequest) -> Seq<char> {
    if req.allow_gain || req.allow_loss {
        "projection "@ + req.projection_id@ + " accepted in "@ + req.rule_environment@
    } else {
        "projection "@ + req.projection_id@ + " accepted with conservative settlement"@
    }
}

/// A request is accepted when it locks at least one component.
pub fn contract_response(req: WasmContractRequest) -> (r: WasmContractResponse)
    ensures
        r.accepted == (req.locked_components@.len() > 0),
        r.projected_components@ == req.locked_components@,
        r.note@ == contract_note(req),
{
    let note = if req.allow_gain || req.allow_loss {
        String::from_str("projection ").concat(req.projection_id.as_str()).concat(" accepted in ").concat(
            req.rule_environment.as_str(),
        )
    } else {
        String::from_str("projection ").concat(req.projection_id.as_str()).concat(
            " accepted with conservative settlement",
        )
    };
    WasmContractResponse {
        accepted: req.locked_components.len() > 0,
        projected_components: req.locked_components,
        note,
    }
}

/// The response to a payload that could not be read, given the reader's complaint.
pub fn rejected_contract_response(complaint: &str) -> (r: WasmContractResponse)
    ensures
        !r.accepted,
        r.projected_components@.len() == 0,
        r.note@ == "invalid input: "@ + complaint@,
{
    WasmContractResponse {
        accepted: false,
        projected_components: Vec::new(),
        note: String::from_str("invalid input: ").concat(complaint),
    }
}

} // verus!
