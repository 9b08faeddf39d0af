//! Plain result records exchanged with an external plan executor.
//!
//! The executor, not this crate, decides how steps are sequenced and
//! aggregated; these are the value shapes it records outcomes in.

use vstd::prelude::*;

verus! {

/// Result of executing a single step of a plan.
#[derive(Clone, Debug)]
pub struct StepResult {
    /// Type of step that was executed.
    pub step_type: String,
    /// Output from the step execution.
    pub output: String,
    /// Whether the step executed successfully.
    pub success: bool,
}

/// Result of executing a complete plan.
#[derive(Clone, Debug)]
pub struct ExecutionResult {
    /// Whether the plan executed successfully.
    pub success: bool,
    /// The final response to return to the user.
    pub final_response: String,
    /// Results from each step in the plan, in execution order.
    pub step_results: Vec<StepResult>,
}

impl StepResult {
    /// Create a successful step result.
    pub fn success(step_type: String, output: String) -> (r: StepResult)
        ensures
            r.step_type@ == step_type@,
            r.output@ == output@,
            r.success == true,
    {
        StepResult { step_type, output, success: true }
    }

    /// Create a failed step result.
    pub fn failure(step_type: String, output: String) -> (r: StepResult)
        ensures
            r.step_type@ == step_type@,
            r.output@ == output@,
            r.success == false,
    {
        StepResult { step_type, output, success: false }
    }
}

} // verus!
