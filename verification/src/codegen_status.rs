//! Status reporting for a code-generation workflow: the status value, its
//! builder, and the build-time validation that both required fields were
//! set. The builder reports a missing field through the smithy build
//! error, as the service client does.

use vstd::prelude::*;

verus! {

/// Declares the smithy build-error type so it can appear in results.
#[verifier::external_type_specification]
#[verifier::external_body]
pub struct ExBuildError(aws_smithy_types::error::operation::BuildError);

/// Relies on `aws_smithy_types::error::operation::BuildError::missing_field`,
/// which constructs the error value reported when a required builder
/// field was not set.
#[verifier::external_body]
fn missing_field_error(field: &'static str, details: &'static str) -> (r:
    aws_smithy_types::error::operation::BuildError)
{
    aws_smithy_types::error::operation::BuildError::missing_field(field, details)
}

/// How far the workflow has progressed.
#[derive(Clone, Copy, Debug, PartialEq, Eq, Structural)]
pub enum CodeGenerationWorkflowStatus {
    InProgress,
    Complete,
    Failed,
}

/// The stage the workflow currently runs.
#[derive(Clone, Copy, Debug, PartialEq, Eq, Structural)]
pub enum CodeGenerationWorkflowStage {
    Preparation,
    CodeGeneration,
    Validation,
}

/// A completed status report: both fields are always present.
#[derive(Clone, Copy, Debug, PartialEq, Eq, Structural)]
pub struct CodeGenerationStatus {
    pub status: CodeGenerationWorkflowStatus,
    pub current_stage: CodeGenerationWorkflowStage,
}

impl CodeGenerationStatus {
    /// The workflow status.
    pub fn status(&self) -> (r: &CodeGenerationWorkflowStatus)
        ensures
            *r == self.status,
    {
        &self.status
    }

    /// The current workflow stage.
    pub fn current_stage(&self) -> (r: &CodeGenerationWorkflowStage)
        ensures
            *r == self.current_stage,
    {
        &self.current_stage
    }

    /// Creates a new builder-style object to manufacture
    /// [`CodeGenerationStatus`].
    pub fn builder() -> (r: CodeGenerationStatusBuilder)
        ensures
            r.status is None,
            r.current_stage is None,
    {
        CodeGenerationStatusBuilder::default()
    }
}

/// A builder for [`CodeGenerationStatus`].
#[derive(Clone, Debug)]
pub struct CodeGenerationStatusBuilder {
    pub status: Option<CodeGenerationWorkflowStatus>,
    pub current_stage: Option<CodeGenerationWorkflowStage>,
}

impl Default for CodeGenerationStatusBuilder {
    /// Both fields start unset.
    fn default() -> (r: CodeGenerationStatusBuilder)
        ensures
            r.status is None,
            r.current_stage is None,
    {
        CodeGenerationStatusBuilder { status: None, current_stage: None }
    }
}

impl CodeGenerationStatusBuilder {
    /// Sets the workflow status. This field is required.
    pub fn status(self, input: CodeGenerationWorkflowStatus) -> (r: CodeGenerationStatusBuilder)
        ensures
            r.status == Some(input),
            r.current_stage == self.current_stage,
    {
        CodeGenerationStatusBuilder { status: Some(input), ..self }
    }

    /// Sets or clears the workflow status.
    pub fn set_status(self, input: Option<CodeGenerationWorkflowStatus>) -> (r:
        CodeGenerationStatusBuilder)
        ensures
            r.status == input,
            r.current_stage == self.current_stage,
    {
        CodeGenerationStatusBuilder { status: input, ..self }
    }

    /// The workflow status set so far.
    pub fn get_status(&self) -> (r: &Option<CodeGenerationWorkflowStatus>)
        ensures
            *r == self.status,
    {
        &self.status
    }

    /// Sets the current stage. This field is required.
    pub fn current_stage(self, input: CodeGenerationWorkflowStage) -> (r:
        CodeGenerationStatusBuilder)
        ensures
            r.current_stage == Some(input),
            r.status == self.status,
    {
        CodeGenerationStatusBuilder { current_stage: Some(input), ..self }
    }

    /// Sets or clears the current stage.
    pub fn set_current_stage(self, input: Option<CodeGenerationWorkflowStage>) -> (r:
        CodeGenerationStatusBuilder)
        ensures
            r.current_stage == input,
            r.status == self.status,
    {
        CodeGenerationStatusBuilder { current_stage: input, ..self }
    }

    /// The current stage set so far.
    pub fn get_current_stage(&self) -> (r: &Option<CodeGenerationWorkflowStage>)
        ensures
            *r == self.current_stage,
    {
        &self.current_stage
    }

    /// Consumes the builder and constructs a [`CodeGenerationStatus`].
    /// Succeeds exactly when both required fields were set; a missing
    /// field yields the smithy build error naming it.
    pub fn build(self) -> (r: Result<
        CodeGenerationStatus,
        aws_smithy_types::error::operation::BuildError,
    >)
        ensures
            r is Ok <==> (self.status is Some && self.current_stage is Some),
            r matches Ok(v) ==> v.status == self.status->0 && v.current_stage
                == self.current_stage->0,
    {
        let status = match self.status {
            Some(s) => s,
            None => {
                return Err(
                    missing_field_error(
                        "status",
                        "status was not specified but it is required when building CodeGenerationStatus",
                    ),
                );
            },
        };
        let current_stage = match self.current_stage {
            Some(s) => s,
            None => {
                return Err(
                    missing_field_error(
                        "current_stage",
                        "current_stage was not specified but it is required when building CodeGenerationStatus",
                    ),
                );
            },
        };
        Ok(CodeGenerationStatus { status, current_stage })
    }
}

} // verus!
