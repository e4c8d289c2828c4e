//! Rows of the model registry's tables, and their relation to registrations.

use vstd::prelude::*;

use crate::registry::{ModelType, RegisterModelRequest, Runtime};

verus! {

/// A row of the registry's `model` table.
#[derive(Debug, PartialEq, Eq)]
pub struct Model {
    pub id: String,
    pub name: String,
    pub model_type: String,
    pub runtime: String,
    pub description: String,
}

/// Why a stored row cannot be read back as a registered model.
#[derive(Debug, Clone, Copy, PartialEq, Eq, Structural)]
pub enum RowError {
    UnknownModelType,
    UnknownRuntime,
}

impl Model {
    /// The row that records the model of `request` under the identifier `id`,
    /// with an empty description.
    pub fn for_registration(id: String, request: &RegisterModelRequest) -> (r: Model)
        ensures
            r.id == id,
            r.name == request.model,
            r.model_type@ == "completion"@,
            r.runtime@ == "ggml"@,
            r.description@ == Seq::<char>::empty(),
    {
        Model {
            id,
            name: request.model.clone(),
            model_type: request.model_type.as_str(),
            runtime: request.runtime.as_str(),
            description: String::new(),
        }
    }

    /// The model type and runtime that the row names.
    pub fn kinds(&self) -> (r: Result<(ModelType, Runtime), RowError>)
        ensures
            self.model_type@ != "completion"@ ==> r == Err::<(ModelType, Runtime), RowError>(
                RowError::UnknownModelType,
            ),
            self.model_type@ == "completion"@ && self.runtime@ != "ggml"@ ==> r == Err::<
                (ModelType, Runtime),
                RowError,
            >(RowError::UnknownRuntime),
            self.model_type@ == "completion"@ && self.runtime@ == "ggml"@ ==> r == Ok::<
                (ModelType, Runtime),
                RowError,
            >((ModelType::Completion, Runtime::Ggml)),
    {
        let model_type = match ModelType::parse(self.model_type.as_str()) {
            Some(t) => t,
            None => {
                return Err(RowError::UnknownModelType);
            },
        };
        let runtime = match Runtime::parse(self.runtime.as_str()) {
            Some(t) => t,
            None => {
                return Err(RowError::UnknownRuntime);
            },
        };
        Ok((model_type, runtime))
    }
}

} // verus!
