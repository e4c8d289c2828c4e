use model_server::config::{default_db_path, default_port};
use model_server::locator::{DiskLocator, ImportSource};
use model_server::migration::{current_schema_version, target_schema_version, upgrade_steps, MigrationError};
use model_server::records::{Model, RowError};
use model_server::registry::{
    CompletionModelParams, ImportMetadata, ModelParams, ModelType, RegisterModelRequest, Runtime,
    SemanticVersion,
};

fn request() -> RegisterModelRequest {
    RegisterModelRequest {
        model: "llama.gguf".to_string(),
        version: SemanticVersion { major: 0, minor: 1, patch: 0 },
        model_type: ModelType::Completion,
        runtime: Runtime::Ggml,
        import_metadata: ImportMetadata {
            imported_at_unix_nanos: 0,
            source: ImportSource::DISK(DiskLocator { path: "/m/llama.gguf".to_string() }),
        },
        internal_params: ModelParams::COMPLETION(CompletionModelParams {
            model_path: "/m/llama.gguf".to_string(),
        }),
    }
}

fn row(model_type: &str, runtime: &str) -> Model {
    Model {
        id: "id".to_string(),
        name: "n".to_string(),
        model_type: model_type.to_string(),
        runtime: runtime.to_string(),
        description: String::new(),
    }
}

#[test]
fn model_kind_names() {
    assert_eq!(ModelType::Completion.as_str(), "completion");
    assert_eq!(Runtime::Ggml.as_str(), "ggml");
    assert_eq!(ModelType::parse("completion"), Some(ModelType::Completion));
    assert_eq!(ModelType::parse("Completion"), None);
    assert_eq!(ModelType::parse(""), None);
    assert_eq!(Runtime::parse("ggml"), Some(Runtime::Ggml));
    assert_eq!(Runtime::parse("onnx"), None);
}

#[test]
fn registration_row() {
    let r = Model::for_registration("6f479fd1-d7eb-4ca0-b15e-e61743e561fd".to_string(), &request());
    assert_eq!(
        r,
        Model {
            id: "6f479fd1-d7eb-4ca0-b15e-e61743e561fd".to_string(),
            name: "llama.gguf".to_string(),
            model_type: "completion".to_string(),
            runtime: "ggml".to_string(),
            description: String::new(),
        }
    );
    assert_eq!(r.kinds(), Ok((ModelType::Completion, Runtime::Ggml)));
}

#[test]
fn unknown_row_kinds() {
    assert_eq!(row("chat", "ggml").kinds(), Err(RowError::UnknownModelType));
    assert_eq!(row("chat", "onnx").kinds(), Err(RowError::UnknownModelType));
    assert_eq!(row("completion", "onnx").kinds(), Err(RowError::UnknownRuntime));
}

#[test]
fn schema_versions() {
    assert_eq!(current_schema_version(None), 0);
    assert_eq!(current_schema_version(Some(3)), 3);
    assert_eq!(current_schema_version(Some(-1)), u64::MAX);
    assert_eq!(target_schema_version(1), 1);
    assert_eq!(target_schema_version(0), 0);
}

#[test]
fn upgrade_plans() {
    assert_eq!(upgrade_steps(1, 0, 1), Ok(vec![0]));
    assert_eq!(upgrade_steps(4, 1, 4), Ok(vec![1, 2, 3]));
    assert_eq!(upgrade_steps(2, 1, 1), Ok(vec![]));
    assert_eq!(upgrade_steps(1, 1, 1), Err(MigrationError::InvalidSchemaVersion));
    assert_eq!(upgrade_steps(0, 0, 0), Err(MigrationError::InvalidSchemaVersion));
    assert_eq!(upgrade_steps(3, 2, 1), Err(MigrationError::InvalidSchemaRange));
    assert_eq!(upgrade_steps(2, 0, 3), Err(MigrationError::InvalidSchemaRange));
}

#[test]
fn server_defaults() {
    assert_eq!(default_port(), 8000);
    assert_eq!(default_db_path(), "prod.db");
}
