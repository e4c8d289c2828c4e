use model_server::inference::{Backend, LoadError};

#[test]
fn load_model_accepts_plain_path() {
    let backend = Backend;
    let model = backend.load_model(&"/models/llama2_gguf.bin".to_string()).unwrap();
    assert_eq!(model.source(), "/models/llama2_gguf.bin");
}

#[test]
fn load_model_refuses_zero_byte() {
    let backend = Backend;
    assert_eq!(backend.load_model(&"/models/a\0b.bin".to_string()), Err(LoadError::NulInPath));
    assert_eq!(backend.load_model(&"\0".to_string()), Err(LoadError::NulInPath));
}
