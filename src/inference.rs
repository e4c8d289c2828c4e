//! The front of the native inference engine: what is decided before a model
//! file is handed to the engine's C interface.

use vstd::prelude::*;
use vstd::utf8::encode_utf8;

verus! {

/// The inference backend, through which model files are loaded.
#[derive(Debug, Clone, Copy, PartialEq, Eq, Structural)]
pub struct Backend;

/// A model file accepted for loading by the engine.
#[derive(Debug, PartialEq, Eq)]
pub struct Model {
    source: String,
}

/// Why a model file cannot be handed to the engine.
#[derive(Debug, Clone, Copy, PartialEq, Eq, Structural)]
pub enum LoadError {
    /// The path holds a zero byte, which the engine's C strings cannot carry.
    NulInPath,
}

impl Model {
    pub closed spec fn spec_source(&self) -> Seq<char> {
        self.source@
    }

    /// The path of the model file.
    pub fn source(&self) -> (r: &String)
        ensures
            r@ == self.spec_source(),
    {
        &self.source
    }
}

impl Backend {
    /// Accepts the model file at `path`, unless the path holds a zero byte.
    pub fn load_model(&self, path: &String) -> (r: Result<Model, LoadError>)
        ensures
            encode_utf8(path@).contains(0u8) ==> r == Err::<Model, LoadError>(
                LoadError::NulInPath,
            ),
            !encode_utf8(path@).contains(0u8) ==> (r matches Ok(m) && m.spec_source()
                == path@),
    {
        let text = path.as_str();
        let bytes = text.as_bytes();
        assert(text@ == path@);
        let mut i: usize = 0;
        while i < bytes.len()
            invariant
                bytes@ == encode_utf8(path@),
                0 <= i <= bytes@.len(),
                forall|k: int| 0 <= k < i ==> bytes@[k] != 0u8,
            decreases bytes@.len() - i,
        {
            if bytes[i] == 0u8 {
                return Err(LoadError::NulInPath);
            }
            i = i + 1;
        }
        Ok(Model { source: path.clone() })
    }
}

} // verus!
