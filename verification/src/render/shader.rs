use vstd::prelude::*;

verus! {

/// The vertex shaders the renderer loads.
#[derive(Clone, Copy, Debug, PartialEq, Eq, Hash, Structural)]
pub enum ShaderVertexName {
    Vertex1,
}

/// The fragment shaders the renderer loads.
#[derive(Clone, Copy, Debug, PartialEq, Eq, Hash, Structural)]
pub enum ShaderFragmentName {
    Fragment1,
}

impl ShaderVertexName {
    /// The shader's name as written in the source: the debug label of its
    /// module.
    pub fn label(&self) -> (name: String)
        ensures
            name@ == "Vertex1"@,
    {
        match self {
            ShaderVertexName::Vertex1 => "Vertex1".to_owned(),
        }
    }
}

impl ShaderFragmentName {
    /// The shader's name as written in the source: the debug label of its
    /// module.
    pub fn label(&self) -> (name: String)
        ensures
            name@ == "Fragment1"@,
    {
        match self {
            ShaderFragmentName::Fragment1 => "Fragment1".to_owned(),
        }
    }
}

} // verus!
