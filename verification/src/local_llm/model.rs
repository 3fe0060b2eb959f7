//! The language models that the local server can run.

use vstd::prelude::*;

verus! {

/// `std::path::PathBuf`, an owned file-system path. Nothing inside it is
/// visible here.
#[verifier::external_type_specification]
#[verifier::external_body]
pub struct ExPathBuf(std::path::PathBuf);

/// The path that `Path::join` makes of a directory and a file name.
pub uninterp spec fn joined_path(directory: std::path::PathBuf, name: Seq<char>) -> std::path::PathBuf;

/// `Path::join` with a file name: the path of that name in the directory.
#[verifier::external_body]
fn join_path(directory: std::path::PathBuf, name: &str) -> (path: std::path::PathBuf)
    ensures
        path == joined_path(directory, name@),
{
    directory.join(name)
}

/// The name of the file that holds the weights of a model.
pub const MODEL_FILE_NAME: &'static str = "llm.gguf";

/// Where the weights of the supported model are published.
pub const LLAMA_3P2_3B_Q4_URL: &'static str =
    "https://storage.hyprnote.com/v0/lmstudio-community/Llama-3.2-3B-Instruct-GGUF/main/Llama-3.2-3B-Instruct-Q4_K_M.gguf";

/// The size in bytes of the weights of the supported model.
pub const LLAMA_3P2_3B_Q4_SIZE: u64 = 2019377440;

/// A language model that the local server can run.
#[derive(Debug, Clone, Copy, PartialEq, Eq, Structural)]
pub enum SupportedModel {
    Llama3p2_3bQ4,
}

impl SupportedModel {
    /// Where the weights of the model are kept under the data directory.
    pub fn model_path(&self, data_dir: std::path::PathBuf) -> (path: std::path::PathBuf)
        ensures
            path == joined_path(data_dir, MODEL_FILE_NAME@),
    {
        match self {
            SupportedModel::Llama3p2_3bQ4 => join_path(data_dir, MODEL_FILE_NAME),
        }
    }

    /// Where the weights of the model can be downloaded from.
    pub fn model_url(&self) -> (url: &str)
        ensures
            url@ == LLAMA_3P2_3B_Q4_URL@,
    {
        match self {
            SupportedModel::Llama3p2_3bQ4 => LLAMA_3P2_3B_Q4_URL,
        }
    }

    /// The size in bytes of the weights of the model.
    pub fn model_size(&self) -> (size: u64)
        ensures
            size == LLAMA_3P2_3B_Q4_SIZE,
    {
        match self {
            SupportedModel::Llama3p2_3bQ4 => LLAMA_3P2_3B_Q4_SIZE,
        }
    }
}

/// The models that the local server can run.
pub fn supported_models() -> (models: Vec<SupportedModel>)
    ensures
        models@ == seq![SupportedModel::Llama3p2_3bQ4],
{
    let mut models: Vec<SupportedModel> = Vec::new();
    models.push(SupportedModel::Llama3p2_3bQ4);
    assert(models@ =~= seq![SupportedModel::Llama3p2_3bQ4]);
    models
}

} // verus!
