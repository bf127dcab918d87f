//! The part of the configuration that rollout recording reads.

use vstd::prelude::*;

verus! {

/// Memory-related settings.
pub struct MemoriesConfig {
    pub generate_memories: bool,
}

/// Configuration values read when recording rollouts. Paths are held as
/// their text.
pub struct Config {
    pub codewen_home: String,
    pub sqlite_home: String,
    pub cwd: String,
    pub model_provider_id: String,
    pub memories: MemoriesConfig,
}

impl Config {
    /// The Codewen home directory.
    pub fn codewen_home(&self) -> (res: &str)
        ensures
            res@ == self.codewen_home@,
    {
        self.codewen_home.as_str()
    }

    /// The directory of the SQLite state database.
    pub fn sqlite_home(&self) -> (res: &str)
        ensures
            res@ == self.sqlite_home@,
    {
        self.sqlite_home.as_str()
    }

    /// The working directory.
    pub fn cwd(&self) -> (res: &str)
        ensures
            res@ == self.cwd@,
    {
        self.cwd.as_str()
    }

    /// The id of the model provider.
    pub fn model_provider_id(&self) -> (res: &str)
        ensures
            res@ == self.model_provider_id@,
    {
        self.model_provider_id.as_str()
    }

    /// Whether memories are generated.
    pub fn generate_memories(&self) -> (res: bool)
        ensures
            res == self.memories.generate_memories,
    {
        self.memories.generate_memories
    }
}

} // verus!
