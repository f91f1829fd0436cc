//! Outcomes of dynamic plugin teardown.

use vstd::prelude::*;

verus! {

/// What went wrong while plugins were torn down, and whether their code may be
/// unloaded.
#[derive(Debug)]
pub struct DynamicPluginTeardownOutcome {
    /// Error texts, in the order in which they occurred.
    pub errors: Vec<String>,
    /// Whether nothing of the plugins can still be called.
    pub safe_to_unload: bool,
}

impl DynamicPluginTeardownOutcome {
    /// The outcome of a teardown without errors.
    pub fn success() -> (r: Self)
        ensures
            r.errors@ == Seq::<String>::empty(),
            r.safe_to_unload,
    {
        DynamicPluginTeardownOutcome { errors: Vec::new(), safe_to_unload: true }
    }

    /// Records an error and whether unloading stays safe in spite of it.
    pub fn record_error(&mut self, error: String, safe_to_unload: bool)
        ensures
            final(self).errors@ == old(self).errors@.push(error),
            final(self).safe_to_unload == (old(self).safe_to_unload && safe_to_unload),
    {
        self.errors.push(error);
        self.safe_to_unload = self.safe_to_unload && safe_to_unload;
    }

    /// Takes in the outcome of a further teardown.
    pub fn merge(&mut self, other: Self)
        ensures
            final(self).errors@ == old(self).errors@ + other.errors@,
            final(self).safe_to_unload == (old(self).safe_to_unload && other.safe_to_unload),
    {
        let mut other = other;
        self.errors.append(&mut other.errors);
        self.safe_to_unload = self.safe_to_unload && other.safe_to_unload;
    }
}

} // verus!
