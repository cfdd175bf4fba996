//! The plugin registry: which references have been loaded, in load order.
//!
//! Loading runs in two phases. `begin_load` guards idempotency before any
//! module is opened; once the surrounding code has tried to open the module
//! and resolve its constructor, `finish_load` records the outcome, so a
//! failed load never leaves a partial registration behind.

use vstd::prelude::*;
use vstd::string::StringExecFns;

use crate::messages::PluginError;
use crate::messages::strs_view;
use crate::text::str_eq;

verus! {

/// What the idempotency guard answers for a reference.
pub open spec fn spec_begin_load(names: Seq<Seq<char>>, name: Seq<char>) -> Result<
    (),
    PluginError,
> {
    if names.contains(name) {
        Err(PluginError::AlreadyLoaded)
    } else {
        Ok(())
    }
}

/// How recording a load outcome changes the registry, and what it returns.
pub open spec fn spec_finish_load(
    names: Seq<Seq<char>>,
    name: Seq<char>,
    outcome: Result<(), PluginError>,
) -> (Seq<Seq<char>>, Result<(), PluginError>) {
    match outcome {
        Err(e) => (names, Err(e)),
        Ok(u) => if names.contains(name) {
            (names, Err(PluginError::AlreadyLoaded))
        } else {
            (names.push(name), Ok(()))
        },
    }
}

/// The loaded plugin references, keyed by reference text, in load order.
pub struct PluginRegistry {
    names: Vec<String>,
}

impl View for PluginRegistry {
    type V = Seq<Seq<char>>;

    closed spec fn view(&self) -> Seq<Seq<char>> {
        strs_view(self.names@)
    }
}

impl PluginRegistry {
    /// An empty registry.
    pub fn new() -> (r: Self)
        ensures
            r@ == Seq::<Seq<char>>::empty(),
    {
        let r = PluginRegistry { names: Vec::new() };
        proof {
            assert(r@ =~= Seq::<Seq<char>>::empty());
        }
        r
    }

    /// How many plugins have been loaded.
    pub fn len(&self) -> (n: usize)
        ensures
            n == self@.len(),
    {
        self.names.len()
    }

    /// Whether the reference was already loaded.
    pub fn is_loaded(&self, name: &str) -> (r: bool)
        ensures
            r == self@.contains(name@),
    {
        let mut i: usize = 0;
        let n = self.names.len();
        while i < n
            invariant
                n == self.names@.len(),
                i <= n,
                forall|j: int| 0 <= j < i ==> self@[j] != name@,
                self@.len() == n,
                forall|j: int| 0 <= j < n ==> self@[j] == self.names@[j]@,
            decreases n - i,
        {
            if str_eq(self.names[i].as_str(), name) {
                proof {
                    assert(self@[i as int] == name@);
                }
                return true;
            }
            i = i + 1;
        }
        proof {
            assert(forall|j: int| 0 <= j < self@.len() ==> self@[j] != name@);
        }
        false
    }

    /// The idempotency guard: run before opening any module.
    pub fn begin_load(&self, name: &str) -> (r: Result<(), PluginError>)
        ensures
            r == spec_begin_load(self@, name@),
    {
        if self.is_loaded(name) {
            Err(PluginError::AlreadyLoaded)
        } else {
            Ok(())
        }
    }

    /// Records the outcome of opening a module and resolving its constructor:
    /// a successful load of a new reference is appended in load order; any
    /// failure, or a repeated reference, leaves the registry unchanged.
    pub fn finish_load(&mut self, name: &str, outcome: Result<(), PluginError>) -> (r: Result<
        (),
        PluginError,
    >)
        ensures
            (final(self)@, r) == spec_finish_load(old(self)@, name@, outcome),
    {
        match outcome {
            Err(e) => Err(e),
            Ok(u) => {
                if self.is_loaded(name) {
                    Err(PluginError::AlreadyLoaded)
                } else {
                    let ghost before = self@;
                    self.names.push(String::from_str(name));
                    proof {
                        assert(self@ =~= before.push(name@));
                    }
                    Ok(())
                }
            },
        }
    }
}

/// The file name under which a plugin reference's module is looked up: the
/// reference wrapped in the dynamic-library naming convention.
pub fn module_file_name(name: &str) -> (r: String)
    ensures
        r@ == "lib"@ + name@ + ".dylib"@,
{
    let mut r = String::from_str("lib");
    r.append(name);
    r.append(".dylib");
    r
}

/// Loader idempotency: loading a reference that is not yet present succeeds
/// and grows the registry by exactly one entry, and loading the same
/// reference again reports `AlreadyLoaded` and leaves the registry unchanged.
pub proof fn lemma_loader_idempotent(names: Seq<Seq<char>>, name: Seq<char>)
    requires
        spec_begin_load(names, name) is Ok,
    ensures
        ({
            let (names1, r1) = spec_finish_load(names, name, Ok(()));
            &&& r1 is Ok
            &&& names1.len() == names.len() + 1
            &&& spec_begin_load(names1, name) == Err::<(), PluginError>(PluginError::AlreadyLoaded)
            &&& spec_finish_load(names1, name, Ok(())) == (
                names1,
                Err::<(), PluginError>(PluginError::AlreadyLoaded),
            )
        }),
{
    assert(names.push(name)[names.len() as int] == name);
}

/// Loader failure paths: a load whose module could not be opened or whose
/// constructor could not be resolved passes the error through and leaves the
/// registry unchanged — there is no partial registration.
pub proof fn lemma_failed_load_unchanged(names: Seq<Seq<char>>, name: Seq<char>, e: PluginError)
    ensures
        spec_finish_load(names, name, Err(e)) == (names, Err::<(), PluginError>(e)),
{
}

} // verus!
