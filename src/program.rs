use vstd::prelude::*;
use vstd::string::*;

use crate::error::MobileError;

verus! {

/// A named routine of a compiled program, with the number of arguments it declares.
#[derive(Debug)]
pub struct EntryPoint {
    pub name: String,
    pub num_args: usize,
}

/// What the pipeline reads of a loaded program: its entry points.
#[derive(Debug)]
pub struct ProgramInterface {
    pub entrypoints: Vec<EntryPoint>,
}

/// Whether the entry point at `i` is called `name`.
pub open spec fn named(entrypoints: Seq<EntryPoint>, i: int, name: Seq<char>) -> bool {
    0 <= i < entrypoints.len() && entrypoints[i].name@ == name
}

/// The text of the error for an entry point that the program lacks.
pub open spec fn missing_entrypoint_text(name: Seq<char>) -> Seq<char> {
    "Entrypoint "@ + name + " not found"@
}

impl ProgramInterface {
    pub open spec fn has_entrypoint(&self, name: Seq<char>) -> bool {
        exists|i: int| named(self.entrypoints@, i, name)
    }

    /// Exact, case-sensitive lookup: the position of the first entry point
    /// called `name`, or `None` when there is none.
    pub fn get_entrypoint(&self, name: &String) -> (r: Option<usize>)
        ensures
            r is None <==> !self.has_entrypoint(name@),
            r matches Some(i) ==> named(self.entrypoints@, i as int, name@) && forall|j: int|
                0 <= j < i ==> !named(self.entrypoints@, j, name@),
    {
        let mut i: usize = 0;
        while i < self.entrypoints.len()
            invariant
                i <= self.entrypoints@.len(),
                forall|j: int| 0 <= j < i ==> !named(self.entrypoints@, j, name@),
            decreases self.entrypoints@.len() - i,
        {
            if self.entrypoints[i].name == *name {
                assert(named(self.entrypoints@, i as int, name@));
                return Some(i);
            }
            i = i + 1;
        }
        None
    }

    /// Resolves an entry point by name; an absent name is a VM error that
    /// names it.
    pub fn resolve_entrypoint(&self, name: &String) -> (r: Result<&EntryPoint, MobileError>)
        ensures
            r is Err <==> !self.has_entrypoint(name@),
            r matches Ok(e) ==> exists|i: int|
                named(self.entrypoints@, i, name@) && *e == self.entrypoints@[i],
            r matches Err(e) ==> e is Vm && e.message_view() == missing_entrypoint_text(name@),
    {
        match self.get_entrypoint(name) {
            Some(i) => Ok(&self.entrypoints[i]),
            None => {
                let msg = String::from_str("Entrypoint ").concat(name.as_str()).concat(
                    " not found",
                );
                Err(MobileError::Vm(msg))
            },
        }
    }
}

} // verus!
