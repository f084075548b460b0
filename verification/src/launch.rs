//! The description of a process that the editor is asked to start.

use vstd::prelude::*;

verus! {

/// How to start a process: the executable, its arguments in order, and the
/// variables to set on top of the environment the editor already has.
#[derive(Clone, Debug, PartialEq, Eq)]
pub struct LaunchSpec {
    /// Executable name or path, handed to the editor as it stands.
    pub program: String,
    /// Arguments, in the order they are passed.
    pub args: Vec<String>,
    /// Environment overrides as name and value; no name occurs twice.
    pub env: Vec<(String, String)>,
}

/// What a [`LaunchSpec`] holds, as plain text.
pub struct LaunchModel {
    pub program: Seq<char>,
    pub args: Seq<Seq<char>>,
    pub env: Seq<(Seq<char>, Seq<char>)>,
}

impl LaunchModel {
    /// A launch of `program` alone: no arguments, nothing overridden.
    pub open spec fn bare(program: Seq<char>) -> LaunchModel {
        LaunchModel { program, args: Seq::empty(), env: Seq::empty() }
    }

    /// No variable is overridden twice.
    pub open spec fn wf(self) -> bool {
        forall|i: int, j: int|
            0 <= i < j < self.env.len() ==> self.env[i].0 != self.env[j].0
    }
}

impl View for LaunchSpec {
    type V = LaunchModel;

    open spec fn view(&self) -> LaunchModel {
        LaunchModel {
            program: self.program@,
            args: self.args@.map_values(|arg: String| arg@),
            env: self.env@.map_values(|pair: (String, String)| (pair.0@, pair.1@)),
        }
    }
}

impl LaunchSpec {
    /// The overrides form a mapping: no variable is named twice.
    pub open spec fn wf(&self) -> bool {
        self@.wf()
    }

    /// Starts `program` with no arguments in the editor's own environment.
    pub fn bare(program: String) -> (launch: LaunchSpec)
        ensures
            launch@ == LaunchModel::bare(program@),
            launch.wf(),
    {
        let launch = LaunchSpec { program, args: Vec::new(), env: Vec::new() };
        proof {
            assert(launch@.args =~= Seq::empty());
            assert(launch@.env =~= Seq::empty());
        }
        launch
    }
}

} // verus!
