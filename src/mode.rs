use vstd::prelude::*;

verus! {

/// How the manager should queue a job for a unit.
#[derive(Clone, Copy, Debug, PartialEq, Eq, Structural)]
pub enum Mode {
    /// Start the unit and its dependencies, while maybe replacing existing jobs related to unit.
    Replace,
    /// Start the unit and its dependencies but fail if this would affect an existing job.
    Fail,
    /// Start the unit and terminate all units that aren't dependencies of it.
    Isolate,
    /// Start a unit but ignore all its dependencies.
    IgnoreDependencies,
    /// Start a unit but only ignore the requirement dependencies.
    IgnoreRequirements,
}

/// The canonical wire token of each mode.
pub open spec fn mode_token(m: Mode) -> Seq<char> {
    match m {
        Mode::Replace => "replace"@,
        Mode::Fail => "fail"@,
        Mode::Isolate => "isolate"@,
        Mode::IgnoreDependencies => "ignore-dependencies"@,
        Mode::IgnoreRequirements => "ignore-requirements"@,
    }
}

impl Mode {
    /// The token that stands for this mode on the wire.
    pub fn token(&self) -> (r: &'static str)
        ensures
            r@ == mode_token(*self),
    {
        match self {
            Mode::Replace => "replace",
            Mode::Fail => "fail",
            Mode::Isolate => "isolate",
            Mode::IgnoreDependencies => "ignore-dependencies",
            Mode::IgnoreRequirements => "ignore-requirements",
        }
    }
}

} // verus!
