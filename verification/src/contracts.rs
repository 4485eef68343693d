//! The contracts between the parts of the package manager: progress
//! reports and the artifacts of pipeline steps.
use vstd::prelude::*;

verus! {

/// A phase of an installation.
#[derive(Debug, Clone, Copy, PartialEq, Eq, Structural)]
pub enum Phase {
    Resolving,
    Downloading,
    Extracting,
    Linking,
}

/// A report that the installation entered a phase.
#[derive(Debug)]
pub struct ProgressAction {
    pub phase: Phase,
}

impl ProgressAction {
    pub fn new(phase: Phase) -> (r: Self)
        ensures
            r.phase == phase,
    {
        Self { phase }
    }
}

/// What a pipeline step hands to the next.
pub trait PipeArtifact<T> {
    fn get_artifacts(&self) -> T;
}

/// What else a pipeline step hands on.
pub trait PipeExtras<T> {
    fn get_extras(&self) -> T;
}

/// The packages a resolving step hands on.
pub trait PipeResolveArtifact {
    fn get_artifacts(&self) -> Vec<crate::package::NpmPackage>;
}

/// `std::sync::mpsc::Receiver`, carried through unread.
#[verifier::external_type_specification]
#[verifier::external_body]
#[verifier::reject_recursive_types(T)]
pub struct ExReceiver<T>(std::sync::mpsc::Receiver<T>);

/// A display of the progress of an installation.
pub trait Progress: Sized {
    fn new() -> Self;

    /// Follows the reports until the sending side closes.
    fn start(&self, rx: std::sync::mpsc::Receiver<ProgressAction>);

    fn set_phase(&self, phase: Phase);

    fn finish(&self);
}

/// A new progress display: what the display type's `new` gives.
pub fn create_progress_bar<T: Progress>() -> (r: T)
    ensures
        call_ensures(T::new, (), r),
{
    T::new()
}

/// The phase that ends when `phase` starts.
pub open spec fn phase_before(phase: Phase) -> Option<Phase> {
    match phase {
        Phase::Resolving => None,
        Phase::Downloading => Some(Phase::Resolving),
        Phase::Extracting => Some(Phase::Downloading),
        Phase::Linking => Some(Phase::Extracting),
    }
}

pub open spec fn phase_label(phase: Phase) -> Seq<char> {
    match phase {
        Phase::Resolving => "Resolving ..."@,
        Phase::Downloading => "Downloading ..."@,
        Phase::Extracting => "Extracting ..."@,
        Phase::Linking => "Linking ..."@,
    }
}

impl Phase {
    /// The phase whose spinner finishes when this one starts.
    pub fn previous(&self) -> (r: Option<Phase>)
        ensures
            r == phase_before(*self),
    {
        match self {
            Phase::Resolving => None,
            Phase::Downloading => Some(Phase::Resolving),
            Phase::Extracting => Some(Phase::Downloading),
            Phase::Linking => Some(Phase::Extracting),
        }
    }

    /// The message shown while the phase runs.
    pub fn label(&self) -> (r: String)
        ensures
            r@ == phase_label(*self),
    {
        match self {
            Phase::Resolving => crate::text::owned("Resolving ..."),
            Phase::Downloading => crate::text::owned("Downloading ..."),
            Phase::Extracting => crate::text::owned("Extracting ..."),
            Phase::Linking => crate::text::owned("Linking ..."),
        }
    }
}

} // verus!
