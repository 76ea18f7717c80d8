//! The perturbation sources selected for a run, and how they are described
//! on rendered frames.
use vstd::prelude::*;

verus! {

/// The structural-motion series to load: open loop, or with the segment
/// motions compensated by one of the mirrors' control loops.
#[derive(Debug, Clone, Copy, PartialEq, Eq, Structural)]
pub enum WindLoadsOptions {
    /// No compensation.
    OpenLoop,
    /// Segment tip-tilt compensated by the fast steering mirror.
    Fsm,
    /// Segment piston and tip-tilt compensated by the adaptive secondary.
    Asm,
    /// As `Asm`, with the updated piston rejection transfer function.
    Asm2,
}

impl WindLoadsOptions {
    pub open spec fn tag_spec(self) -> Seq<char> {
        match self {
            WindLoadsOptions::OpenLoop => "WindLoads"@,
            WindLoadsOptions::Fsm => "(Wind Loads - FSM)"@,
            WindLoadsOptions::Asm => "(Wind Loads - ASM)"@,
            WindLoadsOptions::Asm2 => "(Wind Loads - ASM2)"@,
        }
    }

    pub open spec fn file_name_spec(self) -> Seq<char> {
        match self {
            WindLoadsOptions::OpenLoop => "m1_m2_rbms.parquet"@,
            WindLoadsOptions::Fsm => "m1_m2_rbms.FSM.parquet"@,
            WindLoadsOptions::Asm => "m1_m2_rbms.ASM.parquet"@,
            WindLoadsOptions::Asm2 => "m1_m2_rbms.ASM.2.parquet"@,
        }
    }

    /// How the series is named in a perturbation description.
    pub fn tag(&self) -> (r: &'static str)
        ensures
            r@ == self.tag_spec(),
    {
        match self {
            WindLoadsOptions::OpenLoop => "WindLoads",
            WindLoadsOptions::Fsm => "(Wind Loads - FSM)",
            WindLoadsOptions::Asm => "(Wind Loads - ASM)",
            WindLoadsOptions::Asm2 => "(Wind Loads - ASM2)",
        }
    }

    /// Name of the stored table that holds the series.
    pub fn file_name(&self) -> (r: &'static str)
        ensures
            r@ == self.file_name_spec(),
    {
        match self {
            WindLoadsOptions::OpenLoop => "m1_m2_rbms.parquet",
            WindLoadsOptions::Fsm => "m1_m2_rbms.FSM.parquet",
            WindLoadsOptions::Asm => "m1_m2_rbms.ASM.parquet",
            WindLoadsOptions::Asm2 => "m1_m2_rbms.ASM.2.parquet",
        }
    }
}

/// Errors of selecting the perturbation sources.
#[derive(Debug, Clone, Copy, PartialEq, Eq, Structural)]
pub enum PerturbationError {
    /// Neither dome seeing nor wind loads was selected.
    NoPerturbation,
}

/// The description of the selected perturbations shown on rendered frames.
pub open spec fn effects_spec(domeseeing: bool, windloads: Option<WindLoadsOptions>) -> Option<
    Seq<char>,
> {
    match (domeseeing, windloads) {
        (true, None) => Some("Dome Seeing"@),
        (true, Some(w)) => Some("Dome Seeing + "@ + w.tag_spec()),
        (false, Some(w)) => Some(w.tag_spec()),
        (false, None) => None,
    }
}

/// Describes the selected perturbations; at least one source must be
/// selected.
pub fn turbulence_effects(domeseeing: bool, windloads: Option<WindLoadsOptions>) -> (r: Result<
    String,
    PerturbationError,
>)
    ensures
        match effects_spec(domeseeing, windloads) {
            Some(text) => r matches Ok(s) && s@ == text,
            None => r == Err::<String, PerturbationError>(PerturbationError::NoPerturbation),
        },
{
    match windloads {
        None => if domeseeing {
            Ok(String::from_str("Dome Seeing"))
        } else {
            Err(PerturbationError::NoPerturbation)
        },
        Some(w) => if domeseeing {
            Ok(String::from_str("Dome Seeing + ").concat(w.tag()))
        } else {
            Ok(String::from_str(w.tag()))
        },
    }
}

} // verus!
