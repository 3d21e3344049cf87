//! State machine for the brewing process
//!
//! Only the transition from planning straight to done is defined so far; the
//! intermediate brewing states are placeholders awaiting their transitions.
use vstd::prelude::*;

use crate::bryggio::recipe::Recipe as BryggioRecipe;
use vstd::std_specs::convert::FromSpec;

verus! {

/// The brewing process, as one state per stage.
pub enum StateMachineWrapper {
    Planning(StateMachine<Planning>),
    Preparation,
    Mash,
    MashOut,
    Sparge,
    Boil,
    FirstChill,
    Whirlpool,
    FinalChill,
    Fermentation,
    Done(StateMachine<Done>),
}

impl StateMachineWrapper {
    /// Advances the process by one transition.  Only a machine in the
    /// planning state can step — the intermediate stages have no transitions
    /// yet, and a finished machine has nowhere to go — and planning
    /// completes directly to done.
    pub fn step(self) -> (r: Self)
        requires
            self is Planning,
        ensures
            r matches StateMachineWrapper::Done(d) && d == StateMachine::<Done>::from_spec(
                self->Planning_0,
            ),
    {
        match self {
            StateMachineWrapper::Planning(val) => StateMachineWrapper::Done(val.into()),
            _ => unreached(),
        }
    }
}

/// A recipe together with the stage the brewing of it has reached.
pub struct StateMachine<S> {
    pub general: BryggioRecipe,
    pub state: S,
}

impl vstd::std_specs::convert::FromSpecImpl<BryggioRecipe> for StateMachine<Planning> {
    open spec fn obeys_from_spec() -> bool {
        true
    }

    open spec fn from_spec(recipe: BryggioRecipe) -> StateMachine<Planning> {
        StateMachine { general: recipe, state: Planning { temp: 0 } }
    }
}

impl From<BryggioRecipe> for StateMachine<Planning> {
    fn from(recipe: BryggioRecipe) -> (r: StateMachine<Planning>) {
        StateMachine { general: recipe, state: Planning { temp: 0 } }
    }
}

/// The planning stage.
pub struct Planning {
    pub temp: usize,
}

impl vstd::std_specs::convert::FromSpecImpl<BryggioRecipe> for Planning {
    open spec fn obeys_from_spec() -> bool {
        true
    }

    open spec fn from_spec(recipe: BryggioRecipe) -> Planning {
        Planning { temp: 0 }
    }
}

impl From<BryggioRecipe> for Planning {
    fn from(_recipe: BryggioRecipe) -> (r: Planning) {
        Planning { temp: 0 }
    }
}

/// The finished stage.
pub struct Done {
    pub temp: usize,
}

impl vstd::std_specs::convert::FromSpecImpl<StateMachine<Planning>> for StateMachine<Done> {
    open spec fn obeys_from_spec() -> bool {
        true
    }

    open spec fn from_spec(val: StateMachine<Planning>) -> StateMachine<Done> {
        StateMachine { general: val.general, state: Done { temp: val.state.temp.wrapping_mul(2) } }
    }
}

impl From<StateMachine<Planning>> for StateMachine<Done> {
    fn from(val: StateMachine<Planning>) -> (r: StateMachine<Done>) {
        StateMachine { general: val.general, state: Done { temp: val.state.temp.wrapping_mul(2) } }
    }
}

} // verus!
