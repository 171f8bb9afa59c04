use vstd::prelude::*;

verus! {

/// The camera movement keys held down this frame.
#[derive(Clone, Copy, Debug, PartialEq, Eq, Structural)]
pub struct MoveKeys {
    pub left: bool,
    pub right: bool,
    pub up: bool,
    pub down: bool,
}

/// 1 for a held key, 0 otherwise.
pub open spec fn held(b: bool) -> int {
    if b {
        1
    } else {
        0
    }
}

/// The direction the camera pans in, before it is scaled to unit length: right minus
/// left across, up minus down along. Opposite keys cancel.
pub fn camera_direction(keys: MoveKeys) -> (direction: (i8, i8))
    ensures
        direction.0 == held(keys.right) - held(keys.left),
        direction.1 == held(keys.up) - held(keys.down),
{
    let mut x: i8 = 0;
    let mut y: i8 = 0;
    if keys.left {
        x -= 1;
    }
    if keys.right {
        x += 1;
    }
    if keys.up {
        y += 1;
    }
    if keys.down {
        y -= 1;
    }
    (x, y)
}

/// What happens to the simulation speed this frame.
#[derive(Clone, Copy, Debug, PartialEq, Eq, Structural)]
pub enum SpeedChange {
    Double,
    Halve,
    Keep,
}

/// The speed change asked for by the keys just pressed: speeding up wins when both are
/// pressed at once.
pub fn speed_change(faster: bool, slower: bool) -> (change: SpeedChange)
    ensures
        faster ==> change == SpeedChange::Double,
        !faster && slower ==> change == SpeedChange::Halve,
        !faster && !slower ==> change == SpeedChange::Keep,
{
    if faster {
        SpeedChange::Double
    } else if slower {
        SpeedChange::Halve
    } else {
        SpeedChange::Keep
    }
}

/// The regeneration keys just pressed this frame.
#[derive(Clone, Copy, Debug, PartialEq, Eq, Structural)]
pub struct RegenerationKeys {
    /// Start over: default colors, fresh matrix and constants, particles laid out anew.
    pub reset: bool,
    /// Reset the behavior matrix.
    pub matrix: bool,
    /// Reset the force constants.
    pub constants: bool,
}

/// One step of what the regeneration keys trigger.
#[derive(Clone, Copy, Debug, PartialEq, Eq, Structural)]
pub enum RegenerationStep {
    /// Remove every particle, take the default colors, reset the matrix and the
    /// constants, and lay the default number of particles out again.
    Reset,
    RegenerateMatrix,
    RegenerateConstants,
}

/// The steps the pressed keys trigger, in the order they run: reset first, then the
/// matrix, then the constants.
pub open spec fn regeneration_spec(keys: RegenerationKeys) -> Seq<RegenerationStep> {
    let a: Seq<RegenerationStep> = if keys.reset {
        seq![RegenerationStep::Reset]
    } else {
        Seq::empty()
    };
    let b = if keys.matrix {
        a.push(RegenerationStep::RegenerateMatrix)
    } else {
        a
    };
    if keys.constants {
        b.push(RegenerationStep::RegenerateConstants)
    } else {
        b
    }
}

/// Where a step runs among the steps of one frame.
pub open spec fn step_rank(step: RegenerationStep) -> int {
    match step {
        RegenerationStep::Reset => 0,
        RegenerationStep::RegenerateMatrix => 1,
        RegenerationStep::RegenerateConstants => 2,
    }
}

/// Each key triggers its own step and nothing else: reset runs exactly when the reset
/// key is pressed, the matrix step exactly when the matrix key is, the constants step
/// exactly when the constants key is; no step runs twice, and they run reset first,
/// then matrix, then constants.
pub proof fn lemma_regeneration_per_key(keys: RegenerationKeys)
    ensures
        regeneration_spec(keys).contains(RegenerationStep::Reset) <==> keys.reset,
        regeneration_spec(keys).contains(RegenerationStep::RegenerateMatrix) <==> keys.matrix,
        regeneration_spec(keys).contains(RegenerationStep::RegenerateConstants) <==> keys.constants,
        regeneration_spec(keys).len() == held(keys.reset) + held(keys.matrix) + held(keys.constants),
        forall|i: int, j: int|
            0 <= i < j < regeneration_spec(keys).len() ==> step_rank(
                #[trigger] regeneration_spec(keys)[i],
            ) < step_rank(#[trigger] regeneration_spec(keys)[j]),
{
    let s = regeneration_spec(keys);
    if keys.reset {
        assert(s[0] == RegenerationStep::Reset);
    }
    if keys.matrix {
        assert(s[held(keys.reset)] == RegenerationStep::RegenerateMatrix);
    }
    if keys.constants {
        assert(s[held(keys.reset) + held(keys.matrix)] == RegenerationStep::RegenerateConstants);
    }
}

/// The steps the pressed regeneration keys trigger, in order.
pub fn regeneration_steps(keys: RegenerationKeys) -> (steps: Vec<RegenerationStep>)
    ensures
        steps@ == regeneration_spec(keys),
        steps@.contains(RegenerationStep::Reset) <==> keys.reset,
        steps@.contains(RegenerationStep::RegenerateMatrix) <==> keys.matrix,
        steps@.contains(RegenerationStep::RegenerateConstants) <==> keys.constants,
        steps@.len() == held(keys.reset) + held(keys.matrix) + held(keys.constants),
        forall|i: int, j: int|
            0 <= i < j < steps@.len() ==> step_rank(#[trigger] steps@[i]) < step_rank(
                #[trigger] steps@[j],
            ),
{
    proof {
        lemma_regeneration_per_key(keys);
    }
    let mut steps: Vec<RegenerationStep> = Vec::new();
    if keys.reset {
        steps.push(RegenerationStep::Reset);
    }
    if keys.matrix {
        steps.push(RegenerationStep::RegenerateMatrix);
    }
    if keys.constants {
        steps.push(RegenerationStep::RegenerateConstants);
    }
    assert(steps@ =~= regeneration_spec(keys));
    steps
}

} // verus!
