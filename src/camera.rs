use vstd::prelude::*;

verus! {

/// One of the camera's three basis vectors.
#[derive(Clone, Copy, Debug, PartialEq, Eq, Structural)]
pub enum BasisVector {
    Front,
    Right,
    Up,
}

/// A movement step: along which basis vector the camera moves, and whether
/// with it (`positive`) or against it.
#[derive(Clone, Copy, Debug, PartialEq, Eq, Structural)]
pub struct MoveStep {
    pub along: BasisVector,
    pub positive: bool,
}

/// The step that a direction token of the keyboard stands for; any other token
/// stands for none.
pub open spec fn step_of(direction: Seq<char>) -> Option<MoveStep> {
    if direction == "FORWARD"@ {
        Some(MoveStep { along: BasisVector::Front, positive: true })
    } else if direction == "BACKWARD"@ {
        Some(MoveStep { along: BasisVector::Front, positive: false })
    } else if direction == "LEFT"@ {
        Some(MoveStep { along: BasisVector::Right, positive: false })
    } else if direction == "RIGHT"@ {
        Some(MoveStep { along: BasisVector::Right, positive: true })
    } else if direction == "UP"@ {
        Some(MoveStep { along: BasisVector::Up, positive: true })
    } else if direction == "DOWN"@ {
        Some(MoveStep { along: BasisVector::Up, positive: false })
    } else {
        None
    }
}

/// Decides how a keyboard direction moves the camera: the camera's position
/// changes by `±speed * delta_time` times the returned basis vector, or not at
/// all for `None`.
pub fn process_keyboard(direction: &str) -> (r: Option<MoveStep>)
    ensures
        r == step_of(direction@),
{
    let d = direction.to_owned();
    if d == "FORWARD".to_owned() {
        Some(MoveStep { along: BasisVector::Front, positive: true })
    } else if d == "BACKWARD".to_owned() {
        Some(MoveStep { along: BasisVector::Front, positive: false })
    } else if d == "LEFT".to_owned() {
        Some(MoveStep { along: BasisVector::Right, positive: false })
    } else if d == "RIGHT".to_owned() {
        Some(MoveStep { along: BasisVector::Right, positive: true })
    } else if d == "UP".to_owned() {
        Some(MoveStep { along: BasisVector::Up, positive: true })
    } else if d == "DOWN".to_owned() {
        Some(MoveStep { along: BasisVector::Up, positive: false })
    } else {
        None
    }
}

} // verus!
