use vstd::prelude::*;

verus! {

/// What the player can ask the cannon to do.
#[derive(Clone, Copy, Debug, PartialEq, Eq, Hash, Structural)]
pub enum PlayerAction {
    MoveLeft,
    MoveRight,
    Fire,
}

/// Which of the player's actions are pressed in a frame.
#[derive(Clone, Copy, Debug, PartialEq, Eq, Structural)]
pub struct PlayerActions {
    pub move_left: bool,
    pub move_right: bool,
    pub fire: bool,
}

impl PlayerActions {
    /// Whether `action` is pressed.
    pub open spec fn spec_pressed(&self, action: PlayerAction) -> bool {
        match action {
            PlayerAction::MoveLeft => self.move_left,
            PlayerAction::MoveRight => self.move_right,
            PlayerAction::Fire => self.fire,
        }
    }

    /// Whether `action` is pressed.
    #[verifier::when_used_as_spec(spec_pressed)]
    pub fn pressed(&self, action: PlayerAction) -> (b: bool)
        ensures
            b == self.spec_pressed(action),
    {
        match action {
            PlayerAction::MoveLeft => self.move_left,
            PlayerAction::MoveRight => self.move_right,
            PlayerAction::Fire => self.fire,
        }
    }
}

/// Touch input on a phone: every action is released, and any touch fires;
/// the cannon does not move on a phone.
pub fn mobile_touch_input_system(touch_count: usize) -> (actions: PlayerActions)
    ensures
        !actions.move_left,
        !actions.move_right,
        actions.fire == (touch_count > 0),
{
    let mut actions = PlayerActions { move_left: false, move_right: false, fire: false };
    let mut i: usize = 0;
    while i < touch_count
        invariant
            i <= touch_count,
            !actions.move_left,
            !actions.move_right,
            actions.fire == (i > 0),
        decreases touch_count - i,
    {
        actions.fire = true;
        i = i + 1;
    }
    actions
}

}
