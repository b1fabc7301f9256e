use vstd::prelude::*;
pub use crate::config::Score;
use crate::score_plug::{decimal_digits, decimal_string};

verus! {

/// The score panel: the score, the label that shows it, and whether the
/// panel is placed at an absolute position on the screen rather than in the
/// layout flow.
pub struct ScorePanel {
    pub score: Score,
    pub label: String,
    pub absolute: bool,
}

/// The label of the score panel for `score`: "得分: " and the score in decimal.
pub open spec fn score_label(score: nat) -> Seq<char> {
    "得分: "@ + decimal_digits(score)
}

/// The score panel at the start of a game: no point, its label, placed at an
/// absolute position.
pub fn setup() -> (panel: ScorePanel)
    ensures
        panel.score.0 == 0,
        panel.label@ == score_label(0),
        panel.absolute,
{
    let mut label = String::from_str("得分: ");
    let digits = decimal_string(0);
    label.append(digits.as_str());
    ScorePanel { score: Score(0), label, absolute: true }
}

}
