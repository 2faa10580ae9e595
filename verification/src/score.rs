use vstd::prelude::*;

verus! {

/// Points awarded for each bullet that destroys an enemy.
pub const KILL_AWARD: u32 = 100;

/// The presentation shows the score modulo this number.
pub const SCORE_WRAP: u32 = 10000;

/// The player's score. It grows by `KILL_AWARD` for each kill and falls
/// back to zero when an enemy reaches the player; nothing else writes it.
#[derive(Clone, Copy, Debug, PartialEq, Eq, Structural)]
pub struct Score(pub u32);

/// The five decimal digits, as ASCII, that present a score: the score
/// modulo `SCORE_WRAP`, padded with zeros on the left.
pub open spec fn score_text(points: u32) -> Seq<u8> {
    let shown = points as int % 10000;
    seq![
        48u8,
        (48 + shown / 1000) as u8,
        (48 + (shown / 100) % 10) as u8,
        (48 + (shown / 10) % 10) as u8,
        (48 + shown % 10) as u8,
    ]
}

impl Score {
    /// A score of zero.
    pub fn new() -> (score: Score)
        ensures
            score.0 == 0,
    {
        Score(0)
    }

    /// The current number of points.
    pub fn value(&self) -> (points: u32)
        ensures
            points == self.0,
    {
        self.0
    }

    /// Adds the award for one kill.
    pub fn award(&mut self)
        requires
            old(self).0 + KILL_AWARD <= u32::MAX,
        ensures
            final(self).0 == old(self).0 + KILL_AWARD,
    {
        self.0 = self.0 + KILL_AWARD;
    }

    /// Puts the score back to zero.
    pub fn reset(&mut self)
        ensures
            final(self).0 == 0,
    {
        self.0 = 0;
    }
}

impl Default for Score {
    fn default() -> (score: Score)
        ensures
            score.0 == 0,
    {
        Score(0)
    }
}

/// The score system of the presentation frame: the text to display, five
/// ASCII digits.
pub fn update_score(score: &Score) -> (text: Vec<u8>)
    ensures
        text@ == score_text(score.0),
{
    let shown: u32 = score.0 % SCORE_WRAP;
    let mut text: Vec<u8> = Vec::new();
    text.push(48u8);
    text.push((48 + shown / 1000) as u8);
    text.push((48 + (shown / 100) % 10) as u8);
    text.push((48 + (shown / 10) % 10) as u8);
    text.push((48 + shown % 10) as u8);
    assert(text@ =~= score_text(score.0));
    text
}

} // verus!
