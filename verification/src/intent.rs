//! The intent state machine: raw press/release events on one control pair
//! (an up key and a down key) are reduced to a single directional intent.
//!
//! The four states track exactly which of the two keys are currently held,
//! so releasing one of two simultaneously held keys falls back to the
//! direction of the key that is still held.

use vstd::prelude::*;

verus! {

/// Resolved directional command for one paddle.
#[derive(Clone, Copy, Debug, PartialEq, Eq, Structural)]
pub enum PlayerDir {
    Up,
    Down,
    Neutral,
    /// Both keys are held: behaves like neutral, but remembers the hold so
    /// that releasing one key resumes motion in the other direction.
    Both,
}

/// One raw event on a control pair.
#[derive(Clone, Copy, Debug, PartialEq, Eq, Structural)]
pub enum PairEvent {
    PressUp,
    PressDown,
    ReleaseUp,
    ReleaseDown,
}

impl PlayerDir {
    pub open spec fn spec_press_up(self) -> PlayerDir {
        match self {
            PlayerDir::Up | PlayerDir::Neutral => PlayerDir::Up,
            PlayerDir::Down | PlayerDir::Both => PlayerDir::Both,
        }
    }

    pub open spec fn spec_press_down(self) -> PlayerDir {
        match self {
            PlayerDir::Down | PlayerDir::Neutral => PlayerDir::Down,
            PlayerDir::Up | PlayerDir::Both => PlayerDir::Both,
        }
    }

    pub open spec fn spec_release_up(self) -> PlayerDir {
        match self {
            PlayerDir::Up | PlayerDir::Neutral => PlayerDir::Neutral,
            PlayerDir::Down | PlayerDir::Both => PlayerDir::Down,
        }
    }

    pub open spec fn spec_release_down(self) -> PlayerDir {
        match self {
            PlayerDir::Down | PlayerDir::Neutral => PlayerDir::Neutral,
            PlayerDir::Up | PlayerDir::Both => PlayerDir::Up,
        }
    }

    pub fn press_up(self) -> (r: PlayerDir)
        ensures
            r == self.spec_press_up(),
    {
        match self {
            PlayerDir::Up | PlayerDir::Neutral => PlayerDir::Up,
            PlayerDir::Down | PlayerDir::Both => PlayerDir::Both,
        }
    }

    pub fn press_down(self) -> (r: PlayerDir)
        ensures
            r == self.spec_press_down(),
    {
        match self {
            PlayerDir::Down | PlayerDir::Neutral => PlayerDir::Down,
            PlayerDir::Up | PlayerDir::Both => PlayerDir::Both,
        }
    }

    pub fn release_up(self) -> (r: PlayerDir)
        ensures
            r == self.spec_release_up(),
    {
        match self {
            PlayerDir::Up | PlayerDir::Neutral => PlayerDir::Neutral,
            PlayerDir::Down | PlayerDir::Both => PlayerDir::Down,
        }
    }

    pub fn release_down(self) -> (r: PlayerDir)
        ensures
            r == self.spec_release_down(),
    {
        match self {
            PlayerDir::Down | PlayerDir::Neutral => PlayerDir::Neutral,
            PlayerDir::Up | PlayerDir::Both => PlayerDir::Up,
        }
    }
}

/// One transition of the intent state machine.
pub open spec fn step_dir(d: PlayerDir, e: PairEvent) -> PlayerDir {
    match e {
        PairEvent::PressUp => d.spec_press_up(),
        PairEvent::PressDown => d.spec_press_down(),
        PairEvent::ReleaseUp => d.spec_release_up(),
        PairEvent::ReleaseDown => d.spec_release_down(),
    }
}

/// The intent after a whole sequence of events, starting from `d`.
pub open spec fn run_dir(d: PlayerDir, evs: Seq<PairEvent>) -> PlayerDir
    decreases evs.len(),
{
    if evs.len() == 0 {
        d
    } else {
        run_dir(step_dir(d, evs[0]), evs.skip(1))
    }
}

/// Whether the up key is held after `evs`, given that it was held iff `u` before.
pub open spec fn up_held_after(u: bool, evs: Seq<PairEvent>) -> bool
    decreases evs.len(),
{
    if evs.len() == 0 {
        u
    } else {
        up_held_after(
            match evs[0] {
                PairEvent::PressUp => true,
                PairEvent::ReleaseUp => false,
                _ => u,
            },
            evs.skip(1),
        )
    }
}

/// Whether the down key is held after `evs`, given that it was held iff `d` before.
pub open spec fn down_held_after(d: bool, evs: Seq<PairEvent>) -> bool
    decreases evs.len(),
{
    if evs.len() == 0 {
        d
    } else {
        down_held_after(
            match evs[0] {
                PairEvent::PressDown => true,
                PairEvent::ReleaseDown => false,
                _ => d,
            },
            evs.skip(1),
        )
    }
}

/// The intent that corresponds to a given set of held keys.
pub open spec fn dir_of_held(up: bool, down: bool) -> PlayerDir {
    if up && down {
        PlayerDir::Both
    } else if up {
        PlayerDir::Up
    } else if down {
        PlayerDir::Down
    } else {
        PlayerDir::Neutral
    }
}

/// The intent after any sequence of events is fully determined by which keys
/// are held at the end: the machine's state is exactly the held-key set.
pub proof fn lemma_intent_tracks_held_keys(up: bool, down: bool, evs: Seq<PairEvent>)
    ensures
        run_dir(dir_of_held(up, down), evs) == dir_of_held(
            up_held_after(up, evs),
            down_held_after(down, evs),
        ),
    decreases evs.len(),
{
    if evs.len() > 0 {
        let up1 = match evs[0] {
            PairEvent::PressUp => true,
            PairEvent::ReleaseUp => false,
            _ => up,
        };
        let down1 = match evs[0] {
            PairEvent::PressDown => true,
            PairEvent::ReleaseDown => false,
            _ => down,
        };
        assert(step_dir(dir_of_held(up, down), evs[0]) == dir_of_held(up1, down1));
        lemma_intent_tracks_held_keys(up1, down1, evs.skip(1));
    }
}

/// Order invariance: two event sequences that leave the same keys held
/// produce the same intent, starting from no key held.
pub proof fn lemma_intent_order_invariant(evs1: Seq<PairEvent>, evs2: Seq<PairEvent>)
    requires
        up_held_after(false, evs1) == up_held_after(false, evs2),
        down_held_after(false, evs1) == down_held_after(false, evs2),
    ensures
        run_dir(PlayerDir::Neutral, evs1) == run_dir(PlayerDir::Neutral, evs2),
{
    lemma_intent_tracks_held_keys(false, false, evs1);
    lemma_intent_tracks_held_keys(false, false, evs2);
}

} // verus!
