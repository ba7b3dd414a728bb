use vstd::prelude::*;

verus! {

/// The field of the form that currently receives keyboard input.
///
/// The variants are ordered as they appear on screen, top to bottom.
#[derive(Clone, Copy, Debug, PartialEq, Eq, Structural)]
pub enum Focus {
    Username,
    Password,
    ProgramList,
}

impl Focus {
    /// Position of the target in the focus order, counted from the top.
    pub open spec fn rank(self) -> nat {
        match self {
            Focus::Username => 0,
            Focus::Password => 1,
            Focus::ProgramList => 2,
        }
    }

    /// The target below this one; the last target is its own successor.
    pub open spec fn next(self) -> Focus {
        match self {
            Focus::Username => Focus::Password,
            Focus::Password => Focus::ProgramList,
            Focus::ProgramList => Focus::ProgramList,
        }
    }

    /// The target above this one; the first target is its own predecessor.
    pub open spec fn prev(self) -> Focus {
        match self {
            Focus::Username => Focus::Username,
            Focus::Password => Focus::Username,
            Focus::ProgramList => Focus::Password,
        }
    }
}

/// One step of the focus: down to the next target or up to the one before.
#[derive(Clone, Copy, Debug, PartialEq, Eq, Structural)]
pub enum FocusStep {
    Next,
    Prev,
}

impl Focus {
    /// The target reached by one step.
    pub open spec fn stepped(self, step: FocusStep) -> Focus {
        match step {
            FocusStep::Next => self.next(),
            FocusStep::Prev => self.prev(),
        }
    }

    /// The target reached by the steps of `steps`, taken first to last.
    pub open spec fn walked(self, steps: Seq<FocusStep>) -> Focus
        decreases steps.len(),
    {
        if steps.len() == 0 {
            self
        } else {
            self.walked(steps.drop_last()).stepped(steps.last())
        }
    }
}

/// A rank moved by one step and held inside the focus order.
pub open spec fn rank_stepped(rank: int, step: FocusStep) -> int {
    match step {
        FocusStep::Next => if rank + 1 <= 2 {
            rank + 1
        } else {
            2
        },
        FocusStep::Prev => if rank - 1 >= 0 {
            rank - 1
        } else {
            0
        },
    }
}

/// A step moves the focus by at most one place, in the step's direction, and
/// stops at either end of the order: nothing lies past the last target and
/// nothing before the first, and no step leads from one end to the other.
pub proof fn lemma_focus_step(focus: Focus, step: FocusStep)
    ensures
        focus.stepped(step).rank() == rank_stepped(focus.rank() as int, step),
        focus.next().rank() >= focus.rank(),
        focus.prev().rank() <= focus.rank(),
        focus.next() == focus <==> focus == Focus::ProgramList,
        focus.prev() == focus <==> focus == Focus::Username,
{
}

/// Starting at the username, any run of steps ends on one of the three
/// targets, and each step of the run moved the focus as `lemma_focus_step`
/// says: the rank after the run is the rank before its last step, moved by
/// that step and held inside the order.
pub proof fn lemma_focus_walk_bounded(steps: Seq<FocusStep>)
    ensures
        Focus::Username.walked(steps).rank() <= 2,
        steps.len() > 0 ==> Focus::Username.walked(steps).rank() == rank_stepped(
            Focus::Username.walked(steps.drop_last()).rank() as int,
            steps.last(),
        ),
{
    if steps.len() > 0 {
        lemma_focus_step(Focus::Username.walked(steps.drop_last()), steps.last());
    }
}

impl Default for Focus {
    fn default() -> (r: Focus)
        ensures
            r == Focus::Username,
    {
        Focus::Username
    }
}

} // verus!
