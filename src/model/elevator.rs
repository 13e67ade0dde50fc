use vstd::prelude::*;

verus! {

/// What an elevator is, mathematically: where the cab is, how deep it may go,
/// and where it has been called to. Depth zero is ground level.
pub struct ElevatorView {
    pub depth: int,
    pub max_depth: int,
    pub target_depth: int,
}

impl ElevatorView {
    /// The cab and its target both stay within `[0, max_depth]`.
    pub open spec fn wf(self) -> bool {
        &&& 0 <= self.depth <= self.max_depth
        &&& 0 <= self.target_depth <= self.max_depth
        &&& self.max_depth <= i32::MAX
    }

    pub open spec fn distance(self) -> int {
        if self.depth <= self.target_depth {
            self.target_depth - self.depth
        } else {
            self.depth - self.target_depth
        }
    }

    /// `t` clamped into `[0, max_depth]`.
    pub open spec fn clamp_target(self, t: int) -> int {
        if t < 0 {
            0
        } else if t > self.max_depth {
            self.max_depth
        } else {
            t
        }
    }

    pub open spec fn with_target(self, t: int) -> ElevatorView {
        ElevatorView { target_depth: self.clamp_target(t), ..self }
    }

    /// One elevator tick: a single unit towards the target, or nothing at the target.
    pub open spec fn advanced(self) -> ElevatorView {
        if self.target_depth < self.depth {
            ElevatorView { depth: self.depth - 1, ..self }
        } else if self.target_depth > self.depth {
            ElevatorView { depth: self.depth + 1, ..self }
        } else {
            self
        }
    }

    /// `n` elevator ticks in a row.
    pub open spec fn advanced_by(self, n: nat) -> ElevatorView
        decreases n,
    {
        if n == 0 {
            self
        } else {
            self.advanced().advanced_by((n - 1) as nat)
        }
    }
}

/// Repeated ticks close the distance to the target by exactly one each, stop
/// there, and never take the cab out of `[0, max_depth]`.
pub proof fn lemma_advance_steps(v: ElevatorView, n: nat)
    requires
        v.wf(),
    ensures
        v.advanced_by(n).wf(),
        v.advanced_by(n).target_depth == v.target_depth,
        v.advanced_by(n).max_depth == v.max_depth,
        n <= v.distance() ==> v.advanced_by(n).distance() == v.distance() - n,
        n >= v.distance() ==> v.advanced_by(n).depth == v.target_depth,
    decreases n,
{
    if n > 0 {
        lemma_advance_steps(v.advanced(), (n - 1) as nat);
    }
}

/// A single-axis cab. Its position changes by at most one unit per tick,
/// always towards the called depth.
pub struct Elevator {
    depth: i32,
    max_depth: i32,
    target_depth: i32,
}

impl View for Elevator {
    type V = ElevatorView;

    closed spec fn view(&self) -> ElevatorView {
        ElevatorView {
            depth: self.depth as int,
            max_depth: self.max_depth as int,
            target_depth: self.target_depth as int,
        }
    }
}

impl Elevator {
    pub open spec fn wf(&self) -> bool {
        self@.wf()
    }

    /// An elevator at ground level, called to ground level.
    pub fn new(max_depth: i32) -> (r: Elevator)
        requires
            max_depth >= 0,
        ensures
            r@ == (ElevatorView { depth: 0, max_depth: max_depth as int, target_depth: 0 }),
            r.wf(),
    {
        Elevator { depth: 0, max_depth, target_depth: 0 }
    }

    pub fn depth(&self) -> (r: i32)
        ensures
            r == self@.depth,
    {
        self.depth
    }

    /// Calls the cab to `target`, clamped into `[0, max_depth]`.
    pub fn set_target_depth(&mut self, target: i32)
        requires
            old(self).wf(),
        ensures
            final(self)@ == old(self)@.with_target(target as int),
            final(self).wf(),
    {
        let below_max = if target < self.max_depth {
            target
        } else {
            self.max_depth
        };
        self.target_depth = if 0 > below_max {
            0
        } else {
            below_max
        };
    }

    /// One tick of travel; returns the new depth.
    pub fn move_towards_target(&mut self) -> (r: i32)
        requires
            old(self).wf(),
        ensures
            final(self)@ == old(self)@.advanced(),
            final(self).wf(),
            r == final(self)@.depth,
            old(self)@.depth != old(self)@.target_depth ==> final(self)@.distance()
                == old(self)@.distance() - 1,
            old(self)@.depth == old(self)@.target_depth ==> final(self)@.depth
                == old(self)@.depth,
    {
        if self.target_depth < self.depth {
            self.depth -= 1;
        } else if self.target_depth > self.depth {
            self.depth += 1;
        }
        self.depth
    }
}

} // verus!
