//! Screens and the navigation history: a non-empty stack of modes.
use vstd::prelude::*;

verus! {

/// Which screen is active. Each mode owns a disjoint set of widgets and
/// transient messages.
#[derive(Clone, Copy, PartialEq, Eq, Structural, Debug)]
pub enum Mode {
    Main,
    Adding,
    Quitting,
}

/// Navigation history: an insertion-ordered stack of modes. The top is the
/// current mode, the element below it is the "back" target. It is created
/// with exactly one mode and the bottom element is never popped, so the
/// stack is never empty.
pub struct ModeStack {
    modes: Vec<Mode>,
}

/// One stack operation, for stating facts about whole operation sequences.
pub enum StackOp {
    Push(Mode),
    Pop,
}

/// What one operation does to the abstract stack: `Push` appends, `Pop`
/// removes the top unless only the root is left.
pub open spec fn apply_op(s: Seq<Mode>, op: StackOp) -> Seq<Mode> {
    match op {
        StackOp::Push(m) => s.push(m),
        StackOp::Pop => if s.len() <= 1 {
            s
        } else {
            s.drop_last()
        },
    }
}

/// The abstract stack after a whole sequence of operations, applied in order.
pub open spec fn apply_ops(s: Seq<Mode>, ops: Seq<StackOp>) -> Seq<Mode>
    decreases ops.len(),
{
    if ops.len() == 0 {
        s
    } else {
        apply_ops(apply_op(s, ops[0]), ops.drop_first())
    }
}

/// Law: starting from a non-empty stack, every sequence of push and pop
/// operations leaves the stack non-empty at every point; in particular a pop
/// on a one-element stack is a no-op, so the root mode can never be left.
pub proof fn lemma_stack_never_empty(s: Seq<Mode>, ops: Seq<StackOp>)
    requires
        s.len() >= 1,
    ensures
        apply_ops(s, ops).len() >= 1,
    decreases ops.len(),
{
    if ops.len() > 0 {
        lemma_stack_never_empty(apply_op(s, ops[0]), ops.drop_first());
    }
}

impl View for ModeStack {
    type V = Seq<Mode>;

    closed spec fn view(&self) -> Seq<Mode> {
        self.modes@
    }
}

impl ModeStack {
    /// The stack holds at least its root mode.
    pub open spec fn wf(&self) -> bool {
        self@.len() >= 1
    }

    /// A fresh stack holding exactly the given root mode.
    pub fn new(root: Mode) -> (s: Self)
        ensures
            s@ == seq![root],
            s.wf(),
    {
        let mut modes: Vec<Mode> = Vec::new();
        modes.push(root);
        let s = ModeStack { modes };
        proof {
            assert(s@ =~= seq![root]);
        }
        s
    }

    /// Appends a mode on top of the stack.
    pub fn push(&mut self, m: Mode)
        ensures
            final(self)@ == apply_op(old(self)@, StackOp::Push(m)),
            final(self)@ == old(self)@.push(m),
            old(self).wf() ==> final(self).wf(),
    {
        self.modes.push(m);
    }

    /// Removes the top mode, unless only the root is left: then the stack is
    /// unchanged.
    pub fn pop(&mut self)
        ensures
            final(self)@ == apply_op(old(self)@, StackOp::Pop),
            old(self)@.len() <= 1 ==> final(self)@ == old(self)@,
            old(self)@.len() > 1 ==> final(self)@ == old(self)@.drop_last(),
            old(self).wf() ==> final(self).wf(),
    {
        if self.modes.len() > 1 {
            self.modes.pop();
            proof {
                assert(self@ =~= old(self)@.drop_last());
            }
        }
    }

    /// The current (top) mode.
    pub fn current(&self) -> (m: Mode)
        requires
            self.wf(),
        ensures
            m == self@.last(),
    {
        self.modes[self.modes.len() - 1]
    }

    /// The top mode, or `None` on an (ill-formed) empty stack.
    pub fn current_opt(&self) -> (m: Option<Mode>)
        ensures
            self@.len() == 0 ==> m is None,
            self@.len() > 0 ==> m == Some(self@.last()),
    {
        if self.modes.len() == 0 {
            None
        } else {
            Some(self.modes[self.modes.len() - 1])
        }
    }

    /// The "back" target: the mode below the top, or `None` if only the root
    /// is on the stack.
    pub fn previous(&self) -> (m: Option<Mode>)
        ensures
            self@.len() <= 1 ==> m is None,
            self@.len() > 1 ==> m == Some(self@[self@.len() - 2]),
    {
        if self.modes.len() > 1 {
            Some(self.modes[self.modes.len() - 2])
        } else {
            None
        }
    }

    /// How many modes are on the stack.
    pub fn len(&self) -> (n: usize)
        ensures
            n == self@.len(),
    {
        self.modes.len()
    }
}

} // verus!
