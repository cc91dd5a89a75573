//! Screen manager: a flat, linearly navigable sequence of screens, each a
//! strictly LIFO stack of layers.  Exactly one screen is active at a time;
//! forward and backward paging saturate at the bounds and never wrap.
//!
//! Popping and clearing report whether the screen is left empty: an empty
//! screen is not a valid steady state, so the caller that emptied it must
//! rebuild its main view before the screen is shown again.

use vstd::prelude::*;

verus! {

/// One paging step applied to the active index: forward steps saturate at
/// the last screen, backward steps at the first.
pub open spec fn nav_step(count: nat, idx: nat, forward: bool) -> nat {
    if forward {
        if idx + 1 < count {
            idx + 1
        } else {
            idx
        }
    } else {
        if idx >= 1 {
            (idx - 1) as nat
        } else {
            0
        }
    }
}

/// The active index after a whole sequence of paging steps.
pub open spec fn apply_nav_steps(count: nat, idx: nat, steps: Seq<bool>) -> nat
    decreases steps.len(),
{
    if steps.len() == 0 {
        idx
    } else {
        apply_nav_steps(count, nav_step(count, idx, steps[0]), steps.drop_first())
    }
}

/// Law: paging composed any number of times never moves the active index
/// outside the configured range of screens.
pub proof fn lemma_nav_stays_in_bounds(count: nat, idx: nat, steps: Seq<bool>)
    requires
        0 < count,
        idx < count,
    ensures
        apply_nav_steps(count, idx, steps) < count,
    decreases steps.len(),
{
    if steps.len() > 0 {
        lemma_nav_stays_in_bounds(count, nav_step(count, idx, steps[0]), steps.drop_first());
    }
}

/// One saturating paging step, executably: the move that `next_screen`
/// and `prev_screen` apply to the active index.
pub fn nav_step_exec(count: usize, idx: usize, forward: bool) -> (r: usize)
    requires
        0 < count,
        idx < count,
    ensures
        r == nav_step(count as nat, idx as nat, forward),
        r < count,
{
    if forward {
        if idx + 1 < count {
            idx + 1
        } else {
            idx
        }
    } else {
        if idx >= 1 {
            idx - 1
        } else {
            0
        }
    }
}

/// A stack with its top layer removed; an empty stack stays empty.
pub open spec fn popped<L>(stack: Seq<L>) -> Seq<L> {
    if stack.len() == 0 {
        stack
    } else {
        stack.drop_last()
    }
}

/// The navigation state: a fixed number of screens, each holding a stack
/// of layers, and the index of the one the user currently sees.
pub struct ScreenManager<L> {
    screens: Vec<Vec<L>>,
    active: usize,
}

impl<L> ScreenManager<L> {
    /// The number of sibling screens the manager was configured with.
    pub closed spec fn screen_count(self) -> nat {
        self.screens@.len()
    }

    /// The layer stacks, bottom of each stack first.
    pub closed spec fn stacks(self) -> Seq<Seq<L>> {
        self.screens@.map_values(|v: Vec<L>| v@)
    }

    /// The index of the active screen.
    pub closed spec fn active_index(self) -> nat {
        self.active as nat
    }

    /// Well-formedness: at least one screen exists, the active index
    /// points at one of them, and there is one stack per screen.
    pub open spec fn wf(self) -> bool {
        &&& 0 < self.screen_count()
        &&& self.active_index() < self.screen_count()
        &&& self.stacks().len() == self.screen_count()
    }

    /// Create a manager with `count` empty screens, the first one active.
    pub fn new(count: usize) -> (r: ScreenManager<L>)
        requires
            1 <= count,
        ensures
            r.wf(),
            r.screen_count() == count,
            r.active_index() == 0,
            forall|s: int| 0 <= s < count ==> r.stacks()[s].len() == 0,
    {
        let mut screens: Vec<Vec<L>> = Vec::new();
        let mut i: usize = 0;
        while i < count
            invariant
                i <= count,
                screens@.len() == i,
                forall|s: int| 0 <= s < i ==> #[trigger] screens@[s]@.len() == 0,
            decreases count - i,
        {
            screens.push(Vec::new());
            i = i + 1;
        }
        ScreenManager { screens, active: 0 }
    }

    /// The index of the active screen.
    pub fn active_screen_index(&self) -> (r: usize)
        ensures
            r == self.active_index(),
    {
        self.active
    }

    /// The number of screens.
    pub fn count(&self) -> (r: usize)
        ensures
            r == self.screen_count(),
    {
        self.screens.len()
    }

    /// Make the screen at `index` the active one.
    pub fn set_active_screen(&mut self, index: usize)
        requires
            old(self).wf(),
            index < old(self).screen_count(),
        ensures
            final(self).wf(),
            final(self).screen_count() == old(self).screen_count(),
            final(self).stacks() == old(self).stacks(),
            final(self).active_index() == index,
    {
        self.active = index;
    }

    /// Page forward one screen, saturating at the last one.
    pub fn next_screen(&mut self)
        requires
            old(self).wf(),
        ensures
            final(self).wf(),
            final(self).screen_count() == old(self).screen_count(),
            final(self).stacks() == old(self).stacks(),
            final(self).active_index() == nav_step(
                old(self).screen_count(),
                old(self).active_index(),
                true,
            ),
    {
        if self.active < self.screens.len() - 1 {
            self.active = self.active + 1;
        }
    }

    /// Page backward one screen, saturating at the first one.
    pub fn prev_screen(&mut self)
        requires
            old(self).wf(),
        ensures
            final(self).wf(),
            final(self).screen_count() == old(self).screen_count(),
            final(self).stacks() == old(self).stacks(),
            final(self).active_index() == nav_step(
                old(self).screen_count(),
                old(self).active_index(),
                false,
            ),
    {
        if self.active >= 1 {
            self.active = self.active - 1;
        }
    }

    /// Push a layer on top of the given screen's stack.
    pub fn push_layer(&mut self, screen: usize, layer: L)
        requires
            old(self).wf(),
            screen < old(self).screen_count(),
        ensures
            final(self).wf(),
            final(self).screen_count() == old(self).screen_count(),
            final(self).active_index() == old(self).active_index(),
            final(self).stacks() == old(self).stacks().update(
                screen as int,
                old(self).stacks()[screen as int].push(layer),
            ),
    {
        let mut stack = self.screens.remove(screen);
        stack.push(layer);
        self.screens.insert(screen, stack);
        proof {
            assert(self.stacks() =~= old(self).stacks().update(
                screen as int,
                old(self).stacks()[screen as int].push(layer),
            ));
        }
    }

    /// Pop the top layer of the given screen, if it has one, and report
    /// whether the screen is now empty.  A caller that leaves a screen
    /// empty must rebuild its main view before the screen is shown again.
    pub fn pop_top_layer(&mut self, screen: usize) -> (now_empty: bool)
        requires
            old(self).wf(),
            screen < old(self).screen_count(),
        ensures
            final(self).wf(),
            final(self).screen_count() == old(self).screen_count(),
            final(self).active_index() == old(self).active_index(),
            final(self).stacks() == old(self).stacks().update(
                screen as int,
                popped(old(self).stacks()[screen as int]),
            ),
            now_empty == (final(self).stacks()[screen as int].len() == 0),
    {
        let mut stack = self.screens.remove(screen);
        stack.pop();
        let now_empty = stack.len() == 0;
        self.screens.insert(screen, stack);
        proof {
            assert(self.stacks() =~= old(self).stacks().update(
                screen as int,
                popped(old(self).stacks()[screen as int]),
            ));
        }
        now_empty
    }

    /// Remove every layer of the given screen.  The screen is empty
    /// afterwards, so the caller must rebuild its main view before the
    /// screen is shown again.
    pub fn clear_layers(&mut self, screen: usize)
        requires
            old(self).wf(),
            screen < old(self).screen_count(),
        ensures
            final(self).wf(),
            final(self).screen_count() == old(self).screen_count(),
            final(self).active_index() == old(self).active_index(),
            final(self).stacks() == old(self).stacks().update(screen as int, Seq::<L>::empty()),
    {
        let mut stack = self.screens.remove(screen);
        stack.clear();
        self.screens.insert(screen, stack);
        proof {
            assert(self.stacks() =~= old(self).stacks().update(screen as int, Seq::<L>::empty()));
        }
    }

    /// The number of layers on the given screen.
    pub fn layer_count(&self, screen: usize) -> (r: usize)
        requires
            screen < self.screen_count(),
        ensures
            r == self.stacks()[screen as int].len(),
    {
        self.screens[screen].len()
    }

    /// The top layer of the given screen, if the screen has any layer.
    pub fn top_layer(&self, screen: usize) -> (r: Option<&L>)
        requires
            screen < self.screen_count(),
        ensures
            self.stacks()[screen as int].len() == 0 ==> r is None,
            self.stacks()[screen as int].len() > 0 ==> r == Some(
                &self.stacks()[screen as int].last(),
            ),
    {
        let stack = &self.screens[screen];
        if stack.len() == 0 {
            None
        } else {
            Some(&stack[stack.len() - 1])
        }
    }
}

} // verus!
