use vstd::prelude::*;

verus! {

/// Mathematical state of a guard: the pending action, if an attempt is in
/// progress, and whether the guard condition has been overridden.
#[verifier::ext_equal]
pub struct AttemptView<T> {
    pub action: Option<T>,
    pub overridden: bool,
}

impl<T> AttemptView<T> {
    /// An attempt is in progress exactly while an action is pending.
    pub open spec fn is_attempting(self) -> bool {
        self.action is Some
    }

    /// The guard lets an action run when its condition holds or the guard was
    /// overridden.
    pub open spec fn passes(self, condition: bool) -> bool {
        condition || self.overridden
    }

    /// Transition taken by `allow_if`: the next guard state, and whether the
    /// caller may run the action now. On success the guard resets to default;
    /// on failure the action is stored (a re-entrant attempt overwrites any
    /// earlier pending action: last attempt wins).
    pub open spec fn allow_if_next(self, condition: bool, action: T) -> (AttemptView<T>, bool) {
        if self.passes(condition) {
            (AttemptView { action: None, overridden: false }, true)
        } else {
            (AttemptView { action: Some(action), overridden: self.overridden }, false)
        }
    }
}

/// Attempt Guard law: on a guard with no override, an attempt whose condition
/// fails is blocked and stores its action; a following attempt whose
/// condition holds runs and resets the guard to idle.
pub proof fn lemma_guard_blocks_then_allows<T>(g: AttemptView<T>, a: T, b: T)
    requires
        !g.overridden,
    ensures
        ({
            let (g1, ok1) = g.allow_if_next(false, a);
            let (g2, ok2) = g1.allow_if_next(true, b);
            &&& !ok1
            &&& g1.action == Some(a)
            &&& ok2
            &&& g2.action is None
            &&& !g2.is_attempting()
        }),
{
}

/// Attempt Guard law: once the guard is overridden, the next attempt passes
/// whatever its condition, and the guard resets to idle.
pub proof fn lemma_overridden_attempt_allows<T>(g: AttemptView<T>, condition: bool, b: T)
    requires
        g.overridden,
    ensures
        ({
            let (g2, ok2) = g.allow_if_next(condition, b);
            &&& ok2
            &&& g2.action is None
            &&& !g2.overridden
        }),
{
}

/// 'Attempt' something, such as close a file.
///
/// Takes an enum of possible actions to allow.
///
/// Useful for *"Exit without saving?"* dialogs: when a destructive action is
/// requested while its condition fails, the action is parked here until the
/// user confirms, cancels, or the condition comes true.
pub struct Attempt<T> {
    /// Action to run, if accepted.
    ///
    /// `None` if attempt is not active (no attempt is being made).
    action: Option<T>,
    /// Whether the guard condition has been overridden.
    overridden: bool,
}

impl<T> View for Attempt<T> {
    type V = AttemptView<T>;

    closed spec fn view(&self) -> AttemptView<T> {
        AttemptView { action: self.action, overridden: self.overridden }
    }
}

impl<T> Default for Attempt<T> {
    /// A fresh guard: no attempt in progress, no override.
    fn default() -> (r: Self)
        ensures
            r@.action is None,
            !r@.overridden,
    {
        Attempt { action: None, overridden: false }
    }
}

impl<T> Attempt<T> {
    /// Returns `true` if condition is met or overridden.
    pub fn check_condition(&self, condition: bool) -> (r: bool)
        ensures
            r == self@.passes(condition),
    {
        condition || self.overridden
    }

    /// Returns `true` if an attempt is being made.
    pub fn is_attempting(&self) -> (r: bool)
        ensures
            r == self@.is_attempting(),
    {
        self.action.is_some()
    }

    /// Reference to the pending action to run (enum variant).
    pub fn action(&self) -> (r: &Option<T>)
        ensures
            *r == self@.action,
    {
        &self.action
    }

    /// Override any condition; the next attempt is allowed to run.
    pub fn override_condition(&mut self)
        ensures
            final(self)@.action == old(self)@.action,
            final(self)@.overridden,
    {
        self.overridden = true;
    }

    /// Reset `self` and stop the attempt.
    pub fn reset_attempt(&mut self)
        ensures
            final(self)@.action is None,
            !final(self)@.overridden,
    {
        *self = Self::default();
    }

    /// Sets the pending action, overwriting any earlier one.
    pub fn set_action(&mut self, action: T)
        ensures
            final(self)@.action == Some(action),
            final(self)@.overridden == old(self)@.overridden,
    {
        self.action = Some(action);
    }

    /// Combined attempt: if the condition is met or the guard was overridden,
    /// reset to default and report that the action may run now; otherwise
    /// park the action as pending and report that the caller must wait.
    pub fn allow_if(&mut self, condition: bool, action: T) -> (r: bool)
        ensures
            ({
                let (next, ok) = old(self)@.allow_if_next(condition, action);
                &&& final(self)@ == next
                &&& r == ok
            }),
    {
        if condition || self.overridden {
            self.action = None;
            self.overridden = false;
            true
        } else {
            self.action = Some(action);
            false
        }
    }
}

} // verus!
