use vstd::prelude::*;

verus! {

/// How the window holds the cursor.
#[derive(Clone, Copy, Debug, PartialEq, Eq, Structural)]
pub enum GrabMode {
    /// The cursor moves freely.
    Free,
    /// The cursor is kept inside the window.
    Confined,
    /// The cursor is kept in place.
    Locked,
}

/// The two-state cursor capture: while captured the cursor is hidden and
/// grabbed, and mouse motion steers the camera.
#[derive(Clone, Copy, Debug, PartialEq, Eq, Structural)]
pub struct CursorCapture {
    pub captured: bool,
    pub visible: bool,
    pub grab: GrabMode,
}

impl CursorCapture {
    /// Visibility and grab agree with the capture state.
    pub open spec fn wf(&self) -> bool {
        &&& self.visible == !self.captured
        &&& (self.grab == GrabMode::Free) == !self.captured
    }

    /// The grab modes to request, in order, when the capture key is pressed:
    /// confinement with locking as the fallback when entering capture, and
    /// release when leaving it.
    pub open spec fn attempts_of(&self) -> Seq<GrabMode> {
        if self.captured {
            seq![GrabMode::Free]
        } else {
            seq![GrabMode::Confined, GrabMode::Locked]
        }
    }

    /// The state after a toggle in which the platform granted `granted`
    /// (`None`: every attempt was refused, and nothing changes).
    pub open spec fn after_toggle(&self, granted: Option<GrabMode>) -> CursorCapture {
        match granted {
            Some(mode) => CursorCapture {
                captured: mode != GrabMode::Free,
                visible: mode == GrabMode::Free,
                grab: mode,
            },
            None => *self,
        }
    }

    /// The initial state: the cursor is free and visible.
    pub fn new() -> (r: CursorCapture)
        ensures
            r.wf(),
            !r.captured,
            r.visible,
            r.grab == GrabMode::Free,
    {
        CursorCapture { captured: false, visible: true, grab: GrabMode::Free }
    }

    /// The grab modes to try, in order, for a press of the capture key.
    pub fn grab_attempts(&self) -> (r: Vec<GrabMode>)
        ensures
            r@ == self.attempts_of(),
    {
        if self.captured {
            vec![GrabMode::Free]
        } else {
            vec![GrabMode::Confined, GrabMode::Locked]
        }
    }

    /// Completes a press of the capture key once the platform has answered:
    /// `granted` is the first of the attempts that succeeded, or `None`.
    pub fn toggle(&mut self, granted: Option<GrabMode>)
        requires
            old(self).wf(),
            granted matches Some(m) ==> old(self).attempts_of().contains(m),
        ensures
            final(self).wf(),
            *final(self) == old(self).after_toggle(granted),
            granted is Some ==> final(self).captured == !old(self).captured,
    {
        match granted {
            Some(mode) => {
                let captured = match mode {
                    GrabMode::Free => false,
                    _ => true,
                };
                self.captured = captured;
                self.visible = !captured;
                self.grab = mode;
            },
            None => {},
        }
    }

    /// Whether raw mouse motion is to be handed to the camera controller.
    pub fn forwards_motion(&self) -> (r: bool)
        ensures
            r == self.captured,
    {
        self.captured
    }
}

/// Pressing the capture key twice, with the platform granting a mode each
/// time, restores the cursor's visibility and grab mode. When starting from
/// the captured state this needs the platform to grant the same grab mode as
/// before.
pub proof fn lemma_toggle_twice(s: CursorCapture, first: GrabMode, second: GrabMode)
    requires
        s.wf(),
        s.attempts_of().contains(first),
        s.after_toggle(Some(first)).attempts_of().contains(second),
        s.captured ==> second == s.grab,
    ensures
        s.after_toggle(Some(first)).after_toggle(Some(second)).visible == s.visible,
        s.after_toggle(Some(first)).after_toggle(Some(second)).grab == s.grab,
        s.after_toggle(Some(first)).after_toggle(Some(second)) == s,
{
    let s1 = s.after_toggle(Some(first));
    if s.captured {
        assert(s.attempts_of()[0] == GrabMode::Free);
        assert(first == GrabMode::Free);
    } else {
        assert(s1.attempts_of() =~= seq![GrabMode::Free]);
        assert(second == GrabMode::Free);
    }
}

} // verus!
