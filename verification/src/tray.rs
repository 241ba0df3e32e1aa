//! The tray icon's menu and what a tick of its event loop decides.

use vstd::prelude::*;

verus! {

/// What the event loop does after a tick.
#[derive(Clone, Copy, Debug, PartialEq, Eq, Structural)]
pub enum ControlFlow {
    /// Go on: look for events again.
    Poll,
    /// End the loop, and the program with it.
    Exit,
}

/// The tray's side of the program: it knows the menu's one entry, "Quit", by
/// the identity that the entry got when the menu was built.
#[derive(Clone, Copy, Debug, PartialEq, Eq, Structural)]
pub struct TrayController {
    pub quit_id: u32,
}

/// The text shown when the pointer rests on the tray icon.
pub fn tooltip() -> (text: &'static str)
    ensures
        text@ == "Clean Up"@,
{
    "Clean Up"
}

/// The label of the menu's one entry.
pub fn quit_label() -> (text: &'static str)
    ensures
        text@ == "Quit"@,
{
    "Quit"
}

impl TrayController {
    /// What one tick decides. `selected` is the identity of the menu entry
    /// that was selected since the last tick, if one was.
    pub open spec fn flow_after(self, selected: Option<u32>) -> ControlFlow {
        if selected == Some(self.quit_id) {
            ControlFlow::Exit
        } else {
            ControlFlow::Poll
        }
    }

    /// Where the loop stands after a run of ticks, one selection or none for
    /// each: it has ended as soon as one tick decided to exit, and stays
    /// ended.
    pub open spec fn flow_through(self, ticks: Seq<Option<u32>>) -> ControlFlow
        decreases ticks.len(),
    {
        if ticks.len() == 0 {
            ControlFlow::Poll
        } else {
            match self.flow_through(ticks.drop_last()) {
                ControlFlow::Exit => ControlFlow::Exit,
                ControlFlow::Poll => self.flow_after(ticks.last()),
            }
        }
    }

    /// The controller for a menu whose "Quit" entry has this identity.
    pub fn new(quit_id: u32) -> (controller: TrayController)
        ensures
            controller.quit_id == quit_id,
    {
        TrayController { quit_id }
    }

    /// Decides one tick of the event loop: the loop ends if the "Quit" entry
    /// was selected, and goes on otherwise.
    pub fn on_tick(&self, selected: Option<u32>) -> (flow: ControlFlow)
        ensures
            flow == self.flow_after(selected),
    {
        match selected {
            Some(id) => if id == self.quit_id {
                ControlFlow::Exit
            } else {
                ControlFlow::Poll
            },
            None => ControlFlow::Poll,
        }
    }

    /// The loop has ended by the end of the tick in which "Quit" was
    /// selected, and it stays ended whatever comes after.
    pub proof fn lemma_quit_ends_loop(self, ticks: Seq<Option<u32>>, at: int)
        requires
            0 <= at < ticks.len(),
            ticks[at] == Some(self.quit_id),
        ensures
            self.flow_through(ticks.take(at + 1)) == ControlFlow::Exit,
            self.flow_through(ticks) == ControlFlow::Exit,
        decreases ticks.len(),
    {
        if at == ticks.len() - 1 {
            assert(ticks.take(at + 1) =~= ticks);
        } else {
            let init = ticks.drop_last();
            self.lemma_quit_ends_loop(init, at);
            assert(init.take(at + 1) =~= ticks.take(at + 1));
        }
    }

    /// As long as "Quit" is not selected the loop goes on, however many
    /// ticks pass.
    pub proof fn lemma_loop_goes_on(self, ticks: Seq<Option<u32>>)
        requires
            forall|i: int| 0 <= i < ticks.len() ==> ticks[i] != Some(self.quit_id),
        ensures
            self.flow_through(ticks) == ControlFlow::Poll,
        decreases ticks.len(),
    {
        if ticks.len() > 0 {
            let init = ticks.drop_last();
            assert(forall|i: int| 0 <= i < init.len() ==> init[i] == ticks[i]);
            self.lemma_loop_goes_on(init);
        }
    }
}

} // verus!
