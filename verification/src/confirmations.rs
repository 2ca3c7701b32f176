//! Confirmation of destructive actions: the action waiting for an answer,
//! and the "don't warn again" choice for deleting folders.

use vstd::prelude::*;

use crate::model::ConfirmationAction;

verus! {

/// The confirmation dialog's state.
#[derive(Debug)]
pub struct ConfirmationState {
    /// The action waiting to be confirmed.
    pub pending: Option<ConfirmationAction>,
    /// Folder deletions no longer ask.
    pub folder_delete_warning_suppressed: bool,
    /// The "don't warn again" box is ticked in the open dialog.
    pub folder_delete_skip_warning_checked: bool,
}

/// Whether `action` deletes a folder.
pub open spec fn deletes_folder(action: ConfirmationAction) -> bool {
    action is DeleteFolder
}

impl ConfirmationState {
    /// No action waiting and folder deletions asking.
    pub fn new() -> (state: Self)
        ensures
            state.pending.is_none(),
            !state.folder_delete_warning_suppressed,
            !state.folder_delete_skip_warning_checked,
    {
        ConfirmationState { pending: None, folder_delete_warning_suppressed: false, folder_delete_skip_warning_checked: false }
    }

    /// Asks to confirm `action`. A folder deletion runs at once, returned,
    /// when its warning is suppressed; otherwise the action waits (replacing
    /// any other) and, for a folder deletion, the box starts unticked.
    pub fn request(&mut self, action: ConfirmationAction) -> (run_now: Option<ConfirmationAction>)
        ensures
            deletes_folder(action) && old(self).folder_delete_warning_suppressed ==> {
                &&& run_now == Some(action)
                &&& final(self).pending == old(self).pending
                &&& final(self).folder_delete_skip_warning_checked == old(self).folder_delete_skip_warning_checked
            },
            !(deletes_folder(action) && old(self).folder_delete_warning_suppressed) ==> {
                &&& run_now.is_none()
                &&& final(self).pending == Some(action)
                &&& final(self).folder_delete_skip_warning_checked == (if deletes_folder(action) {
                    false
                } else {
                    old(self).folder_delete_skip_warning_checked
                })
            },
            final(self).folder_delete_warning_suppressed == old(self).folder_delete_warning_suppressed,
    {
        let is_folder_delete = matches!(action, ConfirmationAction::DeleteFolder(_));
        if is_folder_delete {
            if self.folder_delete_warning_suppressed {
                return Some(action);
            }
            self.folder_delete_skip_warning_checked = false;
        }
        self.pending = Some(action);
        None
    }

    /// Dismisses the dialog without running anything.
    pub fn cancel(&mut self)
        ensures
            final(self).pending.is_none(),
            !final(self).folder_delete_skip_warning_checked,
            final(self).folder_delete_warning_suppressed == old(self).folder_delete_warning_suppressed,
    {
        self.pending = None;
        self.folder_delete_skip_warning_checked = false;
    }

    /// Ticks or unticks the "don't warn again" box.
    pub fn set_skip_warning(&mut self, checked: bool)
        ensures
            final(self).folder_delete_skip_warning_checked == checked,
            final(self).pending == old(self).pending,
            final(self).folder_delete_warning_suppressed == old(self).folder_delete_warning_suppressed,
    {
        self.folder_delete_skip_warning_checked = checked;
    }

    /// Confirms: returns the action waiting, if any, to be run. Confirming a
    /// folder deletion with the box ticked stops later ones from asking.
    pub fn confirm(&mut self) -> (run: Option<ConfirmationAction>)
        ensures
            run == old(self).pending,
            final(self).pending.is_none(),
            old(self).pending.is_some() ==> !final(self).folder_delete_skip_warning_checked,
            old(self).pending.is_none() ==> final(self).folder_delete_skip_warning_checked
                == old(self).folder_delete_skip_warning_checked,
            final(self).folder_delete_warning_suppressed == (old(self).folder_delete_warning_suppressed || (old(
                self,
            ).pending matches Some(action) && deletes_folder(action) && old(self).folder_delete_skip_warning_checked)),
    {
        let action = match self.pending.take() {
            None => return None,
            Some(action) => action,
        };
        if matches!(action, ConfirmationAction::DeleteFolder(_)) && self.folder_delete_skip_warning_checked {
            self.folder_delete_warning_suppressed = true;
        }
        self.folder_delete_skip_warning_checked = false;
        Some(action)
    }
}

} // verus!
