//! What the progress dialog and the toolbar show: the state that progress
//! updates build up, and which buttons can be used.
use crate::domain::repository::ProgressUpdate;
use crate::sizes::{transfer_size, transfer_size_text};
use crate::text::{decimal, decimal_text};
use vstd::prelude::*;
use vstd::string::*;

verus! {

broadcast use vstd::string::group_string_axioms;

/// The state of a running operation as the progress dialog shows it.
pub struct ProgressModel {
    pub title: String,
    pub message: String,
    /// Bytes done and to do.
    pub current: u64,
    pub total: u64,
    /// Bytes of the current file done and to do.
    pub file_current: u64,
    pub file_total: u64,
    pub is_complete: bool,
    pub error: Option<String>,
    pub is_paused: bool,
}

/// The message of an update: the current file where it names one, else
/// "D/T items" where it counts items, else nothing.
pub open spec fn update_message(u: ProgressUpdate) -> Seq<char> {
    match u.current_file {
        Some(f) => f@,
        None => if u.items_total > 0 {
            decimal_text(u.items_done as nat) + "/"@ + decimal_text(u.items_total as nat) + " items"@
        } else {
            Seq::empty()
        },
    }
}

impl ProgressModel {
    /// A dialog titled `title` before any update.
    pub fn new(title: String) -> (r: Self)
        ensures
            r.title == title,
            r.message@.len() == 0,
            r.current == 0,
            r.total == 1,
            r.file_current == 0,
            r.file_total == 0,
            !r.is_complete,
            r.error is None,
            !r.is_paused,
    {
        ProgressModel {
            title,
            message: String::new(),
            current: 0,
            total: 1,
            file_current: 0,
            file_total: 0,
            is_complete: false,
            error: None,
            is_paused: false,
        }
    }

    /// Takes in an update: the byte counts and the message (see
    /// `update_message`); an error ends the operation.
    pub fn apply(&mut self, update: ProgressUpdate)
        ensures
            final(self).current == update.bytes_done,
            final(self).total == update.bytes_total,
            final(self).file_current == update.file_current,
            final(self).file_total == update.file_total,
            final(self).message@ == update_message(update),
            update.error is Some ==> final(self).is_complete && final(self).error == update.error,
            update.error is None ==> final(self).is_complete == old(self).is_complete && final(self).error == old(
                self,
            ).error,
            final(self).title == old(self).title,
            final(self).is_paused == old(self).is_paused,
    {
        self.current = update.bytes_done;
        self.total = update.bytes_total;
        self.file_current = update.file_current;
        self.file_total = update.file_total;
        self.message = match update.current_file {
            Some(f) => f,
            None => {
                if update.items_total > 0 {
                    let mut m = decimal(update.items_done);
                    m.append("/");
                    let t = decimal(update.items_total);
                    m.append(t.as_str());
                    m.append(" items");
                    m
                } else {
                    String::new()
                }
            },
        };
        match update.error {
            Some(e) => {
                self.error = Some(e);
                self.is_complete = true;
            },
            None => {},
        }
    }

    /// The updates stopped coming: the operation is over.
    pub fn disconnected(&mut self)
        ensures
            final(self).is_complete,
            final(self).error == old(self).error,
            final(self).message == old(self).message,
            final(self).current == old(self).current,
            final(self).total == old(self).total,
    {
        self.is_complete = true;
    }

    /// Sets the progress directly: it is complete when there is an error or
    /// `current` reached `total`.
    pub fn set_progress(&mut self, message: &str, current: u64, total: u64, err: Option<String>)
        ensures
            final(self).message@ == message@,
            final(self).current == current,
            final(self).total == total,
            final(self).is_complete == (err is Some || current >= total),
            final(self).error == err,
    {
        self.message = String::from_str(message);
        self.current = current;
        self.total = total;
        self.is_complete = err.is_some() || current >= total;
        self.error = err;
    }

    /// The line shown under the title: "Failed" or "Complete" once the
    /// operation is over, else the current message.
    pub fn status_text(&self) -> (r: String)
        ensures
            r@ == (if self.is_complete {
                if self.error is Some {
                    "Failed"@
                } else {
                    "Complete"@
                }
            } else {
                self.message@
            }),
    {
        if self.is_complete {
            if self.error.is_some() {
                String::from_str("Failed")
            } else {
                String::from_str("Complete")
            }
        } else {
            self.message.clone()
        }
    }

    /// The line over the overall bar: "Total: <done> / <to do>".
    pub fn total_line(&self) -> (r: String)
        ensures
            r@ == "Total: "@ + transfer_size_text(self.current as nat) + " / "@ + transfer_size_text(
                self.total as nat,
            ),
    {
        let mut out = String::from_str("Total: ");
        let a = transfer_size(self.current);
        out.append(a.as_str());
        out.append(" / ");
        let b = transfer_size(self.total);
        out.append(b.as_str());
        proof {
            reveal_strlit("Total: ");
            reveal_strlit(" / ");
        }
        out
    }

    /// The line over the bar of the current file, "File: <done> / <to do>",
    /// shown while the operation runs.
    pub fn file_line(&self) -> (r: Option<String>)
        ensures
            self.is_complete ==> r is None,
            !self.is_complete ==> (r matches Some(t) && t@ == "File: "@ + transfer_size_text(
                self.file_current as nat,
            ) + " / "@ + transfer_size_text(self.file_total as nat)),
    {
        if self.is_complete {
            return None;
        }
        let mut out = String::from_str("File: ");
        let a = transfer_size(self.file_current);
        out.append(a.as_str());
        out.append(" / ");
        let b = transfer_size(self.file_total);
        out.append(b.as_str());
        proof {
            reveal_strlit("File: ");
            reveal_strlit(" / ");
        }
        Some(out)
    }

    /// Pauses a running operation or resumes a paused one; gives back
    /// whether it is now paused.
    pub fn toggle_pause(&mut self) -> (r: bool)
        ensures
            r == !old(self).is_paused,
            final(self).is_paused == r,
            final(self).is_complete == old(self).is_complete,
    {
        self.is_paused = !self.is_paused;
        self.is_paused
    }
}

/// The operation shown in the status bar: whether one runs, its message
/// and how far it has come.
pub struct ProgressState {
    pub is_active: bool,
    pub message: String,
    pub current: u64,
    pub total: u64,
}

impl ProgressState {
    /// No operation.
    pub fn new() -> (r: Self)
        ensures
            !r.is_active,
            r.message@.len() == 0,
            r.current == 0,
            r.total == 0,
    {
        ProgressState { is_active: false, message: String::new(), current: 0, total: 0 }
    }

    /// An operation of `total` steps begins.
    pub fn start(&mut self, message: String, total: u64)
        ensures
            final(self).is_active,
            final(self).message == message,
            final(self).current == 0,
            final(self).total == total,
    {
        self.is_active = true;
        self.message = message;
        self.current = 0;
        self.total = total;
    }

    /// The operation has come to step `current`.
    pub fn update(&mut self, current: u64, message: String)
        ensures
            final(self).is_active == old(self).is_active,
            final(self).message == message,
            final(self).current == current,
            final(self).total == old(self).total,
    {
        self.current = current;
        self.message = message;
    }

    /// The operation has ended well.
    pub fn complete(&mut self, message: String)
        ensures
            !final(self).is_active,
            final(self).message == message,
            final(self).current == old(self).current,
            final(self).total == old(self).total,
    {
        self.is_active = false;
        self.message = message;
    }

    /// The operation has failed.
    pub fn error(&mut self, message: String)
        ensures
            !final(self).is_active,
            final(self).message == message,
            final(self).current == old(self).current,
            final(self).total == old(self).total,
    {
        self.is_active = false;
        self.message = message;
    }
}

/// Which toolbar buttons can be used.
pub struct ToolbarState {
    pub is_open: bool,
    pub is_ready: bool,
    pub has_selection: bool,
}

/// The toolbar's buttons that depend on the archive.
#[derive(Debug, Clone, Copy, PartialEq, Eq, Structural)]
pub enum ToolbarButton {
    Add,
    Extract,
    Test,
    Close,
}

impl ToolbarState {
    /// Nothing open.
    pub fn new() -> (r: Self)
        ensures
            !r.is_open,
            !r.is_ready,
            !r.has_selection,
    {
        ToolbarState { is_open: false, is_ready: false, has_selection: false }
    }

    /// Whether `button` can be used: extracting needs a ready listing and a
    /// selection, the others an open archive.
    pub fn enabled(&self, button: ToolbarButton) -> (r: bool)
        ensures
            r == (match button {
                ToolbarButton::Extract => self.is_ready && self.has_selection,
                _ => self.is_open,
            }),
    {
        match button {
            ToolbarButton::Extract => self.is_ready && self.has_selection,
            _ => self.is_open,
        }
    }
}

} // verus!
