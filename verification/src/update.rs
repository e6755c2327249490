//! The update command: turns what the release updater reported into the
//! message shown to the user. The updater itself runs outside the library
//! and hands its outcome in as an event.

use vstd::prelude::*;

verus! {

/// What an attempted release update ended as, as the updater reports it.
#[derive(Debug)]
pub enum UpdateStatus {
    /// Already on the newest release; the payload names that version.
    UpToDate(String),
    /// The binary was updated; the payload names the new version.
    Updated(String),
}

/// The event one invocation of the updater produced.
#[derive(Debug)]
pub enum UpdateEvent {
    /// The available releases were listed, or listing failed with a message.
    Listed(Result<String, String>),
    /// An update to a release was attempted.
    Upgraded(Result<UpdateStatus, String>),
}

/// The update command.
#[derive(Debug)]
pub struct Update {
    /// List all available versions instead of updating.
    pub list: bool,
    /// Suppress output to the terminal.
    pub quiet: bool,
    /// Update to this version instead of the newest.
    pub version: Option<String>,
}

impl Update {
    /// The message answering one updater event: a listing is shown as is, a
    /// listing failure is framed, a quiet update says nothing, and otherwise
    /// the update's end is spelled out. The event must match what the
    /// command asked for: a listing exactly when `list` is set.
    pub fn parse(self, event: UpdateEvent) -> (r: String)
        requires
            self.list <==> event matches UpdateEvent::Listed(_),
        ensures
            match event {
                UpdateEvent::Listed(res) => match res {
                    Ok(output) => r@ == output@,
                    Err(error) => r@ == "Failed to list the available versions of snarkOS-lite\n"@
                        + error@ + "\n"@,
                },
                UpdateEvent::Upgraded(res) => if self.quiet {
                    r@ == Seq::<char>::empty()
                } else {
                    match res {
                        Ok(UpdateStatus::UpToDate(_)) => r@
                            == "\nsnarkOS-lite is already on the latest version"@,
                        Ok(UpdateStatus::Updated(version)) => r@
                            == "\nsnarkOS-lite has updated to version "@ + version@,
                        Err(error) => r@
                            == "\nFailed to update snarkOS-lite to the latest version\n"@ + error@
                            + "\n"@,
                    }
                },
            },
    {
        match event {
            UpdateEvent::Listed(res) => match res {
                Ok(output) => output,
                Err(error) => {
                    let mut r = "Failed to list the available versions of snarkOS-lite\n"
                        .to_owned();
                    r.append(error.as_str());
                    r.append("\n");
                    r
                },
            },
            UpdateEvent::Upgraded(res) => {
                if self.quiet {
                    String::new()
                } else {
                    match res {
                        Ok(UpdateStatus::UpToDate(_)) => {
                            "\nsnarkOS-lite is already on the latest version".to_owned()
                        },
                        Ok(UpdateStatus::Updated(version)) => {
                            let mut r = "\nsnarkOS-lite has updated to version ".to_owned();
                            r.append(version.as_str());
                            r
                        },
                        Err(error) => {
                            let mut r = "\nFailed to update snarkOS-lite to the latest version\n"
                                .to_owned();
                            r.append(error.as_str());
                            r.append("\n");
                            r
                        },
                    }
                }
            },
        }
    }
}

} // verus!
