//! The client's run: the sequence of jobs from gathering input to the end
//! of a run, which request each job sends, and what the large button of the
//! control panel does.

use crate::command::Command;
use crate::error::{ClientError, ClientErrorView};
use vstd::prelude::*;

verus! {

/// The job that the client is doing.
#[derive(Clone, Copy, Debug, PartialEq, Eq, Structural)]
pub enum ClientStatus {
    GatheringData,
    SendingPing,
    ReceivingPing,
    RequestingStaticStatus,
    ReceivingStaticStatus,
    RequestingStart,
    ReceivingStatus,
    RequestingStop,
    Finished,
}

/// The position of a job in the run, from 0 to 8.
pub open spec fn status_code(status: ClientStatus) -> u8 {
    match status {
        ClientStatus::GatheringData => 0,
        ClientStatus::SendingPing => 1,
        ClientStatus::ReceivingPing => 2,
        ClientStatus::RequestingStaticStatus => 3,
        ClientStatus::ReceivingStaticStatus => 4,
        ClientStatus::RequestingStart => 5,
        ClientStatus::ReceivingStatus => 6,
        ClientStatus::RequestingStop => 7,
        ClientStatus::Finished => 8,
    }
}

/// The job after `status`; the last job is followed by itself.
pub open spec fn next_status(status: ClientStatus) -> ClientStatus {
    match status {
        ClientStatus::GatheringData => ClientStatus::SendingPing,
        ClientStatus::SendingPing => ClientStatus::ReceivingPing,
        ClientStatus::ReceivingPing => ClientStatus::RequestingStaticStatus,
        ClientStatus::RequestingStaticStatus => ClientStatus::ReceivingStaticStatus,
        ClientStatus::ReceivingStaticStatus => ClientStatus::RequestingStart,
        ClientStatus::RequestingStart => ClientStatus::ReceivingStatus,
        ClientStatus::ReceivingStatus => ClientStatus::RequestingStop,
        ClientStatus::RequestingStop => ClientStatus::Finished,
        ClientStatus::Finished => ClientStatus::Finished,
    }
}

/// The text shown for a job.
pub open spec fn status_text(status: ClientStatus) -> Seq<char> {
    match status {
        ClientStatus::GatheringData => "Gathering user input"@,
        ClientStatus::SendingPing => "Pinging (send)"@,
        ClientStatus::ReceivingPing => "Pinging (receive)"@,
        ClientStatus::RequestingStaticStatus => "Getting car information (send)"@,
        ClientStatus::ReceivingStaticStatus => "Getting car information (receive)"@,
        ClientStatus::RequestingStart => "Starting the car (send)"@,
        ClientStatus::ReceivingStatus => "Getting information about the car"@,
        ClientStatus::RequestingStop => "Stopping the car (send)"@,
        ClientStatus::Finished => "Finished"@,
    }
}

impl ClientStatus {
    /// The position of this job in the run.
    pub fn code(self) -> (r: u8)
        ensures
            r == status_code(self),
            r <= 8,
    {
        match self {
            ClientStatus::GatheringData => 0,
            ClientStatus::SendingPing => 1,
            ClientStatus::ReceivingPing => 2,
            ClientStatus::RequestingStaticStatus => 3,
            ClientStatus::ReceivingStaticStatus => 4,
            ClientStatus::RequestingStart => 5,
            ClientStatus::ReceivingStatus => 6,
            ClientStatus::RequestingStop => 7,
            ClientStatus::Finished => 8,
        }
    }

    /// The job at a position; positions above 8 are rejected.
    pub fn try_from(value: u8) -> (r: Result<ClientStatus, ()>)
        ensures
            r.is_ok() <==> value <= 8,
            r matches Ok(status) ==> status_code(status) == value,
    {
        match value {
            0 => Ok(ClientStatus::GatheringData),
            1 => Ok(ClientStatus::SendingPing),
            2 => Ok(ClientStatus::ReceivingPing),
            3 => Ok(ClientStatus::RequestingStaticStatus),
            4 => Ok(ClientStatus::ReceivingStaticStatus),
            5 => Ok(ClientStatus::RequestingStart),
            6 => Ok(ClientStatus::ReceivingStatus),
            7 => Ok(ClientStatus::RequestingStop),
            8 => Ok(ClientStatus::Finished),
            _ => Err(()),
        }
    }

    /// The job after this one. The last job is followed by itself.
    pub fn next(self) -> (r: ClientStatus)
        ensures
            r == next_status(self),
            status_code(r) == if status_code(self) < 8 {
                status_code(self) + 1
            } else {
                8
            },
    {
        match ClientStatus::try_from(self.code() + 1) {
            Ok(status) => status,
            Err(_) => ClientStatus::Finished,
        }
    }

    /// The text shown for this job.
    pub fn to_string(&self) -> (r: String)
        ensures
            r@ == status_text(*self),
    {
        let text = match self {
            ClientStatus::GatheringData => "Gathering user input",
            ClientStatus::SendingPing => "Pinging (send)",
            ClientStatus::ReceivingPing => "Pinging (receive)",
            ClientStatus::RequestingStaticStatus => "Getting car information (send)",
            ClientStatus::ReceivingStaticStatus => "Getting car information (receive)",
            ClientStatus::RequestingStart => "Starting the car (send)",
            ClientStatus::ReceivingStatus => "Getting information about the car",
            ClientStatus::RequestingStop => "Stopping the car (send)",
            ClientStatus::Finished => "Finished",
        };
        String::from_str(text)
    }
}

impl Default for ClientStatus {
    fn default() -> (r: Self)
        ensures
            r == ClientStatus::GatheringData,
    {
        ClientStatus::GatheringData
    }
}

/// What the large button of the control panel offers.
#[derive(Clone, Copy, Debug, PartialEq, Eq, Structural)]
pub enum LargeButton {
    Start,
    Reset,
    Stop,
}

/// The caption of the large button.
pub open spec fn button_text(button: LargeButton) -> Seq<char> {
    match button {
        LargeButton::Start => "START"@,
        LargeButton::Reset => "RESET"@,
        LargeButton::Stop => "STOP"@,
    }
}

impl LargeButton {
    /// The caption of this button.
    pub fn to_string(&self) -> (r: String)
        ensures
            r@ == button_text(*self),
    {
        let text = match self {
            LargeButton::Start => "START",
            LargeButton::Reset => "RESET",
            LargeButton::Stop => "STOP",
        };
        String::from_str(text)
    }
}

/// The request that a job sends when it is stepped, if it sends one.
pub open spec fn job_request(status: ClientStatus) -> Option<Command> {
    match status {
        ClientStatus::SendingPing => Some(Command::Ping),
        ClientStatus::RequestingStaticStatus => Some(Command::StaticStatus),
        ClientStatus::RequestingStart => Some(Command::Start),
        ClientStatus::RequestingStop => Some(Command::Stop),
        _ => None,
    }
}

/// The job after one step. A job that sends a request moves on at once; a
/// job that waits for an answer moves on when the answer is there; the
/// other jobs stay.
pub open spec fn job_after_step(status: ClientStatus, has_ping: bool, has_static_status: bool)
    -> ClientStatus {
    match status {
        ClientStatus::SendingPing | ClientStatus::RequestingStaticStatus
        | ClientStatus::RequestingStart | ClientStatus::RequestingStop => next_status(status),
        ClientStatus::ReceivingPing => if has_ping {
            next_status(status)
        } else {
            status
        },
        ClientStatus::ReceivingStaticStatus => if has_static_status {
            next_status(status)
        } else {
            status
        },
        _ => status,
    }
}

/// The caption that the large button has: `Stop` during a run; outside a
/// run `Start` as long as nothing was received, and `Reset` after that.
pub open spec fn button_for(running: bool, has_ping: bool, has_status: bool) -> LargeButton {
    if running {
        LargeButton::Stop
    } else if !has_ping && !has_status {
        LargeButton::Start
    } else {
        LargeButton::Reset
    }
}

/// Whether a run is under way, and the job it is at.
#[derive(Clone, Copy, Debug, PartialEq, Eq, Structural)]
pub struct RunControl {
    pub running: bool,
    pub current_job: ClientStatus,
}

impl RunControl {
    /// No run, gathering input.
    pub fn new() -> (r: Self)
        ensures
            r == (RunControl { running: false, current_job: ClientStatus::GatheringData }),
    {
        RunControl { running: false, current_job: ClientStatus::GatheringData }
    }

    /// Starts a run. During a run this does nothing. Without a distance
    /// above zero it fails and changes nothing.
    pub fn start(&mut self, distance_is_positive: bool) -> (r: Result<(), ClientError>)
        ensures
            old(self).running ==> r is Ok && *final(self) == *old(self),
            !old(self).running && !distance_is_positive ==> *final(self) == *old(self) && (
            r matches Err(e) && e@ == ClientErrorView::Run(
                "Distance is not over 0 centimeters"@,
            )),
            !old(self).running && distance_is_positive ==> r is Ok && *final(self) == (RunControl {
                running: true,
                current_job: ClientStatus::SendingPing,
            }),
    {
        if self.running {
            return Ok(());
        }
        if !distance_is_positive {
            return Err(ClientError::Run(String::from_str("Distance is not over 0 centimeters")));
        }
        self.running = true;
        self.current_job = ClientStatus::SendingPing;
        Ok(())
    }

    /// Ends the run: the next step asks the vehicle to stop.
    pub fn stop(&mut self)
        ensures
            *final(self) == (RunControl {
                running: false,
                current_job: ClientStatus::RequestingStop,
            }),
    {
        self.running = false;
        self.current_job = ClientStatus::RequestingStop;
    }

    /// Clears the run; the job stays as it is.
    pub fn reset(&mut self)
        ensures
            *final(self) == (RunControl { running: false, ..*old(self) }),
    {
        self.running = false;
    }

    /// One step of the run. Returns the command to request now, if any.
    pub fn step(&mut self, has_ping: bool, has_static_status: bool) -> (r: Option<Command>)
        ensures
            r == job_request(old(self).current_job),
            final(self).running == old(self).running,
            final(self).current_job == job_after_step(
                old(self).current_job,
                has_ping,
                has_static_status,
            ),
    {
        match self.current_job {
            ClientStatus::SendingPing => {
                self.current_job = self.current_job.next();
                Some(Command::Ping)
            },
            ClientStatus::ReceivingPing => {
                if has_ping {
                    self.current_job = self.current_job.next();
                }
                None
            },
            ClientStatus::RequestingStaticStatus => {
                self.current_job = self.current_job.next();
                Some(Command::StaticStatus)
            },
            ClientStatus::ReceivingStaticStatus => {
                if has_static_status {
                    self.current_job = self.current_job.next();
                }
                None
            },
            ClientStatus::RequestingStart => {
                self.current_job = self.current_job.next();
                Some(Command::Start)
            },
            ClientStatus::RequestingStop => {
                self.current_job = self.current_job.next();
                Some(Command::Stop)
            },
            _ => None,
        }
    }

    /// The caption that the large button has now.
    pub fn large_button(&self, has_ping: bool, has_status: bool) -> (r: LargeButton)
        ensures
            r == button_for(self.running, has_ping, has_status),
    {
        if self.running {
            LargeButton::Stop
        } else if !has_ping && !has_status {
            LargeButton::Start
        } else {
            LargeButton::Reset
        }
    }
}

/// Stepping never goes back in the run, and never skips a job.
pub proof fn lemma_step_advances(status: ClientStatus, has_ping: bool, has_static_status: bool)
    ensures
        ({
            let after = job_after_step(status, has_ping, has_static_status);
            status_code(after) == status_code(status) || status_code(after) == status_code(status)
                + 1
        }),
{
}

} // verus!
