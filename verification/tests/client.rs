use car_protocol::client::{ClientStatus, LargeButton, RunControl};
use car_protocol::command::Command;
use car_protocol::error::ClientError;
use car_protocol::menu::MenuOption;

const JOBS: [(ClientStatus, &str); 9] = [
    (ClientStatus::GatheringData, "Gathering user input"),
    (ClientStatus::SendingPing, "Pinging (send)"),
    (ClientStatus::ReceivingPing, "Pinging (receive)"),
    (ClientStatus::RequestingStaticStatus, "Getting car information (send)"),
    (ClientStatus::ReceivingStaticStatus, "Getting car information (receive)"),
    (ClientStatus::RequestingStart, "Starting the car (send)"),
    (ClientStatus::ReceivingStatus, "Getting information about the car"),
    (ClientStatus::RequestingStop, "Stopping the car (send)"),
    (ClientStatus::Finished, "Finished"),
];

#[test]
fn jobs_follow_each_other() {
    for (position, (job, text)) in JOBS.iter().enumerate() {
        assert_eq!(job.code() as usize, position);
        assert_eq!(ClientStatus::try_from(position as u8), Ok(*job));
        assert_eq!(job.to_string(), *text);
        let following = if position < 8 { JOBS[position + 1].0 } else { ClientStatus::Finished };
        assert_eq!(job.next(), following);
    }
    assert_eq!(ClientStatus::Finished.next(), ClientStatus::Finished);
    assert_eq!(ClientStatus::try_from(9), Err(()));
    assert_eq!(ClientStatus::try_from(255), Err(()));
    assert_eq!(ClientStatus::default(), ClientStatus::GatheringData);
}

#[test]
fn a_whole_run() {
    let mut run = RunControl::new();
    assert_eq!(run.step(false, false), None);
    assert_eq!(run.current_job, ClientStatus::GatheringData);
    assert!(run.start(true).is_ok());
    assert!(run.running);
    assert_eq!(run.current_job, ClientStatus::SendingPing);
    assert_eq!(run.step(false, false), Some(Command::Ping));
    assert_eq!(run.current_job, ClientStatus::ReceivingPing);
    assert_eq!(run.step(false, false), None);
    assert_eq!(run.current_job, ClientStatus::ReceivingPing);
    assert_eq!(run.step(true, false), None);
    assert_eq!(run.current_job, ClientStatus::RequestingStaticStatus);
    assert_eq!(run.step(true, false), Some(Command::StaticStatus));
    assert_eq!(run.current_job, ClientStatus::ReceivingStaticStatus);
    assert_eq!(run.step(true, false), None);
    assert_eq!(run.current_job, ClientStatus::ReceivingStaticStatus);
    assert_eq!(run.step(true, true), None);
    assert_eq!(run.current_job, ClientStatus::RequestingStart);
    assert_eq!(run.step(true, true), Some(Command::Start));
    assert_eq!(run.current_job, ClientStatus::ReceivingStatus);
    assert_eq!(run.step(true, true), None);
    assert_eq!(run.current_job, ClientStatus::ReceivingStatus);
    run.stop();
    assert!(!run.running);
    assert_eq!(run.current_job, ClientStatus::RequestingStop);
    assert_eq!(run.step(true, true), Some(Command::Stop));
    assert_eq!(run.current_job, ClientStatus::Finished);
    assert_eq!(run.step(true, true), None);
    assert_eq!(run.current_job, ClientStatus::Finished);
}

#[test]
fn start_needs_a_distance() {
    let mut run = RunControl::new();
    match run.start(false) {
        Err(ClientError::Run(detail)) => assert_eq!(detail, "Distance is not over 0 centimeters"),
        other => panic!("expected a run error, got {:?}", other),
    }
    assert_eq!(run, RunControl::new());
}

#[test]
fn start_during_a_run_does_nothing() {
    let mut run = RunControl { running: true, current_job: ClientStatus::ReceivingStatus };
    assert!(run.start(false).is_ok());
    assert!(run.start(true).is_ok());
    assert_eq!(run, RunControl { running: true, current_job: ClientStatus::ReceivingStatus });
}

#[test]
fn reset_keeps_the_job() {
    let mut run = RunControl { running: true, current_job: ClientStatus::ReceivingStatus };
    run.reset();
    assert_eq!(run, RunControl { running: false, current_job: ClientStatus::ReceivingStatus });
}

#[test]
fn large_button() {
    let idle = RunControl::new();
    assert_eq!(idle.large_button(false, false), LargeButton::Start);
    assert_eq!(idle.large_button(true, false), LargeButton::Reset);
    assert_eq!(idle.large_button(false, true), LargeButton::Reset);
    assert_eq!(idle.large_button(true, true), LargeButton::Reset);
    let running = RunControl { running: true, current_job: ClientStatus::SendingPing };
    assert_eq!(running.large_button(false, false), LargeButton::Stop);
    assert_eq!(running.large_button(true, true), LargeButton::Stop);
    assert_eq!(LargeButton::Start.to_string(), "START");
    assert_eq!(LargeButton::Reset.to_string(), "RESET");
    assert_eq!(LargeButton::Stop.to_string(), "STOP");
}

const OPTIONS: [MenuOption; 7] = [
    MenuOption::Start,
    MenuOption::ConnectBluetooth,
    MenuOption::ConnectSerial,
    MenuOption::DistanceInput,
    MenuOption::Confirm,
    MenuOption::Status,
    MenuOption::End,
];

#[test]
fn menu_positions() {
    for (position, option) in OPTIONS.iter().enumerate() {
        assert_eq!(option.code() as usize, position);
        assert_eq!(MenuOption::try_from(position as u8), Ok(*option));
    }
    assert_eq!(MenuOption::try_from(7), Err(()));
    assert_eq!(MenuOption::try_from(255), Err(()));
}

#[test]
fn menu_boundaries() {
    for option in OPTIONS {
        let boundary = option == MenuOption::Start || option == MenuOption::End;
        assert_eq!(MenuOption::at_boundary(&option), boundary);
    }
}

#[test]
fn menu_walk() {
    assert_eq!(MenuOption::next(&MenuOption::Start), Some(MenuOption::ConnectBluetooth));
    assert_eq!(MenuOption::next(&MenuOption::ConnectBluetooth), Some(MenuOption::ConnectSerial));
    assert_eq!(MenuOption::next(&MenuOption::Confirm), Some(MenuOption::Status));
    assert_eq!(MenuOption::next(&MenuOption::Status), None);
    assert_eq!(MenuOption::next(&MenuOption::End), None);
    assert_eq!(MenuOption::previous(&MenuOption::Start), None);
    assert_eq!(MenuOption::previous(&MenuOption::ConnectBluetooth), None);
    assert_eq!(MenuOption::previous(&MenuOption::ConnectSerial), Some(MenuOption::ConnectBluetooth));
    assert_eq!(MenuOption::previous(&MenuOption::Status), Some(MenuOption::Confirm));
    assert_eq!(MenuOption::previous(&MenuOption::End), Some(MenuOption::Status));
}
