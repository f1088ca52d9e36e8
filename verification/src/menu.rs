//! The options of the on-board menu, in the order in which they are walked.
//! The first and the last option are boundaries that cannot be selected.

use vstd::prelude::*;

verus! {

/// An option of the menu.
#[derive(Clone, Copy, Debug, PartialEq, Eq, Structural)]
pub enum MenuOption {
    Start,
    ConnectBluetooth,
    ConnectSerial,
    DistanceInput,
    Confirm,
    Status,
    End,
}

/// The position of an option, from 0 to 6.
pub open spec fn option_code(option: MenuOption) -> u8 {
    match option {
        MenuOption::Start => 0,
        MenuOption::ConnectBluetooth => 1,
        MenuOption::ConnectSerial => 2,
        MenuOption::DistanceInput => 3,
        MenuOption::Confirm => 4,
        MenuOption::Status => 5,
        MenuOption::End => 6,
    }
}

/// The option at a position, if there is one.
pub open spec fn option_at(code: int) -> Option<MenuOption> {
    if code == 0 {
        Some(MenuOption::Start)
    } else if code == 1 {
        Some(MenuOption::ConnectBluetooth)
    } else if code == 2 {
        Some(MenuOption::ConnectSerial)
    } else if code == 3 {
        Some(MenuOption::DistanceInput)
    } else if code == 4 {
        Some(MenuOption::Confirm)
    } else if code == 5 {
        Some(MenuOption::Status)
    } else if code == 6 {
        Some(MenuOption::End)
    } else {
        None
    }
}

/// The first and the last option are boundaries.
pub open spec fn is_boundary(option: MenuOption) -> bool {
    option == MenuOption::Start || option == MenuOption::End
}

/// The option at `code`, unless there is none or it is a boundary.
pub open spec fn selectable_at(code: int) -> Option<MenuOption> {
    match option_at(code) {
        Some(option) => if is_boundary(option) {
            None
        } else {
            Some(option)
        },
        None => None,
    }
}

impl MenuOption {
    /// The position of this option.
    pub fn code(self) -> (r: u8)
        ensures
            r == option_code(self),
            r <= 6,
            option_at(r as int) == Some(self),
    {
        match self {
            MenuOption::Start => 0,
            MenuOption::ConnectBluetooth => 1,
            MenuOption::ConnectSerial => 2,
            MenuOption::DistanceInput => 3,
            MenuOption::Confirm => 4,
            MenuOption::Status => 5,
            MenuOption::End => 6,
        }
    }

    /// The option at a position; positions above 6 are rejected.
    pub fn try_from(value: u8) -> (r: Result<MenuOption, ()>)
        ensures
            match option_at(value as int) {
                Some(option) => r == Ok::<MenuOption, ()>(option),
                None => r is Err,
            },
            r.is_ok() <==> value <= 6,
    {
        match value {
            0 => Ok(MenuOption::Start),
            1 => Ok(MenuOption::ConnectBluetooth),
            2 => Ok(MenuOption::ConnectSerial),
            3 => Ok(MenuOption::DistanceInput),
            4 => Ok(MenuOption::Confirm),
            5 => Ok(MenuOption::Status),
            6 => Ok(MenuOption::End),
            _ => Err(()),
        }
    }

    /// True for the first and the last option.
    pub fn at_boundary(option: &MenuOption) -> (r: bool)
        ensures
            r == is_boundary(*option),
    {
        match *option {
            MenuOption::Start => true,
            MenuOption::End => true,
            _ => false,
        }
    }

    /// The option after `option`, unless that is a boundary or there is
    /// none.
    pub fn next(option: &MenuOption) -> (r: Option<MenuOption>)
        ensures
            r == selectable_at(option_code(*option) + 1),
    {
        let next_option = match MenuOption::try_from(option.code() + 1) {
            Ok(next_option) => next_option,
            Err(_) => {
                return None;
            },
        };
        if MenuOption::at_boundary(&next_option) {
            return None;
        }
        Some(next_option)
    }

    /// The option before `option`, unless that is a boundary or there is
    /// none.
    pub fn previous(option: &MenuOption) -> (r: Option<MenuOption>)
        ensures
            r == selectable_at(option_code(*option) - 1),
    {
        let code = option.code();
        if code == 0 {
            return None;
        }
        let previous_option = match MenuOption::try_from(code - 1) {
            Ok(previous_option) => previous_option,
            Err(_) => {
                return None;
            },
        };
        if MenuOption::at_boundary(&previous_option) {
            return None;
        }
        Some(previous_option)
    }
}

/// Walking forward and then back, or back and then forward, returns to the
/// option one started from, where both steps can be taken.
pub proof fn lemma_menu_walk(option: MenuOption)
    ensures
        selectable_at(option_code(option) + 1) matches Some(after) ==> !is_boundary(option)
            ==> selectable_at(option_code(after) - 1) == Some(option),
        selectable_at(option_code(option) - 1) matches Some(before) ==> !is_boundary(option)
            ==> selectable_at(option_code(before) + 1) == Some(option),
{
}

} // verus!
