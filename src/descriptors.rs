use vstd::prelude::*;

verus! {

/// Client events that the application maps onto simulator events.
#[derive(Clone, Copy, Debug, PartialEq, Eq, Structural)]
pub enum ClientEvent {
    Brakes,
    BrakesLeft,
    BrakesRight,
    ParkingBrakes,
    GearUp,
    GearDown,
    GearToggle,
}

/// Notification groups that arbitrate the delivery of client events.
#[derive(Clone, Copy, Debug, PartialEq, Eq, Structural)]
pub enum NotificationGroup {
    Group0,
}

/// Built-in system events of the simulator.
#[derive(Clone, Copy, Debug, PartialEq, Eq, Structural)]
pub enum SystemEventRequest {
    OneSecond,
    FourSeconds,
    SixTimesPerSecond,
    AircraftLoaded,
    Crashed,
    CrashReset,
    FlightLoaded,
    FlightSaved,
    FlightPlanActivated,
    FlightPlanDeactivated,
    Frame,
    Pause,
    Paused,
    PauseFrame,
    PositionChanged,
    Sim,
    SimStart,
    SimStop,
    Sound,
    Unpaused,
    View,
}

/// Categories of facilities held in the simulator's facilities cache.
#[derive(Clone, Copy, Debug, PartialEq, Eq, Structural)]
pub enum FacilityType {
    Airport,
    Waypoint,
    NDB,
    VOR,
}

impl ClientEvent {
    /// Wire identifier of the event.
    pub open spec fn spec_id(self) -> u32 {
        match self {
            Self::Brakes => 0,
            Self::BrakesLeft => 1,
            Self::BrakesRight => 2,
            Self::ParkingBrakes => 3,
            Self::GearUp => 4,
            Self::GearDown => 5,
            Self::GearToggle => 6,
        }
    }

    /// Wire identifier of the event.
    pub fn id(&self) -> (r: u32)
        ensures
            r == self.spec_id(),
    {
        match self {
            Self::Brakes => 0,
            Self::BrakesLeft => 1,
            Self::BrakesRight => 2,
            Self::ParkingBrakes => 3,
            Self::GearUp => 4,
            Self::GearDown => 5,
            Self::GearToggle => 6,
        }
    }

    /// Name of the simulator event that this event maps onto.
    pub open spec fn spec_name(self) -> Seq<char> {
        match self {
            Self::Brakes => "BRAKES"@,
            Self::BrakesLeft => "BRAKES_LEFT"@,
            Self::BrakesRight => "BRAKES_RIGHT"@,
            Self::ParkingBrakes => "PARKING_BRAKES"@,
            Self::GearUp => "GEAR_UP"@,
            Self::GearDown => "GEAR_DOWN"@,
            Self::GearToggle => "GEAR_TOGGLE"@,
        }
    }

    /// Name of the simulator event that this event maps onto.
    pub fn name(&self) -> (r: &'static str)
        ensures
            r@ == self.spec_name(),
    {
        match self {
            Self::Brakes => "BRAKES",
            Self::BrakesLeft => "BRAKES_LEFT",
            Self::BrakesRight => "BRAKES_RIGHT",
            Self::ParkingBrakes => "PARKING_BRAKES",
            Self::GearUp => "GEAR_UP",
            Self::GearDown => "GEAR_DOWN",
            Self::GearToggle => "GEAR_TOGGLE",
        }
    }
}

impl NotificationGroup {
    /// Wire identifier of the group.
    pub open spec fn spec_id(self) -> u32 {
        match self {
            Self::Group0 => 0,
        }
    }

    /// Wire identifier of the group.
    pub fn id(&self) -> (r: u32)
        ensures
            r == self.spec_id(),
    {
        match self {
            Self::Group0 => 0,
        }
    }
}

impl SystemEventRequest {
    /// Wire identifier of the request.
    pub open spec fn spec_id(self) -> u32 {
        match self {
            Self::OneSecond => 0,
            Self::FourSeconds => 1,
            Self::SixTimesPerSecond => 2,
            Self::AircraftLoaded => 3,
            Self::Crashed => 4,
            Self::CrashReset => 5,
            Self::FlightLoaded => 6,
            Self::FlightSaved => 7,
            Self::FlightPlanActivated => 8,
            Self::FlightPlanDeactivated => 9,
            Self::Frame => 10,
            Self::Pause => 11,
            Self::Paused => 12,
            Self::PauseFrame => 13,
            Self::PositionChanged => 14,
            Self::Sim => 15,
            Self::SimStart => 16,
            Self::SimStop => 17,
            Self::Sound => 18,
            Self::Unpaused => 19,
            Self::View => 20,
        }
    }

    /// Wire identifier of the request.
    pub fn id(&self) -> (r: u32)
        ensures
            r == self.spec_id(),
    {
        match self {
            Self::OneSecond => 0,
            Self::FourSeconds => 1,
            Self::SixTimesPerSecond => 2,
            Self::AircraftLoaded => 3,
            Self::Crashed => 4,
            Self::CrashReset => 5,
            Self::FlightLoaded => 6,
            Self::FlightSaved => 7,
            Self::FlightPlanActivated => 8,
            Self::FlightPlanDeactivated => 9,
            Self::Frame => 10,
            Self::Pause => 11,
            Self::Paused => 12,
            Self::PauseFrame => 13,
            Self::PositionChanged => 14,
            Self::Sim => 15,
            Self::SimStart => 16,
            Self::SimStop => 17,
            Self::Sound => 18,
            Self::Unpaused => 19,
            Self::View => 20,
        }
    }

    /// Name of the system event in the simulator's vocabulary.
    pub open spec fn spec_name(self) -> Seq<char> {
        match self {
            Self::OneSecond => "1sec"@,
            Self::FourSeconds => "4sec"@,
            Self::SixTimesPerSecond => "6Hz"@,
            Self::AircraftLoaded => "AircraftLoaded"@,
            Self::Crashed => "Crashed"@,
            Self::CrashReset => "CrashReset"@,
            Self::FlightLoaded => "FlightLoaded"@,
            Self::FlightSaved => "FlightSaved"@,
            Self::FlightPlanActivated => "FlightPlanActivated"@,
            Self::FlightPlanDeactivated => "FlightPlanDeactivated"@,
            Self::Frame => "Frame"@,
            Self::Pause => "Pause"@,
            Self::Paused => "Paused"@,
            Self::PauseFrame => "PauseFrame"@,
            Self::PositionChanged => "PositionChanged"@,
            Self::Sim => "Sim"@,
            Self::SimStart => "SimStart"@,
            Self::SimStop => "SimStop"@,
            Self::Sound => "Sound"@,
            Self::Unpaused => "Unpaused"@,
            Self::View => "View"@,
        }
    }

    /// Name of the system event in the simulator's vocabulary.
    pub fn name(&self) -> (r: &'static str)
        ensures
            r@ == self.spec_name(),
    {
        match self {
            Self::OneSecond => "1sec",
            Self::FourSeconds => "4sec",
            Self::SixTimesPerSecond => "6Hz",
            Self::AircraftLoaded => "AircraftLoaded",
            Self::Crashed => "Crashed",
            Self::CrashReset => "CrashReset",
            Self::FlightLoaded => "FlightLoaded",
            Self::FlightSaved => "FlightSaved",
            Self::FlightPlanActivated => "FlightPlanActivated",
            Self::FlightPlanDeactivated => "FlightPlanDeactivated",
            Self::Frame => "Frame",
            Self::Pause => "Pause",
            Self::Paused => "Paused",
            Self::PauseFrame => "PauseFrame",
            Self::PositionChanged => "PositionChanged",
            Self::Sim => "Sim",
            Self::SimStart => "SimStart",
            Self::SimStop => "SimStop",
            Self::Sound => "Sound",
            Self::Unpaused => "Unpaused",
            Self::View => "View",
        }
    }
}

impl FacilityType {
    /// Wire code of the facility list type.
    pub open spec fn spec_code(self) -> u32 {
        match self {
            Self::Airport => 0,
            Self::Waypoint => 1,
            Self::NDB => 2,
            Self::VOR => 3,
        }
    }

    /// Wire code of the facility list type.
    pub fn code(&self) -> (r: u32)
        ensures
            r == self.spec_code(),
    {
        match self {
            Self::Airport => 0,
            Self::Waypoint => 1,
            Self::NDB => 2,
            Self::VOR => 3,
        }
    }

    /// Category key under which requests for this type are tracked.
    pub open spec fn category_key(self) -> Seq<char> {
        match self {
            Self::Airport => "Airport"@,
            Self::Waypoint => "Waypoint"@,
            Self::NDB => "NDB"@,
            Self::VOR => "VOR"@,
        }
    }

    /// The category key of this facility type, as an owned string.
    pub fn to_type_name(&self) -> (r: String)
        ensures
            r@ == self.category_key(),
    {
        let name: &'static str = match self {
            Self::Airport => "Airport",
            Self::Waypoint => "Waypoint",
            Self::NDB => "NDB",
            Self::VOR => "VOR",
        };
        String::from_str(name)
    }
}

} // verus!
