//! Framing and validation of the messages exchanged with the rover's
//! microcontrollers.
//!
//! Every message is one frame of fixed length. The first byte names the
//! subsystem; the wheels and the LED share a subsystem and are told apart by
//! a second byte, the part. The fields follow in a fixed order: one byte
//! each for the wheels, the LED, the arm and the science package, eight
//! bytes for each reading of the sensors. The wheels, arm and science frames
//! end with a checksum.
//!
//! [`parse::parse`] reads a frame, the functions of [`send`] build one, and
//! [`checksum::Checksum`] computes and tests the checksum.

pub mod checksum;
pub mod error;
pub mod parse;
pub mod send;

use crate::checksum::{checksum_of, is_intact, Checksum};
use vstd::prelude::*;

verus! {

/// Drive speeds of the two wheel banks, with the checksum that travels with
/// them. Each speed is a `u8`, with the neutral position being 126.
#[derive(Debug, Clone, Copy, PartialEq, Eq, Structural)]
pub struct Wheels {
    pub left: u8,
    pub right: u8,
    pub checksum: u8,
}

impl Wheels {
    pub const SUBSYSTEM_BYTE: u8 = 0x01;

    pub const PART_BYTE: u8 = 0x01;

    /// The motor value at which a motor isn't moving.
    pub const NEURTAL_SPEED: u8 = 126;

    /// Creates a new `Wheels`, with the checksum of the two speeds: their
    /// sum, kept to its low eight bits.
    pub fn new(left: u8, right: u8) -> (wheels: Self)
        ensures
            wheels.left == left,
            wheels.right == right,
            wheels.checksum == checksum_of(seq![left, right]),
            is_intact(wheels),
    {
        let unsummed = Wheels { left, right, checksum: 0 };
        Wheels { left, right, checksum: unsummed.checksum() }
    }

    /// Creates a `Wheels` that holds `checksum` as given, right or wrong.
    pub fn with_checksum(left: u8, right: u8, checksum: u8) -> (wheels: Self)
        ensures
            wheels == (Wheels { left, right, checksum }),
    {
        Wheels { left, right, checksum }
    }
}

/// The flashing LED on the top of the rover.
#[derive(Debug, Clone, Copy, PartialEq, Eq, Structural)]
pub struct Led {
    pub red: u8,
    pub green: u8,
    pub blue: u8,
}

impl Led {
    pub const SUBSYSTEM_BYTE: u8 = 0x01;

    pub const PART_BYTE: u8 = 0x02;
}

/// The joints of the robotic arm, with the checksum that travels with them.
#[derive(Debug, Clone, Copy, PartialEq, Eq, Structural)]
pub struct Arm {
    pub bicep: u8,
    pub forearm: u8,
    pub base: u8,
    pub wrist_pitch: u8,
    pub wrist_roll: u8,
    pub claw: u8,
    pub checksum: u8,
}

impl Arm {
    pub const SUBSYSTEM_BYTE: u8 = 0x02;

    /// Creates a new `Arm`, with the checksum of the six joints: their sum,
    /// kept to its low eight bits.
    pub fn new(bicep: u8, forearm: u8, base: u8, wrist_pitch: u8, wrist_roll: u8, claw: u8) -> (arm:
        Self)
        ensures
            arm.bicep == bicep,
            arm.forearm == forearm,
            arm.base == base,
            arm.wrist_pitch == wrist_pitch,
            arm.wrist_roll == wrist_roll,
            arm.claw == claw,
            arm.checksum == checksum_of(seq![bicep, forearm, base, wrist_pitch, wrist_roll, claw]),
            is_intact(arm),
    {
        let unsummed = Arm { bicep, forearm, base, wrist_pitch, wrist_roll, claw, checksum: 0 };
        Arm { checksum: unsummed.checksum(), ..unsummed }
    }

    /// Creates an `Arm` that holds `checksum` as given, right or wrong.
    pub fn with_checksum(
        bicep: u8,
        forearm: u8,
        base: u8,
        wrist_pitch: u8,
        wrist_roll: u8,
        claw: u8,
        checksum: u8,
    ) -> (arm: Self)
        ensures
            arm == (Arm { bicep, forearm, base, wrist_pitch, wrist_roll, claw, checksum }),
    {
        Arm { bicep, forearm, base, wrist_pitch, wrist_roll, claw, checksum }
    }
}

/// The science package on the rover, including the utilities needed to
/// perform field experiments, with the checksum that travels with them.
#[derive(Debug, Clone, Copy, PartialEq, Eq, Structural)]
pub struct Science {
    pub big_actuator: u8,
    pub drill: u8,
    pub small_actuator: u8,
    pub test_tubes: u8,
    pub camera_servo: u8,
    pub checksum: u8,
}

impl Science {
    pub const SUBSYSTEM_BYTE: u8 = 0x03;

    /// Creates a new `Science`, with the checksum of the five fields: their
    /// sum, kept to its low eight bits.
    pub fn new(big_actuator: u8, drill: u8, small_actuator: u8, test_tubes: u8, camera_servo: u8)
        -> (science: Self)
        ensures
            science.big_actuator == big_actuator,
            science.drill == drill,
            science.small_actuator == small_actuator,
            science.test_tubes == test_tubes,
            science.camera_servo == camera_servo,
            science.checksum == checksum_of(
                seq![big_actuator, drill, small_actuator, test_tubes, camera_servo],
            ),
            is_intact(science),
    {
        let unsummed = Science {
            big_actuator,
            drill,
            small_actuator,
            test_tubes,
            camera_servo,
            checksum: 0,
        };
        Science { checksum: unsummed.checksum(), ..unsummed }
    }

    /// Creates a `Science` that holds `checksum` as given, right or wrong.
    pub fn with_checksum(
        big_actuator: u8,
        drill: u8,
        small_actuator: u8,
        test_tubes: u8,
        camera_servo: u8,
        checksum: u8,
    ) -> (science: Self)
        ensures
            science == (Science {
                big_actuator,
                drill,
                small_actuator,
                test_tubes,
                camera_servo,
                checksum,
            }),
    {
        Science { big_actuator, drill, small_actuator, test_tubes, camera_servo, checksum }
    }
}

/// Data about the three paired sensors, sent from the microcontroller.
///
/// Each reading is a double, held here as the eight bytes that carried it,
/// in the order they had on the wire. The wire and the host are taken to
/// share one byte order, so a reading is what the host makes of its eight
/// bytes in native order.
#[derive(Debug, Clone, Copy, PartialEq, Eq)]
pub struct Imu {
    pub accel_x: [u8; 8],
    pub accel_y: [u8; 8],
    pub accel_z: [u8; 8],
    pub gyro_x: [u8; 8],
    pub gyro_y: [u8; 8],
    pub gyro_z: [u8; 8],
    pub compass_x: [u8; 8],
    pub compass_y: [u8; 8],
    pub compass_z: [u8; 8],
    /// Not carried by any frame: a decoded `Imu` holds
    /// [`Imu::TEMP_C_ABSENT`] here.
    pub temp_c: [u8; 8],
}

impl Imu {
    pub const SUBSYSTEM_BYTE: u8 = 0x04;

    /// The bytes of a temperature of zero, which stand in for the reading
    /// that the frame does not carry.
    pub const TEMP_C_ABSENT: [u8; 8] = [0, 0, 0, 0, 0, 0, 0, 0];
}

} // verus!
