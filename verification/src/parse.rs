//! Parses a given slice into a valid message.
//!
//! [`decode`] says, over a sequence of bytes, what every input means: one
//! message or one error. [`parse`] computes it.

use crate::checksum::checksum_of;
use crate::error::ParsingError;
use crate::{Arm, Imu, Led, Science, Wheels};
use vstd::prelude::*;

verus! {

/// Any kind of message that should be sent to/from the rover.
#[derive(Debug, Clone, Copy, PartialEq, Eq)]
pub enum Message {
    Wheels(Wheels),
    Led(Led),
    Arm(Arm),
    Science(Science),
    Imu(Imu),
}

/// The five frames of the protocol, by what their header names.
pub enum Kind {
    Wheels,
    Led,
    Arm,
    Science,
    Imu,
}

impl Kind {
    /// The first byte of the frame.
    pub open spec fn subsystem(self) -> u8 {
        match self {
            Kind::Wheels => Wheels::SUBSYSTEM_BYTE,
            Kind::Led => Led::SUBSYSTEM_BYTE,
            Kind::Arm => Arm::SUBSYSTEM_BYTE,
            Kind::Science => Science::SUBSYSTEM_BYTE,
            Kind::Imu => Imu::SUBSYSTEM_BYTE,
        }
    }

    /// The second byte of the frame, where the subsystem has parts.
    pub open spec fn part(self) -> Option<u8> {
        match self {
            Kind::Wheels => Some(Wheels::PART_BYTE),
            Kind::Led => Some(Led::PART_BYTE),
            _ => None,
        }
    }

    /// The length of the whole frame: header, fields, and the checksum
    /// where there is one.
    pub open spec fn frame_len(self) -> nat {
        match self {
            Kind::Wheels => 5,
            Kind::Led => 5,
            Kind::Arm => 8,
            Kind::Science => 7,
            Kind::Imu => 73,
        }
    }
}

impl Message {
    /// Which of the five frames carries this message.
    pub open spec fn kind(self) -> Kind {
        match self {
            Message::Wheels(_) => Kind::Wheels,
            Message::Led(_) => Kind::Led,
            Message::Arm(_) => Kind::Arm,
            Message::Science(_) => Kind::Science,
            Message::Imu(_) => Kind::Imu,
        }
    }
}

/// The frame that the header of `bytes` announces, or the error of an input
/// whose header announces none.
pub open spec fn header(bytes: Seq<u8>) -> Result<Kind, ParsingError> {
    if bytes.len() == 0 {
        Err(ParsingError::ZeroLengthSlice)
    } else if bytes[0] == Wheels::SUBSYSTEM_BYTE {
        if bytes.len() < 2 {
            Err(ParsingError::NoEboxPart)
        } else if bytes[1] == Wheels::PART_BYTE {
            Ok(Kind::Wheels)
        } else if bytes[1] == Led::PART_BYTE {
            Ok(Kind::Led)
        } else {
            Err(ParsingError::InvalidSubsystem(bytes[1]))
        }
    } else if bytes[0] == Arm::SUBSYSTEM_BYTE {
        Ok(Kind::Arm)
    } else if bytes[0] == Science::SUBSYSTEM_BYTE {
        Ok(Kind::Science)
    } else if bytes[0] == Imu::SUBSYSTEM_BYTE {
        Ok(Kind::Imu)
    } else {
        Err(ParsingError::InvalidSubsystem(bytes[0]))
    }
}

/// A length as an error reports it: itself, or `u32::MAX` where it is
/// larger than that.
pub open spec fn reported_len(len: nat) -> u32 {
    if len <= u32::MAX {
        len as u32
    } else {
        u32::MAX
    }
}

/// The error of an input of `len` bytes whose header announces `kind`, and
/// whose length is not that of the frame.
pub open spec fn wrong_length(kind: Kind, len: nat) -> ParsingError {
    ParsingError::LengthInconsistency {
        subsystem: kind.subsystem(),
        part: match kind.part() {
            Some(part) => part,
            None => 0,
        },
        length: reported_len(len),
        expected_length: kind.frame_len() as u32,
    }
}

/// The eight bytes of `bytes` that start at `at`.
pub open spec fn eight_at(bytes: Seq<u8>, at: int) -> [u8; 8] {
    [
        bytes[at],
        bytes[at + 1],
        bytes[at + 2],
        bytes[at + 3],
        bytes[at + 4],
        bytes[at + 5],
        bytes[at + 6],
        bytes[at + 7],
    ]
}

/// The message that a frame of `kind` holds in `bytes`, which has the
/// length of that frame.
///
/// Every field is the byte at its place. The wheels are the exception: the
/// last byte of their frame is not read, and the checksum of the message is
/// that of the two speeds.
pub open spec fn fields(kind: Kind, bytes: Seq<u8>) -> Message {
    match kind {
        Kind::Wheels => Message::Wheels(
            Wheels {
                left: bytes[2],
                right: bytes[3],
                checksum: checksum_of(seq![bytes[2], bytes[3]]),
            },
        ),
        Kind::Led => Message::Led(Led { red: bytes[2], green: bytes[3], blue: bytes[4] }),
        Kind::Arm => Message::Arm(
            Arm {
                bicep: bytes[1],
                forearm: bytes[2],
                base: bytes[3],
                wrist_pitch: bytes[4],
                wrist_roll: bytes[5],
                claw: bytes[6],
                checksum: bytes[7],
            },
        ),
        Kind::Science => Message::Science(
            Science {
                big_actuator: bytes[1],
                drill: bytes[2],
                small_actuator: bytes[3],
                test_tubes: bytes[4],
                camera_servo: bytes[5],
                checksum: bytes[6],
            },
        ),
        Kind::Imu => Message::Imu(
            Imu {
                accel_x: eight_at(bytes, 1),
                accel_y: eight_at(bytes, 9),
                accel_z: eight_at(bytes, 17),
                gyro_x: eight_at(bytes, 25),
                gyro_y: eight_at(bytes, 33),
                gyro_z: eight_at(bytes, 41),
                compass_x: eight_at(bytes, 49),
                compass_y: eight_at(bytes, 57),
                compass_z: eight_at(bytes, 65),
                temp_c: Imu::TEMP_C_ABSENT,
            },
        ),
    }
}

/// What `bytes` means: the message of the frame that its header announces,
/// if it has the length of that frame, and else the one error that says
/// what is wrong with it.
pub open spec fn decode(bytes: Seq<u8>) -> Result<Message, ParsingError> {
    match header(bytes) {
        Err(error) => Err(error),
        Ok(kind) => if bytes.len() == kind.frame_len() {
            Ok(fields(kind, bytes))
        } else {
            Err(wrong_length(kind, bytes.len()))
        },
    }
}

/// Checks if the given input length is equal to the expected length. If so,
/// returns `Ok(())`. Otherwise, returns a
/// `ParsingError::LengthInconsistency` error.
pub fn check_length(input_len: usize, subsystem: u8, part: u8, expected: u32) -> (checked: Result<
    (),
    ParsingError,
>)
    ensures
        input_len == expected ==> checked == Ok::<(), ParsingError>(()),
        input_len != expected ==> checked == Err::<(), ParsingError>(
            ParsingError::LengthInconsistency {
                subsystem,
                part,
                length: reported_len(input_len as nat),
                expected_length: expected,
            },
        ),
{
    if input_len > u32::MAX as usize {
        Err(
            ParsingError::LengthInconsistency {
                subsystem,
                part,
                length: u32::MAX,
                expected_length: expected,
            },
        )
    } else if input_len as u32 != expected {
        Err(
            ParsingError::LengthInconsistency {
                subsystem,
                part,
                length: input_len as u32,
                expected_length: expected,
            },
        )
    } else {
        Ok(())
    }
}

/// Copies out the eight bytes of `input` that start at `at`.
fn read_eight(input: &[u8], at: usize) -> (bytes: [u8; 8])
    requires
        at + 8 <= input@.len(),
    ensures
        bytes == eight_at(input@, at as int),
{
    let bytes = [
        input[at],
        input[at + 1],
        input[at + 2],
        input[at + 3],
        input[at + 4],
        input[at + 5],
        input[at + 6],
        input[at + 7],
    ];
    assert(bytes =~= eight_at(input@, at as int));
    bytes
}

/// Parse an input slice into a valid message.
pub fn parse(input: &[u8]) -> (parsed: Result<Message, ParsingError>)
    ensures
        parsed == decode(input@),
{
    let input_len = input.len();

    // check if we have a subsystem byte
    if input_len < 1 {
        return Err(ParsingError::ZeroLengthSlice);
    }
    let subsystem = input[0];

    if subsystem == Wheels::SUBSYSTEM_BYTE {
        // you have to specify the part byte
        if input_len < 2 {
            return Err(ParsingError::NoEboxPart);
        }
        // the second byte tells the wheels from the leds

        let part = input[1];
        if part == Wheels::PART_BYTE {
            match check_length(input_len, subsystem, part, 5) {
                Err(error) => Err(error),
                Ok(()) => Ok(Message::Wheels(Wheels::new(input[2], input[3]))),
            }
        } else if part == Led::PART_BYTE {
            match check_length(input_len, subsystem, part, 5) {
                Err(error) => Err(error),
                Ok(()) => Ok(
                    Message::Led(Led { red: input[2], green: input[3], blue: input[4] }),
                ),
            }
        } else {
            Err(ParsingError::InvalidSubsystem(part))
        }
    } else if subsystem == Arm::SUBSYSTEM_BYTE {
        match check_length(input_len, subsystem, 0x00, 8) {
            Err(error) => Err(error),
            Ok(()) => Ok(
                Message::Arm(
                    Arm {
                        bicep: input[1],
                        forearm: input[2],
                        base: input[3],
                        wrist_pitch: input[4],
                        wrist_roll: input[5],
                        claw: input[6],
                        checksum: input[7],
                    },
                ),
            ),
        }
    } else if subsystem == Science::SUBSYSTEM_BYTE {
        match check_length(input_len, subsystem, 0x00, 7) {
            Err(error) => Err(error),
            Ok(()) => Ok(
                Message::Science(
                    Science {
                        big_actuator: input[1],
                        drill: input[2],
                        small_actuator: input[3],
                        test_tubes: input[4],
                        camera_servo: input[5],
                        checksum: input[6],
                    },
                ),
            ),
        }
    } else if subsystem == Imu::SUBSYSTEM_BYTE {
        // three vectors of three doubles, each double eight bytes
        match check_length(input_len, subsystem, 0x00, 73) {
            Err(error) => Err(error),
            Ok(()) => Ok(
                Message::Imu(
                    Imu {
                        accel_x: read_eight(input, 1),
                        accel_y: read_eight(input, 9),
                        accel_z: read_eight(input, 17),
                        gyro_x: read_eight(input, 25),
                        gyro_y: read_eight(input, 33),
                        gyro_z: read_eight(input, 41),
                        compass_x: read_eight(input, 49),
                        compass_y: read_eight(input, 57),
                        compass_z: read_eight(input, 65),
                        temp_c: Imu::TEMP_C_ABSENT,
                    },
                ),
            ),
        }
    } else {
        // otherwise, we got invalid input
        Err(ParsingError::InvalidSubsystem(subsystem))
    }
}

/// The length decides: an input whose header announces a frame is a message
/// at the length of that frame, and at every other length it is the error
/// that holds the subsystem byte, the part byte (0 where the subsystem has
/// no parts), the length it has and the length it should have. A length
/// that fits in `u32` is reported as it is, so one byte too few or too many
/// is.
pub proof fn lemma_length_decides(bytes: Seq<u8>, kind: Kind)
    requires
        header(bytes) == Ok::<Kind, ParsingError>(kind),
    ensures
        bytes.len() == kind.frame_len() ==> decode(bytes) == Ok::<Message, ParsingError>(
            fields(kind, bytes),
        ),
        bytes.len() != kind.frame_len() ==> decode(bytes) == Err::<Message, ParsingError>(
            ParsingError::LengthInconsistency {
                subsystem: bytes[0],
                part: if kind.part() is Some {
                    bytes[1]
                } else {
                    0
                },
                length: reported_len(bytes.len()),
                expected_length: kind.frame_len() as u32,
            },
        ),
        bytes.len() <= u32::MAX ==> reported_len(bytes.len()) == bytes.len(),
        kind.frame_len() as u32 == kind.frame_len(),
        decode(bytes) is Ok ==> decode(bytes)->Ok_0.kind() == kind,
{
}

/// Behind the subsystem byte that the wheels and the LED share, a second
/// byte that names neither of them is refused with that byte, however many
/// bytes follow it.
pub proof fn lemma_unknown_part(bytes: Seq<u8>)
    requires
        bytes.len() >= 2,
        bytes[0] == Wheels::SUBSYSTEM_BYTE,
        bytes[1] != Wheels::PART_BYTE,
        bytes[1] != Led::PART_BYTE,
    ensures
        decode(bytes) == Err::<Message, ParsingError>(ParsingError::InvalidSubsystem(bytes[1])),
{
}

/// A first byte that names no subsystem is refused with that byte, however
/// many bytes follow it.
pub proof fn lemma_unknown_subsystem(bytes: Seq<u8>)
    requires
        bytes.len() >= 1,
        bytes[0] != Wheels::SUBSYSTEM_BYTE,
        bytes[0] != Arm::SUBSYSTEM_BYTE,
        bytes[0] != Science::SUBSYSTEM_BYTE,
        bytes[0] != Imu::SUBSYSTEM_BYTE,
    ensures
        decode(bytes) == Err::<Message, ParsingError>(ParsingError::InvalidSubsystem(bytes[0])),
{
}

} // verus!
