//! Builds the frames that are sent to the rover.
//!
//! [`frame_of`] says which bytes carry a message. Each builder writes them
//! and reads its own frame back with [`parse`] before it hands the frame
//! out; the contracts show that this never fails. Moving the bytes is left
//! to the caller, who reports how it went to [`sent`].

use crate::error::{ParsingError, SendError};
use crate::checksum::checksum_of;
use crate::parse::{decode, eight_at, parse, Message};
use crate::{Arm, Imu, Led, Science, Wheels};
use vstd::prelude::*;
use vstd::slice::slice_to_vec;

verus! {

/// The frame that carries `message`: the subsystem byte, the part byte
/// where the subsystem has parts, the fields in their order, and the
/// checksum that the message holds, where it holds one. The temperature of
/// an `Imu` is not carried.
pub open spec fn frame_of(message: Message) -> Seq<u8> {
    match message {
        Message::Wheels(wheels) => seq![
            Wheels::SUBSYSTEM_BYTE,
            Wheels::PART_BYTE,
            wheels.left,
            wheels.right,
            wheels.checksum,
        ],
        Message::Led(led) => seq![
            Led::SUBSYSTEM_BYTE,
            Led::PART_BYTE,
            led.red,
            led.green,
            led.blue,
        ],
        Message::Arm(arm) => seq![
            Arm::SUBSYSTEM_BYTE,
            arm.bicep,
            arm.forearm,
            arm.base,
            arm.wrist_pitch,
            arm.wrist_roll,
            arm.claw,
            arm.checksum,
        ],
        Message::Science(science) => seq![
            Science::SUBSYSTEM_BYTE,
            science.big_actuator,
            science.drill,
            science.small_actuator,
            science.test_tubes,
            science.camera_servo,
            science.checksum,
        ],
        Message::Imu(imu) => seq![Imu::SUBSYSTEM_BYTE] + imu.accel_x@ + imu.accel_y@
            + imu.accel_z@ + imu.gyro_x@ + imu.gyro_y@ + imu.gyro_z@ + imu.compass_x@
            + imu.compass_y@ + imu.compass_z@,
    }
}

/// Builds the frame for the given wheel speeds.
pub fn wheels_frame(wheels: &Wheels) -> (built: Result<[u8; 5], SendError>)
    ensures
        built is Ok,
        built->Ok_0@ == frame_of(Message::Wheels(*wheels)),
{
    let mut message: [u8; 5] = [0x0;5];

    // start with the subsystem byte, then the wheels part byte
    message[0] = Wheels::SUBSYSTEM_BYTE;
    message[1] = Wheels::PART_BYTE;

    // each speed can be added directly...
    message[2] = wheels.left;
    message[3] = wheels.right;

    // add the checksum
    message[4] = wheels.checksum;

    assert(message@ =~= frame_of(Message::Wheels(*wheels)));

    // check the message validity
    match parse(message.as_slice()) {
        Err(error) => Err(SendError::MessageFailedValidation(error)),
        Ok(_) => Ok(message),
    }
}

/// Builds the frame for the given light color.
pub fn led_frame(lights: &Led) -> (built: Result<[u8; 5], SendError>)
    ensures
        built is Ok,
        built->Ok_0@ == frame_of(Message::Led(*lights)),
{
    let mut message: [u8; 5] = [0x0;5];

    // first, the subsystem byte, then the part byte (lights)
    message[0] = Led::SUBSYSTEM_BYTE;
    message[1] = Led::PART_BYTE;

    // now the three values - r, g, b!
    message[2] = lights.red;
    message[3] = lights.green;
    message[4] = lights.blue;

    assert(message@ =~= frame_of(Message::Led(*lights)));

    // check the message validity
    match parse(message.as_slice()) {
        Err(error) => Err(SendError::MessageFailedValidation(error)),
        Ok(_) => Ok(message),
    }
}

/// Builds the frame for the given arm position.
pub fn arm_frame(arm: &Arm) -> (built: Result<[u8; 8], SendError>)
    ensures
        built is Ok,
        built->Ok_0@ == frame_of(Message::Arm(*arm)),
{
    let mut message: [u8; 8] = [0x0;8];

    // subsystem; there is no part byte for the arm
    message[0] = Arm::SUBSYSTEM_BYTE;

    // now... add each field in order.
    message[1] = arm.bicep;
    message[2] = arm.forearm;
    message[3] = arm.base;
    message[4] = arm.wrist_pitch;
    message[5] = arm.wrist_roll;
    message[6] = arm.claw;

    // and the checksum
    message[7] = arm.checksum;

    assert(message@ =~= frame_of(Message::Arm(*arm)));

    // check the message validity
    match parse(message.as_slice()) {
        Err(error) => Err(SendError::MessageFailedValidation(error)),
        Ok(_) => Ok(message),
    }
}

/// Builds the frame for the given state of the science package.
pub fn science_frame(science: &Science) -> (built: Result<[u8; 7], SendError>)
    ensures
        built is Ok,
        built->Ok_0@ == frame_of(Message::Science(*science)),
{
    let mut message: [u8; 7] = [0x0;7];

    // subsystem; there is no part byte for the science package
    message[0] = Science::SUBSYSTEM_BYTE;

    message[1] = science.big_actuator;
    message[2] = science.drill;
    message[3] = science.small_actuator;
    message[4] = science.test_tubes;
    message[5] = science.camera_servo;
    message[6] = science.checksum;

    assert(message@ =~= frame_of(Message::Science(*science)));

    // check the message validity
    match parse(message.as_slice()) {
        Err(error) => Err(SendError::MessageFailedValidation(error)),
        Ok(_) => Ok(message),
    }
}

/// Writes the eight bytes of one reading into `message`, from `at` on.
fn write_eight(message: &mut [u8; 73], at: usize, reading: &[u8; 8])
    requires
        at + 8 <= 73,
    ensures
        final(message)@ == old(message)@.take(at as int) + reading@ + old(message)@.skip(at + 8),
{
    let ghost before = message@;
    let mut i: usize = 0;
    while i < 8
        invariant
            i <= 8,
            at + 8 <= 73,
            before.len() == 73,
            message@ == before.take(at as int) + reading@.take(i as int) + before.skip(at + i),
        decreases 8 - i,
    {
        let ghost so_far = message@;
        message[at + i] = reading[i];
        assert(message@ =~= before.take(at as int) + reading@.take(i + 1) + before.skip(
            at + i + 1,
        )) by {
            assert(message@ == so_far.update(at + i, reading@[i as int]));
        }
        i += 1;
    }
    assert(reading@.take(8) =~= reading@);
}

/// Builds the frame for the given sensor readings.
pub fn imu_frame(imu: &Imu) -> (built: Result<[u8; 73], SendError>)
    ensures
        built is Ok,
        built->Ok_0@ == frame_of(Message::Imu(*imu)),
{
    let mut message: [u8; 73] = [0x0;73];

    // subsystem; there is no part byte for the sensors
    message[0] = Imu::SUBSYSTEM_BYTE;

    // three vectors of three doubles, each double eight bytes
    write_eight(&mut message, 1, &imu.accel_x);
    write_eight(&mut message, 9, &imu.accel_y);
    write_eight(&mut message, 17, &imu.accel_z);
    write_eight(&mut message, 25, &imu.gyro_x);
    write_eight(&mut message, 33, &imu.gyro_y);
    write_eight(&mut message, 41, &imu.gyro_z);
    write_eight(&mut message, 49, &imu.compass_x);
    write_eight(&mut message, 57, &imu.compass_y);
    write_eight(&mut message, 65, &imu.compass_z);

    assert(message@ =~= frame_of(Message::Imu(*imu)));

    // check the message validity
    match parse(message.as_slice()) {
        Err(error) => Err(SendError::MessageFailedValidation(error)),
        Ok(_) => Ok(message),
    }
}

/// Builds the frame for any message, as a vector of the frame's length.
pub fn encode(message: &Message) -> (built: Result<Vec<u8>, SendError>)
    ensures
        built is Ok,
        built->Ok_0@ == frame_of(*message),
        decode(built->Ok_0@) == Ok::<Message, ParsingError>(as_received(*message)),
{
    proof {
        lemma_decode_frame(*message);
    }
    match message {
        Message::Wheels(wheels) => match wheels_frame(wheels) {
            Err(error) => Err(error),
            Ok(frame) => Ok(slice_to_vec(frame.as_slice())),
        },
        Message::Led(lights) => match led_frame(lights) {
            Err(error) => Err(error),
            Ok(frame) => Ok(slice_to_vec(frame.as_slice())),
        },
        Message::Arm(arm) => match arm_frame(arm) {
            Err(error) => Err(error),
            Ok(frame) => Ok(slice_to_vec(frame.as_slice())),
        },
        Message::Science(science) => match science_frame(science) {
            Err(error) => Err(error),
            Ok(frame) => Ok(slice_to_vec(frame.as_slice())),
        },
        Message::Imu(imu) => match imu_frame(imu) {
            Err(error) => Err(error),
            Ok(frame) => Ok(slice_to_vec(frame.as_slice())),
        },
    }
}

/// What a send reports to its caller, given what the socket reported of it:
/// the count of bytes that went out is dropped, and an error of the socket
/// is handed on as it is.
pub fn sent(outcome: Result<usize, std::io::Error>) -> (reported: Result<(), SendError>)
    ensures
        outcome is Ok ==> reported is Ok,
        outcome is Err ==> reported == Err::<(), SendError>(
            SendError::SocketError(outcome->Err_0),
        ),
{
    match outcome {
        Ok(_) => Ok(()),
        Err(error) => Err(SendError::SocketError(error)),
    }
}

/// The message as it comes out of the frame that carried it. A frame of the
/// wheels is read without its last byte, so the wheels arrive with the
/// checksum of their speeds; the frame of an `Imu` has no temperature, so
/// the `Imu` arrives with [`Imu::TEMP_C_ABSENT`]. Everything else arrives
/// as it was.
pub open spec fn as_received(message: Message) -> Message {
    match message {
        Message::Wheels(wheels) => Message::Wheels(
            Wheels {
                left: wheels.left,
                right: wheels.right,
                checksum: checksum_of(seq![wheels.left, wheels.right]),
            },
        ),
        Message::Imu(imu) => Message::Imu(Imu { temp_c: Imu::TEMP_C_ABSENT, ..imu }),
        _ => message,
    }
}

/// Every frame that a message is carried by decodes, and gives the message
/// as received.
pub proof fn lemma_decode_frame(message: Message)
    ensures
        frame_of(message).len() == message.kind().frame_len(),
        decode(frame_of(message)) == Ok::<Message, ParsingError>(as_received(message)),
{
    let frame = frame_of(message);
    match message {
        Message::Imu(imu) => {
            assert(frame.len() == 73);
            assert(eight_at(frame, 1) =~= imu.accel_x);
            assert(eight_at(frame, 9) =~= imu.accel_y);
            assert(eight_at(frame, 17) =~= imu.accel_z);
            assert(eight_at(frame, 25) =~= imu.gyro_x);
            assert(eight_at(frame, 33) =~= imu.gyro_y);
            assert(eight_at(frame, 41) =~= imu.gyro_z);
            assert(eight_at(frame, 49) =~= imu.compass_x);
            assert(eight_at(frame, 57) =~= imu.compass_y);
            assert(eight_at(frame, 65) =~= imu.compass_z);
        },
        _ => {},
    }
}

/// Round trip: a message that holds nothing but what its frame carries is
/// what decoding its frame gives. That is every `Led`, `Arm` and `Science`,
/// the `Wheels` whose checksum is that of their speeds, and the `Imu`
/// without a temperature.
pub proof fn lemma_round_trip(message: Message)
    requires
        as_received(message) == message,
    ensures
        decode(frame_of(message)) == Ok::<Message, ParsingError>(message),
{
    lemma_decode_frame(message);
}

} // verus!
