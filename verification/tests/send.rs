use feedback::error::{ParsingError, SendError};
use feedback::parse::{parse, Message};
use feedback::send::{
    arm_frame, encode, imu_frame, led_frame, science_frame, sent, wheels_frame,
};
use feedback::{Arm, Imu, Led, Science, Wheels};

fn sample_imu() -> Imu {
    Imu {
        accel_x: 1.0241_f64.to_ne_bytes(),
        accel_y: 5.135_f64.to_ne_bytes(),
        accel_z: 0.153_f64.to_ne_bytes(),
        gyro_x: 0.01523_f64.to_ne_bytes(),
        gyro_y: 0.6241_f64.to_ne_bytes(),
        gyro_z: 0.1_f64.to_ne_bytes(),
        compass_x: 310_f64.to_ne_bytes(),
        compass_y: 162.1_f64.to_ne_bytes(),
        compass_z: 9.15602_f64.to_ne_bytes(),
        temp_c: Imu::TEMP_C_ABSENT,
    }
}

#[test]
fn red_led_frame() {
    let lights = Led { red: 255, green: 0, blue: 0 };
    let frame = led_frame(&lights).expect("the frame of the lights is valid");
    assert_eq!(frame, [0x01, 0x02, 0xFF, 0x00, 0x00]);
    assert_eq!(parse(&[0x01, 0x02, 0xFF, 0x00, 0x00]), Ok(Message::Led(lights)));
    assert_eq!(parse(&frame), Ok(Message::Led(lights)));
    assert_eq!(encode(&Message::Led(lights)).unwrap(), vec![0x01, 0x02, 0xFF, 0x00, 0x00]);
}

#[test]
fn wheels_frame_holds_speeds_and_checksum() {
    let frame = wheels_frame(&Wheels::new(200, 100)).unwrap();
    assert_eq!(frame, [0x01, 0x01, 200, 100, 44]);
    // a checksum given by hand goes out as it is
    let frame = wheels_frame(&Wheels::with_checksum(200, 100, 7)).unwrap();
    assert_eq!(frame, [0x01, 0x01, 200, 100, 7]);
}

#[test]
fn arm_frame_holds_joints_and_checksum() {
    let frame = arm_frame(&Arm::new(10, 20, 30, 40, 50, 60)).unwrap();
    assert_eq!(frame, [0x02, 10, 20, 30, 40, 50, 60, 210]);
    let frame = arm_frame(&Arm::with_checksum(1, 2, 3, 4, 5, 6, 0)).unwrap();
    assert_eq!(frame, [0x02, 1, 2, 3, 4, 5, 6, 0]);
}

#[test]
fn science_frame_holds_fields_and_checksum() {
    let frame = science_frame(&Science::new(1, 2, 3, 4, 5)).unwrap();
    assert_eq!(frame, [0x03, 1, 2, 3, 4, 5, 15]);
    let frame = science_frame(&Science::with_checksum(9, 8, 7, 6, 5, 4)).unwrap();
    assert_eq!(frame, [0x03, 9, 8, 7, 6, 5, 4]);
}

#[test]
fn imu_frame_holds_the_readings_in_order() {
    let frame = imu_frame(&sample_imu()).unwrap();
    let mut expected = vec![0x04];
    for reading in [1.0241_f64, 5.135, 0.153, 0.01523, 0.6241, 0.1, 310.0, 162.1, 9.15602] {
        expected.extend_from_slice(&reading.to_ne_bytes());
    }
    assert_eq!(frame.len(), 73);
    assert_eq!(frame.to_vec(), expected);
}

#[test]
fn imu_frame_does_not_carry_the_temperature() {
    let warm = Imu { temp_c: 21.5_f64.to_ne_bytes(), ..sample_imu() };
    assert_eq!(imu_frame(&warm).unwrap(), imu_frame(&sample_imu()).unwrap());
    assert_eq!(parse(&imu_frame(&warm).unwrap()), Ok(Message::Imu(sample_imu())));
}

#[test]
fn encode_gives_the_frame_of_each_variant() {
    let wheels = Wheels::new(3, 4);
    assert_eq!(encode(&Message::Wheels(wheels)).unwrap(), wheels_frame(&wheels).unwrap().to_vec());
    let arm = Arm::new(1, 2, 3, 4, 5, 6);
    assert_eq!(encode(&Message::Arm(arm)).unwrap(), arm_frame(&arm).unwrap().to_vec());
    let science = Science::new(1, 2, 3, 4, 5);
    assert_eq!(
        encode(&Message::Science(science)).unwrap(),
        science_frame(&science).unwrap().to_vec()
    );
    let imu = sample_imu();
    assert_eq!(encode(&Message::Imu(imu)).unwrap(), imu_frame(&imu).unwrap().to_vec());
    assert_eq!(encode(&Message::Wheels(wheels)).unwrap().len(), 5);
    assert_eq!(encode(&Message::Arm(arm)).unwrap().len(), 8);
    assert_eq!(encode(&Message::Science(science)).unwrap().len(), 7);
    assert_eq!(encode(&Message::Imu(imu)).unwrap().len(), 73);
}

#[test]
fn round_trip_of_each_variant() {
    let messages = [
        Message::Wheels(Wheels::new(200, 100)),
        Message::Wheels(Wheels::new(0, 0)),
        Message::Led(Led { red: 255, green: 0, blue: 0 }),
        Message::Led(Led { red: 1, green: 2, blue: 3 }),
        Message::Arm(Arm::new(10, 20, 30, 40, 50, 60)),
        Message::Arm(Arm::with_checksum(10, 20, 30, 40, 50, 60, 0)),
        Message::Science(Science::new(1, 2, 3, 4, 5)),
        Message::Science(Science::with_checksum(1, 2, 3, 4, 5, 250)),
        Message::Imu(sample_imu()),
    ];
    for message in messages {
        let frame = encode(&message).expect("a built frame is valid");
        assert_eq!(parse(&frame), Ok(message));
    }
}

#[test]
fn round_trip_of_all_wheels() {
    for left in 0..=255u8 {
        for right in 0..=255u8 {
            let message = Message::Wheels(Wheels::new(left, right));
            assert_eq!(parse(&encode(&message).unwrap()), Ok(message));
        }
    }
}

#[test]
fn wheels_with_a_wrong_checksum_come_back_corrected() {
    let sent_out = Wheels::with_checksum(200, 100, 7);
    let frame = encode(&Message::Wheels(sent_out)).unwrap();
    assert_eq!(frame, vec![0x01, 0x01, 200, 100, 7]);
    assert_eq!(parse(&frame), Ok(Message::Wheels(Wheels::new(200, 100))));
    assert_ne!(parse(&frame), Ok(Message::Wheels(sent_out)));
}

#[test]
fn sent_drops_the_count_and_keeps_the_error() {
    assert!(matches!(sent(Ok(5)), Ok(())));
    assert!(matches!(sent(Ok(0)), Ok(())));
    let refused = std::io::Error::new(std::io::ErrorKind::ConnectionRefused, "nobody home");
    match sent(Err(refused)) {
        Err(SendError::SocketError(error)) => {
            assert_eq!(error.kind(), std::io::ErrorKind::ConnectionRefused);
            assert_eq!(format!("{error}"), "nobody home");
        }
        other => panic!("expected the error of the socket, got {other:?}"),
    }
}

#[test]
fn send_error_from_its_causes() {
    assert!(matches!(
        SendError::from(ParsingError::NoEboxPart),
        SendError::MessageFailedValidation(ParsingError::NoEboxPart)
    ));
    assert!(matches!(
        SendError::from(ParsingError::InvalidSubsystem(9)),
        SendError::MessageFailedValidation(ParsingError::InvalidSubsystem(9))
    ));
    let timed_out = std::io::Error::new(std::io::ErrorKind::TimedOut, "too slow");
    match SendError::from(timed_out) {
        SendError::SocketError(error) => assert_eq!(error.kind(), std::io::ErrorKind::TimedOut),
        other => panic!("expected the error of the socket, got {other:?}"),
    }
}

#[test]
fn parsing_errors_compare_by_what_they_hold() {
    assert_eq!(ParsingError::MalformedMessage, ParsingError::MalformedMessage);
    assert_ne!(ParsingError::InvalidSubsystem(1), ParsingError::InvalidSubsystem(2));
    assert_ne!(ParsingError::ZeroLengthSlice, ParsingError::NoEboxPart);
    assert!(ParsingError::ZeroLengthSlice < ParsingError::InvalidSubsystem(0));
    assert!(ParsingError::InvalidSubsystem(1) < ParsingError::InvalidSubsystem(2));
    let copied = ParsingError::InvalidSubsystem(3);
    let kept = copied;
    assert_eq!(copied, kept);
}
