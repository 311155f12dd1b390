//! The checksum carried by the frames that have one: the sum of the payload
//! bytes, kept to its low eight bits.

use crate::{Arm, Science, Wheels};
use vstd::prelude::*;

verus! {

/// Sum of `bytes`, without any wraparound.
pub open spec fn byte_sum(bytes: Seq<u8>) -> nat
    decreases bytes.len(),
{
    if bytes.len() == 0 {
        0
    } else {
        byte_sum(bytes.drop_last()) + bytes.last() as nat
    }
}

/// The checksum of a payload: its byte sum modulo 256.
pub open spec fn checksum_of(bytes: Seq<u8>) -> u8 {
    (byte_sum(bytes) % 256) as u8
}

/// Taking one more byte into a sum adds that byte.
pub proof fn lemma_byte_sum_push(bytes: Seq<u8>, byte: u8)
    ensures
        byte_sum(bytes.push(byte)) == byte_sum(bytes) + byte as nat,
{
    assert(bytes.push(byte).drop_last() =~= bytes);
}

/// Replacing the byte at `at` moves the sum by the difference of the two
/// bytes.
pub proof fn lemma_byte_sum_update(bytes: Seq<u8>, at: int, byte: u8)
    requires
        0 <= at < bytes.len(),
    ensures
        byte_sum(bytes.update(at, byte)) == byte_sum(bytes) - bytes[at] as nat + byte as nat,
    decreases bytes.len(),
{
    let changed = bytes.update(at, byte);
    if at == bytes.len() - 1 {
        assert(changed.drop_last() =~= bytes.drop_last());
    } else {
        lemma_byte_sum_update(bytes.drop_last(), at, byte);
        assert(changed.drop_last() =~= bytes.drop_last().update(at, byte));
    }
}

/// Whether `message` holds the checksum of its own payload, which is what
/// [`Checksum::is_checksum_correct`] tells.
pub open spec fn is_intact<const T: usize, M: Checksum<T>>(message: M) -> bool {
    message.stored_checksum() == checksum_of(message.payload())
}

/// One changed byte is always noticed: where a message holds the checksum
/// of its payload, a message with the same checksum and a payload that
/// differs from it in exactly one byte does not.
pub proof fn lemma_single_change_detected<const T: usize, M: Checksum<T>>(
    intact: M,
    changed: M,
    at: int,
)
    requires
        is_intact(intact),
        changed.stored_checksum() == intact.stored_checksum(),
        changed.payload().len() == intact.payload().len(),
        0 <= at < intact.payload().len(),
        changed.payload()[at] != intact.payload()[at],
        forall|i: int|
            0 <= i < intact.payload().len() && i != at ==> changed.payload()[i]
                == intact.payload()[i],
    ensures
        !is_intact(changed),
{
    assert(changed.payload() =~= intact.payload().update(at, changed.payload()[at]));
    lemma_byte_sum_update(intact.payload(), at, changed.payload()[at]);
}

/// A message that travels with a checksum over `T` payload bytes.
pub trait Checksum<const T: usize> {
    /// The bytes that are summed, in wire order.
    spec fn payload(&self) -> Seq<u8>;

    /// The checksum that the message holds.
    spec fn stored_checksum(&self) -> u8;

    /// Creates an array of the bytes that'll be checksummed.
    fn to_checksum_array(&self) -> (bytes: [u8; T])
        ensures
            bytes@ == self.payload(),
    ;

    /// Calculates the checksum of this message.
    fn checksum(&self) -> (sum: u8)
        ensures
            sum == checksum_of(self.payload()),
    {
        let bytes = self.to_checksum_array();
        let mut sum: u32 = 0;
        let mut i: usize = 0;
        while i < T
            invariant
                i <= T,
                bytes@.len() == T,
                sum == byte_sum(bytes@.take(i as int)) % 256,
            decreases T - i,
        {
            proof {
                lemma_byte_sum_push(bytes@.take(i as int), bytes@[i as int]);
                assert(bytes@.take(i as int).push(bytes@[i as int]) =~= bytes@.take(i + 1));
            }
            sum = (sum + bytes[i] as u32) % 256;
            i += 1;
        }
        assert(bytes@.take(T as int) =~= bytes@);
        sum as u8
    }

    /// Check if the checksum is correct.
    fn is_checksum_correct(&self) -> (correct: bool)
        ensures
            correct == (self.stored_checksum() == checksum_of(self.payload())),
    ;
}

impl Checksum<2> for Wheels {
    open spec fn payload(&self) -> Seq<u8> {
        seq![self.left, self.right]
    }

    open spec fn stored_checksum(&self) -> u8 {
        self.checksum
    }

    fn to_checksum_array(&self) -> (bytes: [u8; 2]) {
        let bytes = [self.left, self.right];
        assert(bytes@ =~= self.payload());
        bytes
    }

    fn is_checksum_correct(&self) -> (correct: bool) {
        self.checksum == self.checksum()
    }
}

impl Checksum<6> for Arm {
    open spec fn payload(&self) -> Seq<u8> {
        seq![self.bicep, self.forearm, self.base, self.wrist_pitch, self.wrist_roll, self.claw]
    }

    open spec fn stored_checksum(&self) -> u8 {
        self.checksum
    }

    fn to_checksum_array(&self) -> (bytes: [u8; 6]) {
        let bytes = [
            self.bicep,
            self.forearm,
            self.base,
            self.wrist_pitch,
            self.wrist_roll,
            self.claw,
        ];
        assert(bytes@ =~= self.payload());
        bytes
    }

    fn is_checksum_correct(&self) -> (correct: bool) {
        self.checksum == self.checksum()
    }
}

impl Checksum<5> for Science {
    open spec fn payload(&self) -> Seq<u8> {
        seq![self.big_actuator, self.drill, self.small_actuator, self.test_tubes, self.camera_servo]
    }

    open spec fn stored_checksum(&self) -> u8 {
        self.checksum
    }

    fn to_checksum_array(&self) -> (bytes: [u8; 5]) {
        let bytes = [
            self.big_actuator,
            self.drill,
            self.small_actuator,
            self.test_tubes,
            self.camera_servo,
        ];
        assert(bytes@ =~= self.payload());
        bytes
    }

    fn is_checksum_correct(&self) -> (correct: bool) {
        self.checksum == self.checksum()
    }
}

} // verus!
