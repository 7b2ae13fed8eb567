//! The lock file, which keeps the progress between runs.

use crate::controller::{has_work, Plan, PregenController};
use crate::state::PregenState;
use crate::walk::{first_spot, last_ring, valid, Spot};
use vstd::prelude::*;

verus! {

/// The four bytes of a number below 2 to the 32nd, the least significant first.
pub open spec fn number_bytes(n: nat) -> Seq<u8> {
    seq![
        (n % 256) as u8,
        (n / 256 % 256) as u8,
        (n / 65536 % 256) as u8,
        (n / 16777216 % 256) as u8,
    ]
}

/// The number in the four bytes from a position on.
pub open spec fn number_at(bytes: Seq<u8>, at: int) -> nat {
    (bytes[at] + 256 * bytes[at + 1] + 65536 * bytes[at + 2] + 16777216 * bytes[at + 3]) as nat
}

/// What the lock file holds for a spot.
pub open spec fn encoded(spot: Spot) -> Seq<u8> {
    number_bytes(spot.ring) + number_bytes(spot.index)
}

/// The spot that a lock file is about. What follows the two numbers is ignored.
pub open spec fn decoded(bytes: Seq<u8>) -> Option<Spot> {
    if bytes.len() >= 8 {
        Some(Spot { ring: number_at(bytes, 0), index: number_at(bytes, 4) })
    } else {
        None
    }
}

/// The error of the `bincode` crate.
#[verifier::external_type_specification]
#[verifier::external_body]
pub struct ExBincodeErrorKind(bincode::ErrorKind);

/// Calls `bincode::serialize_into` on a pair and an empty vector. It writes each
/// number in four bytes, the least significant first, and cannot fail: it sets
/// no limit on the size, and writing into a vector does not fail.
#[verifier::external_body]
fn bincode_serialize_pair(pair: (u32, u32)) -> (r: Result<Vec<u8>, Box<bincode::ErrorKind>>)
    ensures
        r is Ok,
        r matches Ok(bytes) ==> bytes@ == number_bytes(pair.0 as nat) + number_bytes(
            pair.1 as nat,
        ),
{
    let mut bytes: Vec<u8> = Vec::new();
    bincode::serialize_into(&mut bytes, &pair).map(|()| bytes)
}

/// Calls `bincode::deserialize_from` for a pair on the bytes. It reads each number
/// from four bytes, the least significant first, fails only if there are fewer
/// bytes than that, and does not look at any further ones.
#[verifier::external_body]
fn bincode_deserialize_pair(bytes: &[u8]) -> (r: Result<(u32, u32), Box<bincode::ErrorKind>>)
    ensures
        r is Ok <==> bytes@.len() >= 8,
        r matches Ok(pair) ==> pair.0 == number_at(bytes@, 0) && pair.1 == number_at(bytes@, 4),
{
    bincode::deserialize_from(bytes)
}

/// The bytes to write to the start of the lock file.
pub fn encode_lock(state: PregenState) -> (bytes: Vec<u8>)
    ensures
        bytes@ == encoded(state@),
{
    bincode_serialize_pair((state.ring(), state.index())).unwrap()
}

/// The state in the bytes of a lock file, if they hold one.
pub fn decode_lock(bytes: &[u8]) -> (state: Option<PregenState>)
    ensures
        state is Some <==> decoded(bytes@) is Some,
        state matches Some(state) ==> decoded(bytes@) == Some(state@),
{
    match bincode_deserialize_pair(bytes) {
        Ok((ring, index)) => Some(PregenState::new(ring, index)),
        Err(_) => None,
    }
}

/// What was found where the lock file is looked for.
#[derive(Debug)]
pub enum LockFile {
    /// There is no lock file.
    Missing,
    /// The lock file cannot be opened.
    Unreadable,
    /// What could be read from the start of the lock file.
    Contents(Vec<u8>),
}

/// How a lock file was understood.
#[derive(Clone, Copy, Debug, PartialEq, Eq, Structural)]
pub enum LockStatus {
    /// There is none.
    Missing,
    /// It could not be opened.
    Unreadable,
    /// It holds no state.
    Undecodable,
    /// It holds a state that is not valid.
    Corrupt,
    /// It holds a valid state.
    Valid,
}

/// How a lock file is understood.
pub open spec fn lock_status(lock: LockFile) -> LockStatus {
    match lock {
        LockFile::Missing => LockStatus::Missing,
        LockFile::Unreadable => LockStatus::Unreadable,
        LockFile::Contents(bytes) => match decoded(bytes@) {
            None => LockStatus::Undecodable,
            Some(spot) => if valid(spot) {
                LockStatus::Valid
            } else {
                LockStatus::Corrupt
            },
        },
    }
}

/// Where to go on with respect to a lock file: where a valid one says, and else
/// at the start.
pub open spec fn resume_spot(lock: LockFile) -> Spot {
    if lock_status(lock) is Valid {
        decoded(lock->0@)->0
    } else {
        first_spot()
    }
}

/// What to do for a radius and a lock file.
#[derive(Clone, Copy, Debug)]
pub struct Preparation {
    /// The controller, unless there is no work to do.
    pub controller: Option<PregenController>,
    /// Whether progress is to be written to the lock file.
    pub overwrite_lock: bool,
    /// How the lock file was understood.
    pub lock: LockStatus,
}

/// Decides where to go on. A lock file that cannot be opened or decoded is left
/// alone. A corrupt one is not taken into account, and is overwritten with the
/// progress from the start on.
pub fn prepare(radius: u32, lock: LockFile) -> (p: Preparation)
    ensures
        p.lock == lock_status(lock),
        p.overwrite_lock == (p.lock is Missing || p.lock is Corrupt || p.lock is Valid),
        p.controller is Some <==> has_work(radius as nat, resume_spot(lock)),
        p.controller matches Some(c) ==> c.wf() && c@ == (Plan {
            spot: resume_spot(lock),
            max_ring: last_ring(radius as nat),
        }),
{
    let (state, found): (Option<PregenState>, LockStatus) = match &lock {
        LockFile::Missing => (None, LockStatus::Missing),
        LockFile::Unreadable => (None, LockStatus::Unreadable),
        LockFile::Contents(bytes) => match decode_lock(bytes.as_slice()) {
            Some(state) => (Some(state), LockStatus::Valid),
            None => (None, LockStatus::Undecodable),
        },
    };
    let overwrite_lock: bool = match found {
        LockStatus::Unreadable | LockStatus::Undecodable => false,
        _ => true,
    };

    match PregenController::new(radius, state) {
        Ok(controller) => Preparation { controller, overwrite_lock, lock: found },
        Err(_) => {
            let controller = match PregenController::new(radius, None) {
                Ok(controller) => controller,
                Err(_) => None,
            };
            Preparation { controller, overwrite_lock, lock: LockStatus::Corrupt }
        },
    }
}

/// Remembers whether the lock file could be written, to tell only about the first of
/// several failures in a row.
#[derive(Clone, Copy, Debug)]
pub struct LockWrites {
    failing: bool,
}

impl LockWrites {
    /// Whether the last attempt to write failed.
    pub closed spec fn failing(self) -> bool {
        self.failing
    }

    /// Nothing has been written yet.
    pub fn new() -> (writes: LockWrites)
        ensures
            !writes.failing(),
    {
        LockWrites { failing: false }
    }

    /// Takes note of an attempt to write. Returns whether to tell about it: the
    /// first of several failures in a row is told about.
    pub fn record(&mut self, written: bool) -> (tell: bool)
        ensures
            final(self).failing() == !written,
            tell == (!written && !old(self).failing()),
    {
        let tell: bool = !written && !self.failing;
        self.failing = !written;
        tell
    }
}

/// Reading a lock file gives back the state that was written to it, whatever
/// longer contents the file had before.
pub proof fn law_lock_gives_back_the_state(spot: Spot, rest: Seq<u8>)
    requires
        spot.ring <= u32::MAX,
        spot.index <= u32::MAX,
    ensures
        decoded(encoded(spot) + rest) == Some(spot),
{
    lemma_number_bytes(spot.ring);
    lemma_number_bytes(spot.index);
}

proof fn lemma_number_bytes(n: nat)
    requires
        n <= u32::MAX,
    ensures
        number_at(number_bytes(n), 0) == n,
{
}

/// A run goes on where the state that was written to its lock file points, if that
/// state is valid, as the states are that a run hands out to be cached.
pub proof fn law_saved_progress_is_resumed(spot: Spot, rest: Seq<u8>, lock: LockFile)
    requires
        spot.ring <= u32::MAX,
        spot.index <= u32::MAX,
        valid(spot),
        lock is Contents,
        lock->0@ == encoded(spot) + rest,
    ensures
        lock_status(lock) is Valid,
        resume_spot(lock) == spot,
{
    law_lock_gives_back_the_state(spot, rest);
}

/// Two states with the same encoding are the same.
pub proof fn law_lock_tells_states_apart(a: Spot, b: Spot)
    requires
        a.ring <= u32::MAX,
        a.index <= u32::MAX,
        b.ring <= u32::MAX,
        b.index <= u32::MAX,
        encoded(a) == encoded(b),
    ensures
        a == b,
{
    law_lock_gives_back_the_state(a, seq![]);
    law_lock_gives_back_the_state(b, seq![]);
}

/// A lock file holds the ring and the index in four bytes each, the least significant
/// first.
pub proof fn law_lock_is_little_endian(spot: Spot)
    requires
        spot.ring <= u32::MAX,
        spot.index <= u32::MAX,
    ensures
        ({
            let b = encoded(spot);
            &&& b.len() == 8
            &&& spot.ring == b[0] + 256 * b[1] + 65536 * b[2] + 16777216 * b[3]
            &&& spot.index == b[4] + 256 * b[5] + 65536 * b[6] + 16777216 * b[7]
        }),
{
    lemma_number_bytes(spot.ring);
    lemma_number_bytes(spot.index);
}

/// A state is read from the first eight bytes and from nothing else, and there is one
/// exactly if there are so many.
pub proof fn law_lock_is_read_from_eight_bytes(bytes: Seq<u8>)
    ensures
        bytes.len() < 8 <==> decoded(bytes) is None,
        decoded(bytes) matches Some(spot) ==> {
            &&& spot.ring == bytes[0] + 256 * bytes[1] + 65536 * bytes[2] + 16777216 * bytes[3]
            &&& spot.index == bytes[4] + 256 * bytes[5] + 65536 * bytes[6] + 16777216 * bytes[7]
        },
{
}

/// Without a lock file a run starts with the first chunk, and there is work for every
/// radius but zero.
pub proof fn law_without_lock_all_is_to_do(lock: LockFile, radius: nat)
    requires
        lock is Missing,
    ensures
        lock_status(lock) == LockStatus::Missing,
        resume_spot(lock) == (Spot { ring: 0, index: 0 }),
        has_work(radius, resume_spot(lock)) <==> radius > 0,
{
}

/// The same holds with a lock file that cannot be opened.
pub proof fn law_with_unreadable_lock_all_is_to_do(lock: LockFile, radius: nat)
    requires
        lock is Unreadable,
    ensures
        lock_status(lock) == LockStatus::Unreadable,
        resume_spot(lock) == (Spot { ring: 0, index: 0 }),
        has_work(radius, resume_spot(lock)) <==> radius > 0,
{
}

/// The same holds with a lock file that is too short to hold a state.
pub proof fn law_with_short_lock_all_is_to_do(lock: LockFile, radius: nat)
    requires
        lock matches LockFile::Contents(bytes) && bytes@.len() < 8,
    ensures
        lock_status(lock) == LockStatus::Undecodable,
        resume_spot(lock) == (Spot { ring: 0, index: 0 }),
        has_work(radius, resume_spot(lock)) <==> radius > 0,
{
}

/// The same holds with a lock file whose index is none of its ring's, of which ring
/// `r` has `8 r + 4`.
pub proof fn law_with_corrupt_lock_all_is_to_do(lock: LockFile, radius: nat)
    requires
        lock matches LockFile::Contents(bytes) && bytes@.len() >= 8 && number_at(bytes@, 4) >= 8
            * number_at(bytes@, 0) + 4,
    ensures
        lock_status(lock) == LockStatus::Corrupt,
        resume_spot(lock) == (Spot { ring: 0, index: 0 }),
        has_work(radius, resume_spot(lock)) <==> radius > 0,
{
}

/// With a lock file whose index is one of its ring's, a run starts there, and there is
/// work exactly for a radius that reaches beyond the rings before.
pub proof fn law_with_valid_lock_the_rest_is_to_do(lock: LockFile, radius: nat)
    requires
        lock matches LockFile::Contents(bytes) && bytes@.len() >= 8 && number_at(bytes@, 4) < 8
            * number_at(bytes@, 0) + 4,
    ensures
        lock_status(lock) == LockStatus::Valid,
        lock matches LockFile::Contents(bytes) ==> resume_spot(lock) == (Spot {
            ring: number_at(bytes@, 0),
            index: number_at(bytes@, 4),
        }),
        has_work(radius, resume_spot(lock)) <==> radius > 16 * resume_spot(lock).ring,
{
}

/// The lock file is overwritten if there is none or if it holds a state, valid or not,
/// and is left alone if it cannot be opened or is too short to hold a state.
pub proof fn law_unread_lock_is_left_alone(radius: u32, lock: LockFile, p: Preparation)
    requires
        call_ensures(prepare, (radius, lock), p),
    ensures
        lock is Missing ==> p.overwrite_lock,
        lock is Unreadable ==> !p.overwrite_lock,
        lock matches LockFile::Contents(bytes) ==> (p.overwrite_lock <==> bytes@.len() >= 8),
{
}

/// What is prepared without a lock file, or with one that is not valid, is the whole
/// pregeneration of the radius, if that is not zero.
pub proof fn law_all_is_prepared_without_valid_lock(radius: u32, lock: LockFile, p: Preparation)
    requires
        call_ensures(prepare, (radius, lock), p),
        lock matches LockFile::Contents(bytes) ==> bytes@.len() < 8 || number_at(bytes@, 4) >= 8
            * number_at(bytes@, 0) + 4,
    ensures
        p.controller is Some <==> radius > 0,
        p.controller matches Some(c) ==> {
            &&& c@.spot == (Spot { ring: 0, index: 0 })
            &&& 16 * c@.max_ring < radius <= 16 * (c@.max_ring + 1)
        },
{
}

/// What is prepared with the lock file that a state was written to, whatever the file
/// held behind it, is the pregeneration of the radius from that state on.
pub proof fn law_rest_is_prepared_with_valid_lock(
    radius: u32,
    state: PregenState,
    written: Vec<u8>,
    rest: Seq<u8>,
    lock: LockFile,
    p: Preparation,
)
    requires
        state@.ring <= u32::MAX,
        state@.index <= u32::MAX,
        state@.index < 8 * state@.ring + 4,
        call_ensures(encode_lock, (state,), written),
        lock is Contents,
        lock->0@ == written@ + rest,
        call_ensures(prepare, (radius, lock), p),
    ensures
        p.overwrite_lock,
        p.controller is Some <==> radius > 16 * state@.ring,
        p.controller matches Some(c) ==> {
            &&& c@.spot == state@
            &&& 16 * c@.max_ring < radius <= 16 * (c@.max_ring + 1)
        },
{
    law_saved_progress_is_resumed(state@, rest, lock);
}

/// What is decoded from the bytes that a state was encoded to, and from any bytes that
/// go on behind them, is that state.
pub proof fn law_decoding_undoes_encoding(
    state: PregenState,
    written: Vec<u8>,
    rest: Seq<u8>,
    bytes: &[u8],
    read: Option<PregenState>,
)
    requires
        state@.ring <= u32::MAX,
        state@.index <= u32::MAX,
        call_ensures(encode_lock, (state,), written),
        bytes@ == written@ + rest,
        call_ensures(decode_lock, (bytes,), read),
    ensures
        written@.len() == 8,
        read matches Some(s) && s@ == state@,
{
    law_lock_gives_back_the_state(state@, rest);
}

} // verus!
