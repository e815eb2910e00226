//! Vesting schedules: validation, unlock arithmetic and byte layout.
use vstd::prelude::*;
use vstd::arithmetic::div_mod::lemma_div_is_ordered;
use vstd::arithmetic::mul::{lemma_mul_inequality, lemma_mul_is_commutative};
use crate::codec::{le_i64, i64_of_le, push_i64, read_i64, lemma_le_roundtrip};
use crate::errors::{custom, ProgramError, RewardsProgramError};

verus! {

/// How an allocation unlocks over time.
#[derive(Clone, Copy, Debug, PartialEq, Eq, Structural)]
pub enum VestingSchedule {
    /// Everything is unlocked at once.
    Immediate {},
    /// Unlocks linearly from `start_ts` to `end_ts`.
    Linear { start_ts: i64, end_ts: i64 },
    /// Nothing before `cliff_ts`, everything from `cliff_ts` on.
    Cliff { cliff_ts: i64 },
    /// Linear from `start_ts` to `end_ts`, but nothing before `cliff_ts`.
    CliffLinear { start_ts: i64, cliff_ts: i64, end_ts: i64 },
}

/// Schedule kinds stored by the legacy vesting recipient account.
#[derive(Clone, Copy, Debug, PartialEq, Eq, Structural)]
pub enum VestingScheduleType {
    Linear,
}

impl VestingScheduleType {
    pub open spec fn spec_from_u8(v: u8) -> Option<VestingScheduleType> {
        if v == 0 {
            Some(VestingScheduleType::Linear)
        } else {
            None
        }
    }

    pub open spec fn spec_to_u8(self) -> u8 {
        match self {
            VestingScheduleType::Linear => 0,
        }
    }

    pub fn from_u8(v: u8) -> (r: Option<VestingScheduleType>)
        ensures
            r == Self::spec_from_u8(v),
    {
        if v == 0 {
            Some(VestingScheduleType::Linear)
        } else {
            None
        }
    }

    pub fn to_u8(&self) -> (r: u8)
        ensures
            r == self.spec_to_u8(),
    {
        match self {
            VestingScheduleType::Linear => 0,
        }
    }
}

/// The amount unlocked by a linear schedule: nothing up to `start_ts`, everything
/// from `end_ts` on, and `total * elapsed / duration` (rounded down) in between.
/// In between, a window whose length does not fit in an `i64` is an overflow.
pub open spec fn spec_linear_unlock(total: u64, start_ts: i64, end_ts: i64, now: i64) -> Result<
    u64,
    ProgramError,
> {
    if now <= start_ts {
        Ok(0)
    } else if now >= end_ts {
        Ok(total)
    } else if end_ts - start_ts > i64::MAX {
        Err(custom(RewardsProgramError::MathOverflow))
    } else {
        Ok((total * (now - start_ts) / (end_ts - start_ts)) as u64)
    }
}

/// The byte width of a field written as a little-endian `i64`.
pub open spec fn i64_at(data: Seq<u8>, off: int) -> i64 {
    i64_of_le(data.subrange(off, off + 8))
}

/// Unlocked amount of a linear window.
pub fn calculate_linear_unlock(total_amount: u64, start_ts: i64, end_ts: i64, current_ts: i64) -> (r:
    Result<u64, ProgramError>)
    ensures
        r == spec_linear_unlock(total_amount, start_ts, end_ts, current_ts),
{
    if current_ts <= start_ts {
        return Ok(0);
    }
    if current_ts >= end_ts {
        return Ok(total_amount);
    }
    let elapsed = match current_ts.checked_sub(start_ts) {
        Some(e) => e as u64,
        None => return Err(ProgramError::Custom(RewardsProgramError::MathOverflow.code())),
    };
    let duration = match end_ts.checked_sub(start_ts) {
        Some(d) => d as u64,
        None => return Err(ProgramError::Custom(RewardsProgramError::MathOverflow.code())),
    };
    let total_128 = total_amount as u128;
    let elapsed_128 = elapsed as u128;
    let duration_128 = duration as u128;
    proof {
        lemma_mul_inequality(elapsed as int, duration as int, total_amount as int);
        lemma_mul_is_commutative(elapsed as int, total_amount as int);
        lemma_mul_is_commutative(duration as int, total_amount as int);
        assert(total_128 * elapsed_128 <= 0xffff_ffff_ffff_ffffu128 * 0xffff_ffff_ffff_ffffu128)
            by (nonlinear_arith)
            requires
                total_128 <= 0xffff_ffff_ffff_ffffu128,
                elapsed_128 <= 0xffff_ffff_ffff_ffffu128,
        ;
    }
    let product = total_128 * elapsed_128;
    let result = product / duration_128;
    proof {
        lemma_unlock_fraction_bound(total_amount as int, elapsed as int, duration as int);
    }
    Ok(result as u64)
}

/// `total * elapsed / duration <= total` when `elapsed <= duration`.
proof fn lemma_unlock_fraction_bound(total: int, elapsed: int, duration: int)
    requires
        0 <= total,
        0 <= elapsed <= duration,
        0 < duration,
    ensures
        0 <= total * elapsed / duration <= total,
{
    lemma_mul_inequality(elapsed, duration, total);
    lemma_mul_is_commutative(elapsed, total);
    lemma_mul_is_commutative(duration, total);
    assert(0 <= total * elapsed) by (nonlinear_arith)
        requires
            0 <= total,
            0 <= elapsed,
    ;
    lemma_div_is_ordered(total * elapsed, total * duration, duration);
    assert(total * duration / duration == total) by (nonlinear_arith)
        requires
            0 < duration,
    ;
    assert(0 <= total * elapsed / duration) by (nonlinear_arith)
        requires
            0 <= total * elapsed,
            0 < duration,
    ;
}

impl VestingSchedule {
    /// Whether the schedule's timestamps are coherent.
    pub open spec fn spec_validate(self) -> Result<(), ProgramError> {
        match self {
            VestingSchedule::Immediate {} => Ok(()),
            VestingSchedule::Linear { start_ts, end_ts } => if end_ts <= start_ts {
                Err(custom(RewardsProgramError::InvalidTimeWindow))
            } else {
                Ok(())
            },
            VestingSchedule::Cliff { cliff_ts } => if cliff_ts <= 0 {
                Err(custom(RewardsProgramError::InvalidCliffTimestamp))
            } else {
                Ok(())
            },
            VestingSchedule::CliffLinear { start_ts, cliff_ts, end_ts } => if end_ts <= start_ts {
                Err(custom(RewardsProgramError::InvalidTimeWindow))
            } else if cliff_ts < start_ts || cliff_ts > end_ts {
                Err(custom(RewardsProgramError::InvalidCliffTimestamp))
            } else {
                Ok(())
            },
        }
    }

    /// Amount of `total` unlocked at `now`.
    pub open spec fn spec_unlocked(self, total: u64, now: i64) -> Result<u64, ProgramError> {
        match self {
            VestingSchedule::Immediate {} => Ok(total),
            VestingSchedule::Linear { start_ts, end_ts } => spec_linear_unlock(
                total,
                start_ts,
                end_ts,
                now,
            ),
            VestingSchedule::Cliff { cliff_ts } => if now < cliff_ts {
                Ok(0)
            } else {
                Ok(total)
            },
            VestingSchedule::CliffLinear { start_ts, cliff_ts, end_ts } => if now < cliff_ts {
                Ok(0)
            } else {
                spec_linear_unlock(total, start_ts, end_ts, now)
            },
        }
    }

    /// The encoding: a tag byte followed by the timestamps, little-endian.
    pub open spec fn spec_bytes(self) -> Seq<u8> {
        match self {
            VestingSchedule::Immediate {} => seq![0u8],
            VestingSchedule::Linear { start_ts, end_ts } => seq![1u8] + le_i64(start_ts) + le_i64(
                end_ts,
            ),
            VestingSchedule::Cliff { cliff_ts } => seq![2u8] + le_i64(cliff_ts),
            VestingSchedule::CliffLinear { start_ts, cliff_ts, end_ts } => seq![3u8] + le_i64(
                start_ts,
            ) + le_i64(cliff_ts) + le_i64(end_ts),
        }
    }

    pub open spec fn spec_byte_len(self) -> nat {
        match self {
            VestingSchedule::Immediate {} => 1,
            VestingSchedule::Linear { .. } => 17,
            VestingSchedule::Cliff { .. } => 9,
            VestingSchedule::CliffLinear { .. } => 25,
        }
    }

    /// Decoding of a schedule at the front of `data`, with the number of bytes it takes.
    pub open spec fn spec_from_bytes(data: Seq<u8>) -> Result<(VestingSchedule, usize), ProgramError> {
        if data.len() == 0 {
            Err(ProgramError::InvalidInstructionData)
        } else if data[0] == 0 {
            Ok((VestingSchedule::Immediate {}, 1))
        } else if data[0] == 1 {
            if data.len() < 17 {
                Err(ProgramError::InvalidInstructionData)
            } else {
                Ok((VestingSchedule::Linear { start_ts: i64_at(data, 1), end_ts: i64_at(data, 9) }, 17))
            }
        } else if data[0] == 2 {
            if data.len() < 9 {
                Err(ProgramError::InvalidInstructionData)
            } else {
                Ok((VestingSchedule::Cliff { cliff_ts: i64_at(data, 1) }, 9))
            }
        } else if data[0] == 3 {
            if data.len() < 25 {
                Err(ProgramError::InvalidInstructionData)
            } else {
                Ok((
                    VestingSchedule::CliffLinear {
                        start_ts: i64_at(data, 1),
                        cliff_ts: i64_at(data, 9),
                        end_ts: i64_at(data, 17),
                    },
                    25,
                ))
            }
        } else {
            Err(custom(RewardsProgramError::InvalidScheduleType))
        }
    }

    /// The last moment at which more can still unlock.
    pub open spec fn spec_end(self) -> i64 {
        match self {
            VestingSchedule::Immediate {} => i64::MIN,
            VestingSchedule::Linear { end_ts, .. } => end_ts,
            VestingSchedule::Cliff { cliff_ts } => cliff_ts,
            VestingSchedule::CliffLinear { end_ts, .. } => end_ts,
        }
    }

    pub fn validate(&self) -> (r: Result<(), ProgramError>)
        ensures
            r == self.spec_validate(),
    {
        match self {
            VestingSchedule::Immediate {} => Ok(()),
            VestingSchedule::Linear { start_ts, end_ts } => {
                if *end_ts <= *start_ts {
                    return Err(ProgramError::Custom(RewardsProgramError::InvalidTimeWindow.code()));
                }
                Ok(())
            },
            VestingSchedule::Cliff { cliff_ts } => {
                if *cliff_ts <= 0 {
                    return Err(ProgramError::Custom(RewardsProgramError::InvalidCliffTimestamp.code()));
                }
                Ok(())
            },
            VestingSchedule::CliffLinear { start_ts, cliff_ts, end_ts } => {
                if *end_ts <= *start_ts {
                    return Err(ProgramError::Custom(RewardsProgramError::InvalidTimeWindow.code()));
                }
                if *cliff_ts < *start_ts || *cliff_ts > *end_ts {
                    return Err(ProgramError::Custom(RewardsProgramError::InvalidCliffTimestamp.code()));
                }
                Ok(())
            },
        }
    }

    pub fn calculate_unlocked(&self, total_amount: u64, current_ts: i64) -> (r: Result<
        u64,
        ProgramError,
    >)
        ensures
            r == self.spec_unlocked(total_amount, current_ts),
    {
        match self {
            VestingSchedule::Immediate {} => Ok(total_amount),
            VestingSchedule::Linear { start_ts, end_ts } => {
                calculate_linear_unlock(total_amount, *start_ts, *end_ts, current_ts)
            },
            VestingSchedule::Cliff { cliff_ts } => {
                if current_ts < *cliff_ts {
                    Ok(0)
                } else {
                    Ok(total_amount)
                }
            },
            VestingSchedule::CliffLinear { start_ts, cliff_ts, end_ts } => {
                if current_ts < *cliff_ts {
                    return Ok(0);
                }
                calculate_linear_unlock(total_amount, *start_ts, *end_ts, current_ts)
            },
        }
    }

    pub fn byte_len(&self) -> (r: usize)
        ensures
            r == self.spec_byte_len(),
            r == self.spec_bytes().len(),
    {
        proof {
            lemma_le_roundtrip();
        }
        match self {
            VestingSchedule::Immediate {} => 1,
            VestingSchedule::Linear { .. } => 17,
            VestingSchedule::Cliff { .. } => 9,
            VestingSchedule::CliffLinear { .. } => 25,
        }
    }

    pub fn to_bytes(&self) -> (r: Vec<u8>)
        ensures
            r@ == self.spec_bytes(),
    {
        let mut data: Vec<u8> = Vec::new();
        match self {
            VestingSchedule::Immediate {} => {
                data.push(0u8);
            },
            VestingSchedule::Linear { start_ts, end_ts } => {
                data.push(1u8);
                push_i64(&mut data, *start_ts);
                push_i64(&mut data, *end_ts);
            },
            VestingSchedule::Cliff { cliff_ts } => {
                data.push(2u8);
                push_i64(&mut data, *cliff_ts);
            },
            VestingSchedule::CliffLinear { start_ts, cliff_ts, end_ts } => {
                data.push(3u8);
                push_i64(&mut data, *start_ts);
                push_i64(&mut data, *cliff_ts);
                push_i64(&mut data, *end_ts);
            },
        }
        data
    }

    /// Writes the encoding at the front of `buf` and returns its length; the
    /// bytes after it are left as they were.
    pub fn write_bytes(&self, buf: &mut [u8]) -> (r: usize)
        requires
            self.spec_byte_len() <= old(buf)@.len(),
        ensures
            r == self.spec_byte_len(),
            final(buf)@ == self.spec_bytes() + old(buf)@.subrange(r as int, old(buf)@.len() as int),
    {
        proof {
            lemma_le_roundtrip();
        }
        match self {
            VestingSchedule::Immediate {} => {
                buf[0] = 0;
                assert(buf@ =~= self.spec_bytes() + old(buf)@.subrange(1, old(buf)@.len() as int));
                1
            },
            VestingSchedule::Linear { start_ts, end_ts } => {
                buf[0] = 1;
                put_i64(buf, 1, *start_ts);
                put_i64(buf, 9, *end_ts);
                assert(buf@ =~= self.spec_bytes() + old(buf)@.subrange(17, old(buf)@.len() as int));
                17
            },
            VestingSchedule::Cliff { cliff_ts } => {
                buf[0] = 2;
                put_i64(buf, 1, *cliff_ts);
                assert(buf@ =~= self.spec_bytes() + old(buf)@.subrange(9, old(buf)@.len() as int));
                9
            },
            VestingSchedule::CliffLinear { start_ts, cliff_ts, end_ts } => {
                buf[0] = 3;
                put_i64(buf, 1, *start_ts);
                put_i64(buf, 9, *cliff_ts);
                put_i64(buf, 17, *end_ts);
                assert(buf@ =~= self.spec_bytes() + old(buf)@.subrange(25, old(buf)@.len() as int));
                25
            },
        }
    }

    pub fn from_bytes(data: &[u8]) -> (r: Result<(VestingSchedule, usize), ProgramError>)
        ensures
            r == Self::spec_from_bytes(data@),
    {
        if data.len() == 0 {
            return Err(ProgramError::InvalidInstructionData);
        }
        let tag = data[0];
        if tag == 0 {
            Ok((VestingSchedule::Immediate {}, 1))
        } else if tag == 1 {
            if data.len() < 17 {
                return Err(ProgramError::InvalidInstructionData);
            }
            let start_ts = read_i64(data, 1);
            let end_ts = read_i64(data, 9);
            Ok((VestingSchedule::Linear { start_ts, end_ts }, 17))
        } else if tag == 2 {
            if data.len() < 9 {
                return Err(ProgramError::InvalidInstructionData);
            }
            let cliff_ts = read_i64(data, 1);
            Ok((VestingSchedule::Cliff { cliff_ts }, 9))
        } else if tag == 3 {
            if data.len() < 25 {
                return Err(ProgramError::InvalidInstructionData);
            }
            let start_ts = read_i64(data, 1);
            let cliff_ts = read_i64(data, 9);
            let end_ts = read_i64(data, 17);
            Ok((VestingSchedule::CliffLinear { start_ts, cliff_ts, end_ts }, 25))
        } else {
            Err(ProgramError::Custom(RewardsProgramError::InvalidScheduleType.code()))
        }
    }
}


/// Reading back the encoding of a schedule, whatever follows it, gives the
/// schedule and the encoding's length.
pub proof fn lemma_schedule_bytes_roundtrip(s: VestingSchedule, rest: Seq<u8>)
    ensures
        VestingSchedule::spec_from_bytes(s.spec_bytes() + rest) == Ok::<(VestingSchedule, usize), ProgramError>((s, s.spec_byte_len() as usize)),
        s.spec_bytes().len() == s.spec_byte_len(),
{
    lemma_le_roundtrip();
    let d = s.spec_bytes() + rest;
    match s {
        VestingSchedule::Immediate {} => {},
        VestingSchedule::Linear { start_ts, end_ts } => {
            assert(d.subrange(1, 9) == le_i64(start_ts));
            assert(d.subrange(9, 17) == le_i64(end_ts));
        },
        VestingSchedule::Cliff { cliff_ts } => {
            assert(d.subrange(1, 9) == le_i64(cliff_ts));
        },
        VestingSchedule::CliffLinear { start_ts, cliff_ts, end_ts } => {
            assert(d.subrange(1, 9) == le_i64(start_ts));
            assert(d.subrange(9, 17) == le_i64(cliff_ts));
            assert(d.subrange(17, 25) == le_i64(end_ts));
        },
    }
}

/// A successful decoding reads exactly the encoding of the schedule it returns.
pub proof fn lemma_schedule_decode_canonical(data: Seq<u8>)
    ensures
        VestingSchedule::spec_from_bytes(data) matches Ok((s, n)) ==> {
            &&& n == s.spec_byte_len()
            &&& n <= data.len()
            &&& data.subrange(0, n as int) == s.spec_bytes()
        },
{
    lemma_le_roundtrip();
    vstd::bytes::lemma_auto_spec_u64_to_from_le_bytes();
    if let Ok((s, n)) = VestingSchedule::spec_from_bytes(data) {
        match s {
            VestingSchedule::Immediate {} => {
                assert(data.subrange(0, 1) =~= seq![0u8]);
            },
            VestingSchedule::Linear { start_ts, end_ts } => {
                lemma_i64_field(data, 1);
                lemma_i64_field(data, 9);
                assert(data.subrange(0, 17) =~= seq![1u8] + data.subrange(1, 9) + data.subrange(9, 17));
            },
            VestingSchedule::Cliff { cliff_ts } => {
                lemma_i64_field(data, 1);
                assert(data.subrange(0, 9) =~= seq![2u8] + data.subrange(1, 9));
            },
            VestingSchedule::CliffLinear { start_ts, cliff_ts, end_ts } => {
                lemma_i64_field(data, 1);
                lemma_i64_field(data, 9);
                lemma_i64_field(data, 17);
                assert(data.subrange(0, 25) =~= seq![3u8] + data.subrange(1, 9) + data.subrange(9, 17)
                    + data.subrange(17, 25));
            },
        }
    }
}

/// Eight bytes are the encoding of the `i64` they decode to.
proof fn lemma_i64_field(data: Seq<u8>, off: int)
    requires
        0 <= off,
        off + 8 <= data.len(),
    ensures
        le_i64(i64_at(data, off)) == data.subrange(off, off + 8),
{
    vstd::bytes::lemma_auto_spec_u64_to_from_le_bytes();
    let b = data.subrange(off, off + 8);
    let u = vstd::bytes::spec_u64_from_le_bytes(b);
    assert(vstd::bytes::spec_u64_to_le_bytes(vstd::bytes::spec_u64_from_le_bytes(b)) == b);
    assert(((u as i64) as u64) == u) by (bit_vector);
}

/// No schedule ever unlocks more than the allocation.
pub proof fn lemma_unlocked_at_most_total(s: VestingSchedule, total: u64, now: i64)
    ensures
        s.spec_unlocked(total, now) matches Ok(u) ==> u <= total,
{
    match s {
        VestingSchedule::Linear { start_ts, end_ts } => {
            lemma_linear_at_most_total(total, start_ts, end_ts, now);
        },
        VestingSchedule::CliffLinear { start_ts, cliff_ts, end_ts } => {
            lemma_linear_at_most_total(total, start_ts, end_ts, now);
        },
        _ => {},
    }
}

proof fn lemma_linear_at_most_total(total: u64, start_ts: i64, end_ts: i64, now: i64)
    ensures
        spec_linear_unlock(total, start_ts, end_ts, now) matches Ok(u) ==> u <= total,
{
    if start_ts < now < end_ts && end_ts - start_ts <= i64::MAX {
        lemma_unlock_fraction_bound(total as int, now - start_ts, end_ts - start_ts);
    }
}

/// Unlocking never goes backwards in time.
pub proof fn lemma_unlocked_monotonic(s: VestingSchedule, total: u64, t1: i64, t2: i64)
    requires
        t1 <= t2,
    ensures
        s.spec_unlocked(total, t1) matches Ok(u1) ==> s.spec_unlocked(total, t2) matches Ok(u2) ==> u1
            <= u2,
{
    lemma_unlocked_at_most_total(s, total, t1);
    lemma_unlocked_at_most_total(s, total, t2);
    match s {
        VestingSchedule::Linear { start_ts, end_ts } => {
            lemma_linear_monotonic(total, start_ts, end_ts, t1, t2);
        },
        VestingSchedule::CliffLinear { start_ts, cliff_ts, end_ts } => {
            lemma_linear_monotonic(total, start_ts, end_ts, t1, t2);
        },
        _ => {},
    }
}

proof fn lemma_linear_monotonic(total: u64, start_ts: i64, end_ts: i64, t1: i64, t2: i64)
    requires
        t1 <= t2,
    ensures
        spec_linear_unlock(total, start_ts, end_ts, t1) matches Ok(u1) ==> spec_linear_unlock(
            total,
            start_ts,
            end_ts,
            t2,
        ) matches Ok(u2) ==> u1 <= u2,
{
    lemma_linear_at_most_total(total, start_ts, end_ts, t1);
    lemma_linear_at_most_total(total, start_ts, end_ts, t2);
    if start_ts < t1 && t2 < end_ts && end_ts - start_ts <= i64::MAX {
        let d = end_ts - start_ts;
        lemma_unlock_fraction_bound(total as int, t1 - start_ts, d);
        lemma_unlock_fraction_bound(total as int, t2 - start_ts, d);
        lemma_mul_inequality(t1 - start_ts, t2 - start_ts, total as int);
        lemma_mul_is_commutative(t1 - start_ts, total as int);
        lemma_mul_is_commutative(t2 - start_ts, total as int);
        lemma_div_is_ordered(total * (t1 - start_ts), total * (t2 - start_ts), d);
    }
}

/// Once a valid schedule has ended, all of the allocation is unlocked.
pub proof fn lemma_fully_unlocked_after_end(s: VestingSchedule, total: u64, now: i64)
    requires
        s.spec_validate() is Ok,
        now >= s.spec_end(),
    ensures
        s.spec_unlocked(total, now) == Ok::<u64, ProgramError>(total),
{
}

/// Nothing is unlocked before a schedule begins.
pub proof fn lemma_nothing_unlocked_before_start(s: VestingSchedule, total: u64, now: i64)
    requires
        s.spec_validate() is Ok,
        match s {
            VestingSchedule::Immediate {} => false,
            VestingSchedule::Linear { start_ts, .. } => now <= start_ts,
            VestingSchedule::Cliff { cliff_ts } => now < cliff_ts,
            VestingSchedule::CliffLinear { start_ts, .. } => now <= start_ts,
        },
    ensures
        s.spec_unlocked(total, now) == Ok::<u64, ProgramError>(0),
{
}

/// Writes `x` little-endian at `buf[off..off + 8]`, leaving the other bytes as they were.
fn put_i64(buf: &mut [u8], off: usize, x: i64)
    requires
        off + 8 <= old(buf)@.len(),
    ensures
        final(buf)@ == old(buf)@.subrange(0, off as int) + le_i64(x) + old(buf)@.subrange(
            off + 8,
            old(buf)@.len() as int,
        ),
{
    let bytes = vstd::bytes::u64_to_le_bytes(#[verifier::truncate] (x as u64));
    let n = buf.len();
    let mut i: usize = 0;
    while i < 8
        invariant
            i <= 8,
            off + 8 <= buf@.len(),
            buf@.len() == old(buf)@.len(),
            buf@.len() == n,
            bytes@ == le_i64(x),
            bytes@.len() == 8,
            forall|k: int| 0 <= k < off ==> buf@[k] == old(buf)@[k],
            forall|k: int| off + 8 <= k < buf@.len() ==> buf@[k] == old(buf)@[k],
            forall|k: int| off <= k < off + i ==> buf@[k] == bytes@[k - off],
            forall|k: int| off + i <= k < off + 8 ==> buf@[k] == old(buf)@[k],
        decreases 8 - i,
    {
        buf[off + i] = bytes[i];
        i = i + 1;
    }
    assert(buf@ =~= old(buf)@.subrange(0, off as int) + le_i64(x) + old(buf)@.subrange(
        off + 8,
        old(buf)@.len() as int,
    ));
}

/// A linear schedule unlocks nothing up to its start, everything from its
/// end, and in between the share of the total that the elapsed part of the
/// window is of the whole window, rounded down.
pub proof fn lemma_linear_unlock_closed_form(total: u64, start: i64, end: i64, now: i64)
    ensures
        now <= start ==> spec_linear_unlock(total, start, end, now) == Ok::<u64, ProgramError>(0),
        now >= end && now > start ==> spec_linear_unlock(total, start, end, now) == Ok::<
            u64,
            ProgramError,
        >(total),
        start < now < end && (end as int) - (start as int) <= i64::MAX ==> {
            &&& spec_linear_unlock(total, start, end, now) == Ok::<u64, ProgramError>(
                ((total as int) * ((now as int) - (start as int)) / ((end as int) - (start as int))) as u64,
            )
            &&& (VestingSchedule::Linear { start_ts: start, end_ts: end }).spec_unlocked(total, now)
                == spec_linear_unlock(total, start, end, now)
        },
{
}

/// Inside a linear window, the unlocked amount is positive as soon as the
/// elapsed share of the total reaches one token, and never exceeds the total.
pub proof fn lemma_linear_unlock_positive(total: u64, start: i64, end: i64, now: i64)
    requires
        start < now < end,
        (end as int) - (start as int) <= i64::MAX,
        (total as int) * ((now as int) - (start as int)) >= (end as int) - (start as int),
    ensures
        spec_linear_unlock(total, start, end, now) matches Ok(u) && 0 < u <= total,
{
    let e = (now as int) - (start as int);
    let d = (end as int) - (start as int);
    lemma_unlock_fraction_bound(total as int, e, d);
    assert((total as int) * e / d >= 1) by (nonlinear_arith)
        requires
            (total as int) * e >= d,
            d > 0,
    ;
}

/// A linear schedule is valid exactly when its window is not empty, whatever
/// its length; an immediate one always is, a cliff exactly when its time is
/// positive, and a linear one with its cliff at the start exactly when its
/// window is not empty.
pub proof fn lemma_linear_schedule_valid_iff_window(start: i64, end: i64)
    ensures
        (VestingSchedule::Linear { start_ts: start, end_ts: end }).spec_validate() == if start < end {
            Ok::<(), ProgramError>(())
        } else {
            Err(custom(RewardsProgramError::InvalidTimeWindow))
        },
        (VestingSchedule::Immediate {}).spec_validate() == Ok::<(), ProgramError>(()),
        (VestingSchedule::Cliff { cliff_ts: start }).spec_validate() is Ok <==> start > 0,
        (VestingSchedule::CliffLinear { start_ts: start, cliff_ts: start, end_ts: end }).spec_validate() is Ok
            <==> start < end,
{
}

/// An immediate schedule unlocks everything at once; a cliff unlocks nothing
/// before its time and everything from it; a linear schedule with a cliff
/// unlocks nothing before the cliff and, from the cliff on, what the linear
/// window alone unlocks.
pub proof fn lemma_other_schedules_unlock(total: u64, start: i64, cliff: i64, end: i64, now: i64)
    ensures
        (VestingSchedule::Immediate {}).spec_unlocked(total, now) == Ok::<u64, ProgramError>(total),
        (VestingSchedule::Cliff { cliff_ts: cliff }).spec_unlocked(total, now) == Ok::<
            u64,
            ProgramError,
        >(if now < cliff { 0 } else { total }),
        now < cliff ==> (VestingSchedule::CliffLinear { start_ts: start, cliff_ts: cliff, end_ts: end })
            .spec_unlocked(total, now) == Ok::<u64, ProgramError>(0),
        now >= cliff ==> (VestingSchedule::CliffLinear { start_ts: start, cliff_ts: cliff, end_ts: end })
            .spec_unlocked(total, now) == (VestingSchedule::Linear { start_ts: start, end_ts: end })
            .spec_unlocked(total, now),
{
}

} // verus!
