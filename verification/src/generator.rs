use vstd::prelude::*;

use crate::config;
use crate::kdf;
use crate::keystream;
use crate::sizes;

verus! {

/// How a pad generation fails. All kinds are fatal, never retried.
#[derive(Clone, Copy, Debug, PartialEq, Eq, Structural)]
pub enum GenerateError {
    /// The requested total is outside [1 byte, 5 GiB].
    SizeOutOfRange,
    /// The output path already exists; generation never overwrites.
    OutputExists,
    /// The derivation cost parameters are internally inconsistent.
    InvalidCostParams,
    /// The key derivation cannot run on these inputs.
    DerivationFailed,
}

/// Relies on zeroize's `Zeroize` for `Vec<u8>`: overwrites every byte and
/// the spare capacity with zeros, then clears the vector.
#[verifier::external_body]
fn wipe(v: &mut Vec<u8>)
    ensures
        final(v)@.len() == 0,
{
    zeroize::Zeroize::zeroize(v);
}

/// The length of the next chunk a generation hands out: a full chunk, or
/// whatever remains of the budget.
pub open spec fn chunk_len(total: u64, written: u64) -> int {
    if total - written < config::CHUNK_SIZE {
        total - written
    } else {
        config::CHUNK_SIZE as int
    }
}

/// A pad generation in progress: the keystream expander driven under a
/// total-size budget, handing out successive chunks for the caller to
/// stream to disk, so the whole pad is never held in memory.
pub struct PadGenerator {
    expander: keystream::KeystreamExpander,
    total: u64,
    written: u64,
}

impl PadGenerator {
    /// The derived key the pad is expanded from.
    pub closed spec fn key(self) -> Seq<u8> {
        self.expander.key()
    }

    /// The exact number of bytes this generation will produce.
    pub closed spec fn total_size(self) -> u64 {
        self.total
    }

    /// How many pad bytes have been handed out so far.
    pub closed spec fn written(self) -> u64 {
        self.written
    }

    /// Pad byte `i` of this generation.
    pub open spec fn pad_at(self, i: nat) -> u8 {
        keystream::pad_byte(self.key(), config::iv_spec(), i)
    }

    /// The expander stands exactly at the next byte owed, the budget is
    /// within range, and the stream position stays word-aligned until the
    /// final, possibly shorter, chunk.
    pub closed spec fn wf(self) -> bool {
        &&& self.expander.wf()
        &&& self.expander.iv() == config::iv_spec()
        &&& self.expander.pos() == self.written
        &&& self.written <= self.total
        &&& self.total <= config::MAX_PAD_SIZE
        &&& (self.written % 4 == 0 || self.written == self.total)
    }

    /// The next chunk of pad bytes, or `None` once the budget is met. Every
    /// chunk is full-sized except possibly the last, and the bytes continue
    /// the pad stream exactly where the previous chunk ended — chunk
    /// boundaries never change the bytes.
    pub fn next_chunk(&mut self) -> (r: Option<Vec<u8>>)
        requires
            old(self).wf(),
        ensures
            final(self).wf(),
            final(self).key() == old(self).key(),
            final(self).total_size() == old(self).total_size(),
            match r {
                None => old(self).written() == old(self).total_size() && final(self).written()
                    == old(self).written(),
                Some(chunk) => {
                    &&& old(self).written() < old(self).total_size()
                    &&& chunk@.len() == chunk_len(old(self).total_size(), old(self).written())
                    &&& final(self).written() == old(self).written() + chunk@.len()
                    &&& forall|i: int|
                        0 <= i < chunk@.len() ==> chunk@[i] == old(self).pad_at(
                            (old(self).written() + i) as nat,
                        )
                },
            },
    {
        if self.written == self.total {
            return None;
        }
        let remaining = self.total - self.written;
        let n: usize = if remaining < config::CHUNK_SIZE as u64 {
            remaining as usize
        } else {
            config::CHUNK_SIZE
        };
        let chunk = self.expander.next_chunk(n);
        self.written = self.written + n as u64;
        Some(chunk)
    }
}

/// Starts a pad generation: validates the requested size against the
/// [1 byte, 5 GiB] budget, refuses to proceed over an existing output,
/// derives the 32-byte key from the password, seeds the expander with it
/// and erases the key vector before returning. The checks run in this
/// order, each with its own error, exactly when its condition fails.
pub fn begin_generation(
    password: &Vec<u8>,
    salt: &Vec<u8>,
    params: kdf::CostParams,
    value: u64,
    unit: sizes::SizeUnit,
    output_exists: bool,
) -> (r: Result<PadGenerator, GenerateError>)
    ensures
        r == Err::<PadGenerator, GenerateError>(GenerateError::SizeOutOfRange) <==> !sizes::in_range(
            (value * sizes::unit_multiplier(unit)) as nat,
        ),
        r == Err::<PadGenerator, GenerateError>(GenerateError::OutputExists) <==> (sizes::in_range(
            (value * sizes::unit_multiplier(unit)) as nat,
        ) && output_exists),
        r == Err::<PadGenerator, GenerateError>(GenerateError::InvalidCostParams) <==> (
        sizes::in_range((value * sizes::unit_multiplier(unit)) as nat) && !output_exists
            && !kdf::params_valid(params)),
        r == Err::<PadGenerator, GenerateError>(GenerateError::DerivationFailed) <==> (
        sizes::in_range((value * sizes::unit_multiplier(unit)) as nat) && !output_exists
            && kdf::params_valid(params) && !kdf::inputs_valid(password@, salt@)),
        r matches Ok(g) ==> ({
            &&& g.wf()
            &&& g.key() == kdf::argon2id_key(
                password@,
                salt@,
                params.m_cost,
                params.t_cost,
                params.p_cost,
            )
            &&& g.total_size() == value * sizes::unit_multiplier(unit)
            &&& g.written() == 0
        }),
{
    let total = match sizes::requested_size(value, unit) {
        Some(t) => t,
        None => {
            return Err(GenerateError::SizeOutOfRange);
        },
    };
    if output_exists {
        return Err(GenerateError::OutputExists);
    }
    let mut key = match kdf::derive_key(password, salt, params) {
        Ok(k) => k,
        Err(kdf::DeriveError::InvalidCostParams) => {
            return Err(GenerateError::InvalidCostParams);
        },
        Err(kdf::DeriveError::DerivationFailed) => {
            return Err(GenerateError::DerivationFailed);
        },
    };
    let iv = config::iv_bytes();
    let expander = keystream::KeystreamExpander::new(&key, &iv);
    wipe(&mut key);
    Ok(PadGenerator { expander, total, written: 0 })
}

/// Runs a whole generation in memory and returns the pad: exactly
/// `value * unit_multiplier(unit)` bytes, byte `i` being `pad_byte` of the
/// derived key at `i`. This is the generation flow minus the file I/O, so
/// it holds the whole pad in memory; callers with large budgets should
/// stream `PadGenerator::next_chunk` instead.
pub fn generate_pad(
    password: &Vec<u8>,
    salt: &Vec<u8>,
    params: kdf::CostParams,
    value: u64,
    unit: sizes::SizeUnit,
    output_exists: bool,
) -> (r: Result<Vec<u8>, GenerateError>)
    requires
        value * sizes::unit_multiplier(unit) <= usize::MAX,
    ensures
        r matches Ok(pad) ==> ({
            &&& pad@.len() == value * sizes::unit_multiplier(unit)
            &&& forall|i: int|
                0 <= i < pad@.len() ==> pad@[i] == keystream::pad_byte(
                    kdf::argon2id_key(
                        password@,
                        salt@,
                        params.m_cost,
                        params.t_cost,
                        params.p_cost,
                    ),
                    config::iv_spec(),
                    i as nat,
                )
        }),
        r is Ok <==> begin_result_spec(
            password@,
            salt@,
            params,
            (value * sizes::unit_multiplier(unit)) as nat,
            output_exists,
        ) is None,
        r matches Err(e) ==> Some(e) == begin_result_spec(
            password@,
            salt@,
            params,
            (value * sizes::unit_multiplier(unit)) as nat,
            output_exists,
        ),
{
    let mut g = match begin_generation(password, salt, params, value, unit, output_exists) {
        Ok(g) => g,
        Err(e) => {
            return Err(e);
        },
    };
    let mut pad: Vec<u8> = Vec::new();
    while g.written < g.total
        invariant
            g.wf(),
            g.key() == kdf::argon2id_key(
                password@,
                salt@,
                params.m_cost,
                params.t_cost,
                params.p_cost,
            ),
            g.total_size() == value * sizes::unit_multiplier(unit),
            pad@.len() == g.written(),
            g.total <= usize::MAX,
            forall|i: int| 0 <= i < pad@.len() ==> pad@[i] == g.pad_at(i as nat),
        decreases g.total - g.written,
    {
        let r = g.next_chunk();
        match r {
            Some(mut chunk) => {
                pad.append(&mut chunk);
            },
            None => {
                proof {
                    assert(false);
                }
            },
        }
    }
    Ok(pad)
}

/// Which error a generation reports for this request, or `None` when it is
/// owed success.
pub open spec fn begin_result_spec(
    password: Seq<u8>,
    salt: Seq<u8>,
    params: kdf::CostParams,
    total: nat,
    output_exists: bool,
) -> Option<GenerateError> {
    if !sizes::in_range(total) {
        Some(GenerateError::SizeOutOfRange)
    } else if output_exists {
        Some(GenerateError::OutputExists)
    } else if !kdf::params_valid(params) {
        Some(GenerateError::InvalidCostParams)
    } else if !kdf::inputs_valid(password, salt) {
        Some(GenerateError::DerivationFailed)
    } else {
        None
    }
}

} // verus!
