use vstd::prelude::*;

verus! {

/// The 32-byte key that Argon2id (version 0x13) derives from a password,
/// salt and cost parameters. The derivation is a function of these inputs
/// alone — bit-for-bit reproducible across runs and machines — which is what
/// lets a remembered password regenerate the same pad.
pub uninterp spec fn argon2id_key(
    password: Seq<u8>,
    salt: Seq<u8>,
    m_cost: u32,
    t_cost: u32,
    p_cost: u32,
) -> Seq<u8>;

/// Cost parameters of the key derivation: memory in KiB, iterations, and
/// degree of parallelism.
#[derive(Clone, Copy, Debug, PartialEq, Eq, Structural)]
pub struct CostParams {
    pub m_cost: u32,
    pub t_cost: u32,
    pub p_cost: u32,
}

/// The internal-consistency checks the derivation makes of its cost
/// parameters for a 32-byte output: enough memory for the lanes, at least
/// one iteration, and a parallelism degree within [1, 2^24 - 1].
pub open spec fn params_valid(p: CostParams) -> bool {
    &&& 8 <= p.m_cost
    &&& 8 * p.p_cost <= p.m_cost
    &&& 1 <= p.t_cost
    &&& 1 <= p.p_cost
    &&& p.p_cost <= 0xFFFFFF
}

/// The checks the derivation makes of its other inputs: a salt of 8 to
/// 2^32 - 1 bytes and a password of at most 2^32 - 1 bytes.
pub open spec fn inputs_valid(password: Seq<u8>, salt: Seq<u8>) -> bool {
    &&& password.len() <= 0xFFFF_FFFF
    &&& 8 <= salt.len() <= 0xFFFF_FFFF
}

/// How a key derivation fails. Both kinds are fatal, never retried.
#[derive(Clone, Copy, Debug, PartialEq, Eq, Structural)]
pub enum DeriveError {
    /// The cost parameters are internally inconsistent.
    InvalidCostParams,
    /// The underlying computation cannot run on these inputs.
    DerivationFailed,
}

/// Relies on argon2's `Argon2::hash_password_into` with algorithm Argon2id
/// and version 0x13 (the body also builds the `Params` and `Argon2` values
/// the call needs): fills the 32-byte output deterministically from the
/// password, salt and cost parameters alone. The `requires` repeats every
/// input check that `Params::new` and `hash_password_into` make, under
/// which argon2's source shows the call succeeds.
#[verifier::external_body]
fn argon2id_fill(
    password: &Vec<u8>,
    salt: &Vec<u8>,
    m_cost: u32,
    t_cost: u32,
    p_cost: u32,
    out: &mut Vec<u8>,
)
    requires
        old(out)@.len() == 32,
        8 <= m_cost,
        8 * p_cost <= m_cost,
        1 <= t_cost,
        1 <= p_cost <= 0xFFFFFF,
        password@.len() <= 0xFFFF_FFFF,
        8 <= salt@.len() <= 0xFFFF_FFFF,
    ensures
        final(out)@ == argon2id_key(password@, salt@, m_cost, t_cost, p_cost),
        final(out)@.len() == 32,
{
    let params =
        argon2::Params::new(m_cost, t_cost, p_cost, Some(32)).expect("cost parameters are valid");
    let ctx = argon2::Argon2::new(argon2::Algorithm::Argon2id, argon2::Version::V0x13, params);
    ctx.hash_password_into(password.as_slice(), salt.as_slice(), out.as_mut_slice())
        .expect("inputs are valid");
}

/// Derives the 32-byte secret key for this password, salt and cost
/// parameters. Deterministic: identical inputs always yield identical
/// bytes. Fails with `InvalidCostParams` exactly when the cost parameters
/// are inconsistent, and with `DerivationFailed` exactly when the salt or
/// password is outside what the derivation accepts.
pub fn derive_key(password: &Vec<u8>, salt: &Vec<u8>, params: CostParams) -> (r: Result<
    Vec<u8>,
    DeriveError,
>)
    ensures
        r == Err::<Vec<u8>, DeriveError>(DeriveError::InvalidCostParams) <==> !params_valid(
            params,
        ),
        r == Err::<Vec<u8>, DeriveError>(DeriveError::DerivationFailed) <==> (params_valid(params)
            && !inputs_valid(password@, salt@)),
        r matches Ok(k) ==> k@ == argon2id_key(
            password@,
            salt@,
            params.m_cost,
            params.t_cost,
            params.p_cost,
        ) && k@.len() == 32,
{
    let params_ok = 8 <= params.m_cost && 1 <= params.p_cost && params.p_cost <= 0xFFFFFF
        && params.p_cost <= params.m_cost / 8 && 1 <= params.t_cost;
    if !params_ok {
        return Err(DeriveError::InvalidCostParams);
    }
    let inputs_ok = password.len() <= 0xFFFF_FFFF && 8 <= salt.len() && salt.len() <= 0xFFFF_FFFF;
    if !inputs_ok {
        return Err(DeriveError::DerivationFailed);
    }
    let mut out = crate::keystream::zero_vec(32);
    argon2id_fill(password, salt, params.m_cost, params.t_cost, params.p_cost, &mut out);
    Ok(out)
}

/// Determinism law: the derived key is a function of password, salt and
/// cost parameters alone, so two derivations from identical inputs yield
/// identical bytes.
pub proof fn lemma_derive_deterministic(
    k1: Seq<u8>,
    k2: Seq<u8>,
    password: Seq<u8>,
    salt: Seq<u8>,
    params: CostParams,
)
    requires
        k1 == argon2id_key(password, salt, params.m_cost, params.t_cost, params.p_cost),
        k2 == argon2id_key(password, salt, params.m_cost, params.t_cost, params.p_cost),
    ensures
        k1 == k2,
{
}

} // verus!
