use vstd::prelude::*;

verus! {

/// Byte-wise XOR of two sequences, over their common prefix.
pub open spec fn xor_bytes(data: Seq<u8>, key: Seq<u8>) -> Seq<u8> {
    Seq::new(
        if data.len() <= key.len() {
            data.len()
        } else {
            key.len()
        },
        |i: int| data[i] ^ key[i],
    )
}

/// How an application fails. Each validation step has its own kind; all are
/// fatal, never retried.
#[derive(Clone, Copy, Debug, PartialEq, Eq, Structural)]
pub enum ApplyError {
    /// The key file is missing or empty.
    EmptyKey,
    /// The data file is missing or empty.
    EmptyData,
    /// The key is shorter than the data it must cover.
    InsufficientKey,
    /// The written output's size differs from the data's.
    SizeMismatch,
}

/// XORs the data against the key, byte for byte over their common prefix.
pub fn xor_process(data: &[u8], key: &[u8]) -> (out: Vec<u8>)
    ensures
        out@ == xor_bytes(data@, key@),
{
    let n = if data.len() <= key.len() {
        data.len()
    } else {
        key.len()
    };
    let mut out: Vec<u8> = Vec::new();
    let mut i: usize = 0;
    while i < n
        invariant
            i <= n,
            n <= data@.len(),
            n <= key@.len(),
            out@.len() == i,
            forall|j: int| 0 <= j < i ==> out@[j] == (data@[j] ^ key@[j]),
        decreases n - i,
    {
        out.push(data[i] ^ key[i]);
        i = i + 1;
    }
    proof {
        assert(out@ =~= xor_bytes(data@, key@));
    }
    out
}

/// Validates and applies a pad to data: the output is `data XOR key` over
/// the whole data. The one-time-pad safety invariant — the key must cover
/// the whole message — is never relaxed. The checks run in order, each
/// with its own error: key non-empty, data non-empty, key at least as long
/// as data.
pub fn apply_pad(data: &[u8], key: &[u8]) -> (r: Result<Vec<u8>, ApplyError>)
    ensures
        r == Err::<Vec<u8>, ApplyError>(ApplyError::EmptyKey) <==> key@.len() == 0,
        r == Err::<Vec<u8>, ApplyError>(ApplyError::EmptyData) <==> (key@.len() > 0 && data@.len()
            == 0),
        r == Err::<Vec<u8>, ApplyError>(ApplyError::InsufficientKey) <==> (key@.len() > 0
            && data@.len() > 0 && key@.len() < data@.len()),
        r is Ok <==> (key@.len() > 0 && data@.len() > 0 && key@.len() >= data@.len()),
        r matches Ok(out) ==> out@ == xor_bytes(data@, key@) && out@.len() == data@.len(),
{
    if key.len() == 0 {
        return Err(ApplyError::EmptyKey);
    }
    if data.len() == 0 {
        return Err(ApplyError::EmptyData);
    }
    if key.len() < data.len() {
        return Err(ApplyError::InsufficientKey);
    }
    Ok(xor_process(data, key))
}

/// The post-write integrity check: the output file's size must equal the
/// data file's. Fails with `SizeMismatch` exactly when they differ.
pub fn verify_sizes(data_size: u64, output_size: u64) -> (r: Result<(), ApplyError>)
    ensures
        r == Ok::<(), ApplyError>(()) <==> data_size == output_size,
        r is Err ==> r == Err::<(), ApplyError>(ApplyError::SizeMismatch),
{
    if data_size == output_size {
        Ok(())
    } else {
        Err(ApplyError::SizeMismatch)
    }
}

/// XOR involution law: applying the same key twice gives the data back,
/// whenever the key covers the data. Encryption and decryption are the
/// same operation.
pub proof fn lemma_xor_involution(data: Seq<u8>, key: Seq<u8>)
    requires
        data.len() <= key.len(),
    ensures
        xor_bytes(xor_bytes(data, key), key) == data,
{
    let c = xor_bytes(data, key);
    assert forall|i: int| 0 <= i < data.len() implies xor_bytes(c, key)[i] == data[i] by {
        let d = data[i];
        let k = key[i];
        assert(((d ^ k) ^ k) == d) by (bit_vector);
    }
    assert(xor_bytes(c, key) =~= data);
}

/// XOR with an all-zero key leaves the data unchanged; equally, an
/// all-zero data block comes out as the pad itself.
pub proof fn lemma_xor_zero(data: Seq<u8>, key: Seq<u8>)
    requires
        data.len() <= key.len(),
        forall|i: int| 0 <= i < data.len() ==> data[i] == 0u8,
    ensures
        xor_bytes(data, key) == key.take(data.len() as int),
{
    assert forall|i: int| 0 <= i < data.len() implies xor_bytes(data, key)[i] == key[i] by {
        let k = key[i];
        assert((0u8 ^ k) == k) by (bit_vector);
    }
    assert(xor_bytes(data, key) =~= key.take(data.len() as int));
}

} // verus!
