use vstd::prelude::*;

verus! {

// Protocol constants. Any two implementations meaning to interoperate on
// the same pad files and passwords must embed these exact values: the salt,
// the IV, the cost parameters and the keystream composition order together
// define the derivation and expansion protocol.

/// Argon2 memory cost in KiB.
pub const ARGON2_MEMORY_COST: u32 = 65536;

/// Argon2 time cost (iterations).
pub const ARGON2_TIME_COST: u32 = 3;

/// Argon2 degree of parallelism.
pub const ARGON2_PARALLELISM: u32 = 1;

/// Pad bytes are produced and written in chunks of this size (1 MiB), so
/// peak memory stays bounded however large the pad is.
pub const CHUNK_SIZE: usize = 1048576;

/// Smallest pad a generation may request, in bytes.
pub const MIN_PAD_SIZE: u64 = 1;

/// Largest pad a generation may request: 5 GiB, in bytes.
pub const MAX_PAD_SIZE: u64 = 5368709120;

/// The fixed path the generation flow writes its pad file to.
pub const OUTPUT_FILENAME: &'static str = "key1.key1";

/// The fixed, non-secret derivation salt (the bytes of "your_salt_here").
pub open spec fn salt_spec() -> Seq<u8> {
    seq![
        121u8, 111u8, 117u8, 114u8, 95u8, 115u8, 97u8, 108u8, 116u8, 95u8, 104u8, 101u8, 114u8,
        101u8,
    ]
}

/// The fixed, non-secret 16-byte IV of the counter-mode generator.
pub open spec fn iv_spec() -> Seq<u8> {
    seq![
        12u8, 85u8, 240u8, 66u8, 171u8, 19u8, 55u8, 129u8, 200u8, 33u8, 147u8, 89u8, 78u8, 123u8,
        211u8, 34u8,
    ]
}

/// The salt as a vector.
pub fn salt_bytes() -> (v: Vec<u8>)
    ensures
        v@ == salt_spec(),
{
    let mut v: Vec<u8> = Vec::new();
    v.push(121);
    v.push(111);
    v.push(117);
    v.push(114);
    v.push(95);
    v.push(115);
    v.push(97);
    v.push(108);
    v.push(116);
    v.push(95);
    v.push(104);
    v.push(101);
    v.push(114);
    v.push(101);
    proof {
        assert(v@ =~= salt_spec());
    }
    v
}

/// The IV as a vector.
pub fn iv_bytes() -> (v: Vec<u8>)
    ensures
        v@ == iv_spec(),
{
    let mut v: Vec<u8> = Vec::new();
    v.push(12);
    v.push(85);
    v.push(240);
    v.push(66);
    v.push(171);
    v.push(19);
    v.push(55);
    v.push(129);
    v.push(200);
    v.push(33);
    v.push(147);
    v.push(89);
    v.push(78);
    v.push(123);
    v.push(211);
    v.push(34);
    proof {
        assert(v@ =~= iv_spec());
    }
    v
}

} // verus!
