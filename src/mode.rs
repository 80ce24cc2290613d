//! The closed set of proof modes and the per-mode registry.

use vstd::prelude::*;

verus! {

/// Which proof system produced a proof.
#[derive(Clone, Copy, Debug, PartialEq, Eq, Structural)]
pub enum Mode {
    Plonk,
    Groth16,
    Compressed,
}

/// The lower-case tag of a mode, as written in a fixture.
pub open spec fn mode_name(m: Mode) -> Seq<char> {
    match m {
        Mode::Plonk => "plonk"@,
        Mode::Groth16 => "groth16"@,
        Mode::Compressed => "compressed"@,
    }
}

/// The witness value that drives the example computation in each mode: a
/// small one for the single-shard modes, a larger one that forces several
/// shards for the compressed mode.
pub open spec fn witness_of(m: Mode) -> u32 {
    match m {
        Mode::Compressed => 1666667,
        _ => 1000,
    }
}

/// Whether a fixture of this mode carries the public-input buffer.
pub open spec fn exposes_inputs(m: Mode) -> bool {
    m != Mode::Compressed
}

/// The container tag that marks a persisted proof of this mode.
pub open spec fn tag_of(m: Mode) -> u32 {
    match m {
        Mode::Compressed => 1,
        Mode::Plonk => 2,
        Mode::Groth16 => 3,
    }
}

/// The persisted-file name of a mode.
pub open spec fn proof_file_of(m: Mode) -> Seq<char> {
    match m {
        Mode::Plonk => "fibonacci_plonk_proof.bin"@,
        Mode::Groth16 => "fibonacci_groth16_proof.bin"@,
        Mode::Compressed => "fibonacci_compressed_proof.bin"@,
    }
}

/// The fixture-file name of a mode.
pub open spec fn fixture_file_of(m: Mode) -> Seq<char> {
    match m {
        Mode::Plonk => "fibonacci_plonk_proof.json"@,
        Mode::Groth16 => "fibonacci_groth16_proof.json"@,
        Mode::Compressed => "fibonacci_compressed_proof.json"@,
    }
}

impl Mode {
    /// The lower-case tag of the mode.
    pub fn as_str(&self) -> (r: &'static str)
        ensures
            r@ == mode_name(*self),
    {
        match self {
            Mode::Plonk => "plonk",
            Mode::Groth16 => "groth16",
            Mode::Compressed => "compressed",
        }
    }

    /// The tag as an owned string (what `to_string` gives elsewhere).
    pub fn to_string(&self) -> (r: String)
        ensures
            r@ == mode_name(*self),
    {
        String::from_str(self.as_str())
    }

    /// Reads a tag back; `None` for anything but the three tags.
    pub fn from_name(s: &str) -> (r: Option<Mode>)
        ensures
            r matches Some(m) ==> mode_name(m) == s@,
            r is None ==> (forall|m: Mode| mode_name(m) != s@),
    {
        if string_eq(s, "plonk") {
            Some(Mode::Plonk)
        } else if string_eq(s, "groth16") {
            Some(Mode::Groth16)
        } else if string_eq(s, "compressed") {
            Some(Mode::Compressed)
        } else {
            proof {
                assert forall|m: Mode| mode_name(m) != s@ by {
                    match m {
                        Mode::Plonk => {},
                        Mode::Groth16 => {},
                        Mode::Compressed => {},
                    }
                }
            }
            None
        }
    }

    /// The witness value for the example computation.
    pub fn witness_input(self) -> (r: u32)
        ensures
            r == witness_of(self),
    {
        match self {
            Mode::Compressed => 1666667,
            _ => 1000,
        }
    }

    /// Whether fixtures of this mode carry public inputs.
    pub fn exposes_public_inputs(self) -> (r: bool)
        ensures
            r == exposes_inputs(self),
    {
        match self {
            Mode::Compressed => false,
            _ => true,
        }
    }

    /// Whether the persisted form is gzip-compressed.
    pub fn is_compressed(self) -> (r: bool)
        ensures
            r == (self == Mode::Compressed),
    {
        match self {
            Mode::Compressed => true,
            _ => false,
        }
    }

    /// The container tag of the mode.
    pub fn tag(self) -> (r: u32)
        ensures
            r == tag_of(self),
    {
        match self {
            Mode::Compressed => 1,
            Mode::Plonk => 2,
            Mode::Groth16 => 3,
        }
    }

    /// The file name under which a proof of this mode is persisted.
    pub fn proof_file_name(self) -> (r: &'static str)
        ensures
            r@ == proof_file_of(self),
    {
        match self {
            Mode::Plonk => "fibonacci_plonk_proof.bin",
            Mode::Groth16 => "fibonacci_groth16_proof.bin",
            Mode::Compressed => "fibonacci_compressed_proof.bin",
        }
    }

    /// The file name under which the fixture of this mode is written.
    pub fn fixture_file_name(self) -> (r: &'static str)
        ensures
            r@ == fixture_file_of(self),
    {
        match self {
            Mode::Plonk => "fibonacci_plonk_proof.json",
            Mode::Groth16 => "fibonacci_groth16_proof.json",
            Mode::Compressed => "fibonacci_compressed_proof.json",
        }
    }
}

/// Character-wise equality of two strings.
fn string_eq(a: &str, b: &str) -> (r: bool)
    ensures
        r == (a@ == b@),
{
    let n = a.unicode_len();
    if n != b.unicode_len() {
        return false;
    }
    let mut i: usize = 0;
    while i < n
        invariant
            n == a@.len(),
            n == b@.len(),
            i <= n,
            forall|j: int| 0 <= j < i ==> a@[j] == b@[j],
        decreases n - i,
    {
        if a.get_char(i) != b.get_char(i) {
            return false;
        }
        i = i + 1;
    }
    proof {
        assert(a@ =~= b@);
    }
    true
}

} // verus!
