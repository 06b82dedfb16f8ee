//! The configuration store: a flash region that holds a four-byte big-endian length and
//! then that many bytes of the archived configuration.

use vstd::prelude::*;

use crate::model::Config;
use crate::{CONFIG_SIZE, FLASH_BLOCK_SIZE};

verus! {

/// Why a configuration could not be loaded or stored.
#[derive(Clone, Copy, Debug, PartialEq, Eq, Structural)]
pub enum ConfigError {
    /// The stored length does not fit the region.
    LengthOverflow,
    /// The bytes do not decode to a configuration within its limits.
    DeserializeFailed,
    /// The blob and its length prefix do not fit the region.
    TooLarge,
}

/// The value of four bytes, most significant first.
pub open spec fn be_u32(b: Seq<u8>) -> int {
    b[0] * 16777216 + b[1] * 65536 + b[2] * 256 + b[3]
}

/// The four bytes of `n`, most significant first.
pub open spec fn be_bytes(n: u32) -> Seq<u8> {
    seq![
        (n / 16777216) as u8,
        ((n / 65536) % 256) as u8,
        ((n / 256) % 256) as u8,
        (n % 256) as u8,
    ]
}

/// Reads a big-endian `u32` from the first four bytes.
pub fn read_be_u32(b: &[u8]) -> (r: u32)
    requires
        b@.len() >= 4,
    ensures
        r == be_u32(b@),
{
    let b0 = b[0] as u32;
    let b1 = b[1] as u32;
    let b2 = b[2] as u32;
    let b3 = b[3] as u32;
    assert(b0 * 16777216 + b1 * 65536 + b2 * 256 + b3 <= 0xffff_ffff) by (nonlinear_arith)
        requires
            b0 <= 255,
            b1 <= 255,
            b2 <= 255,
            b3 <= 255,
    ;
    b0 * 16777216 + b1 * 65536 + b2 * 256 + b3
}

/// The big-endian bytes of `n`.
pub fn write_be_u32(n: u32) -> (r: Vec<u8>)
    ensures
        r@ == be_bytes(n),
{
    let r = vec![
        (n / 16777216) as u8,
        ((n / 65536) % 256) as u8,
        ((n / 256) % 256) as u8,
        (n % 256) as u8,
    ];
    assert(r@ == be_bytes(n));
    r
}

/// Reading back the bytes of a number gives the number.
pub proof fn lemma_be_round_trip(n: u32)
    ensures
        be_u32(be_bytes(n)) == n,
{
    let b = be_bytes(n);
    assert(b[0] == n / 16777216);
    assert(b[1] == (n / 65536) % 256);
    assert(b[2] == (n / 256) % 256);
    assert(b[3] == n % 256);
    assert((n / 16777216) * 16777216 + ((n / 65536) % 256) * 65536 + ((n / 256) % 256) * 256 + n
        % 256 == n) by (nonlinear_arith);
}

/// The end of the erase blocks that cover the first `n` bytes of the region.
pub open spec fn erase_end(n: int) -> int {
    ((n + FLASH_BLOCK_SIZE - 1) / FLASH_BLOCK_SIZE as int) * FLASH_BLOCK_SIZE
}

/// How many erase blocks cover the first `n` bytes: the fewest whose bytes reach `n`.
pub fn erase_blocks_needed(n: usize) -> (r: usize)
    requires
        n <= CONFIG_SIZE,
    ensures
        r == (n + FLASH_BLOCK_SIZE - 1) / FLASH_BLOCK_SIZE as int,
        r * FLASH_BLOCK_SIZE >= n,
        r == 0 || (r - 1) * FLASH_BLOCK_SIZE < n,
{
    (n + FLASH_BLOCK_SIZE - 1) / FLASH_BLOCK_SIZE
}

/// What loading a region gives: the stored bytes, or `LengthOverflow` when the stored
/// length does not fit after the prefix.
pub open spec fn spec_load(region: Seq<u8>) -> Result<Seq<u8>, ConfigError> {
    let n = be_u32(region);
    if n > CONFIG_SIZE - 4 {
        Err(ConfigError::LengthOverflow)
    } else {
        Ok(region.subrange(4, 4 + n))
    }
}

/// The region after storing `bytes`: the length prefix and the bytes, then erased bytes up to
/// the end of the last block touched, and the rest as it was.
pub open spec fn stored_region(old_region: Seq<u8>, bytes: Seq<u8>) -> Seq<u8> {
    let n = 4 + bytes.len() as int;
    Seq::new(
        old_region.len(),
        |i: int|
            if i < 4 {
                be_bytes(bytes.len() as u32)[i]
            } else if i < n {
                bytes[i - 4]
            } else if i < erase_end(n) {
                0xffu8
            } else {
                old_region[i]
            },
    )
}

/// A decoded configuration is valid when it decoded at all and is within its limits.
pub open spec fn is_valid_config(decoded: Option<&Config>) -> bool {
    match decoded {
        Some(c) => c.within_limits(),
        None => false,
    }
}

/// The configuration region of flash, as bytes.
pub struct ConfigFlash {
    pub region: Vec<u8>,
}

impl ConfigFlash {
    pub open spec fn wf(&self) -> bool {
        self.region@.len() == CONFIG_SIZE
    }

    /// Checks what the archive decoder made of a blob: `decoded` is `None` when the blob did
    /// not decode.
    pub fn check_valid_config(decoded: Option<&Config>) -> (r: Result<(), ConfigError>)
        ensures
            is_valid_config(decoded) ==> r == Ok::<(), ConfigError>(()),
            !is_valid_config(decoded) ==> r == Err::<(), ConfigError>(ConfigError::DeserializeFailed),
    {
        match decoded {
            Some(c) => if c.check_limits() {
                Ok(())
            } else {
                Err(ConfigError::DeserializeFailed)
            },
            None => Err(ConfigError::DeserializeFailed),
        }
    }

    /// Wraps the bytes read from the configuration region.
    pub fn new(region: Vec<u8>) -> (r: ConfigFlash)
        requires
            region@.len() == CONFIG_SIZE,
        ensures
            r.wf(),
            r.region@ == region@,
    {
        ConfigFlash { region }
    }

    /// A region that was just erased.
    pub fn erased() -> (r: ConfigFlash)
        ensures
            r.wf(),
            forall|i: int| 0 <= i < CONFIG_SIZE ==> r.region@[i] == 0xffu8,
    {
        let mut region: Vec<u8> = Vec::new();
        while region.len() < CONFIG_SIZE
            invariant
                region@.len() <= CONFIG_SIZE,
                forall|i: int| 0 <= i < region@.len() ==> region@[i] == 0xffu8,
            decreases CONFIG_SIZE - region.len(),
        {
            region.push(0xff);
        }
        ConfigFlash { region }
    }

    /// The archived configuration bytes that the region holds.
    pub fn load_config_bytes_from_flash(&self) -> (r: Result<Vec<u8>, ConfigError>)
        requires
            self.wf(),
        ensures
            match r {
                Ok(b) => spec_load(self.region@) == Ok::<Seq<u8>, ConfigError>(b@),
                Err(e) => spec_load(self.region@) == Err::<Seq<u8>, ConfigError>(e),
            },
    {
        let n = read_be_u32(self.region.as_slice());
        if n as usize > CONFIG_SIZE - 4 {
            return Err(ConfigError::LengthOverflow);
        }
        let n = n as usize;
        let mut out: Vec<u8> = Vec::new();
        let mut i: usize = 0;
        while i < n
            invariant
                self.wf(),
                n <= CONFIG_SIZE - 4,
                i <= n,
                out@ == self.region@.subrange(4, 4 + i),
            decreases n - i,
        {
            out.push(self.region[4 + i]);
            assert(out@ == self.region@.subrange(4, 4 + i + 1));
            i = i + 1;
        }
        Ok(out)
    }

    /// Stores a blob: refuses one that does not fit with its prefix (`TooLarge`) or that
    /// did not decode to a valid configuration (`DeserializeFailed`), touching nothing;
    /// otherwise erases the fewest blocks that cover prefix and blob, and writes both.
    pub fn load_config_bytes_to_flash(&mut self, bytes: &[u8], decoded: Option<&Config>) -> (r:
        Result<(), ConfigError>)
        requires
            old(self).wf(),
        ensures
            final(self).wf(),
            bytes@.len() > CONFIG_SIZE - 4 ==> r == Err::<(), ConfigError>(ConfigError::TooLarge),
            bytes@.len() <= CONFIG_SIZE - 4 && !is_valid_config(decoded) ==> r == Err::<
                (),
                ConfigError,
            >(ConfigError::DeserializeFailed),
            bytes@.len() <= CONFIG_SIZE - 4 && is_valid_config(decoded) ==> r == Ok::<
                (),
                ConfigError,
            >(()),
            r is Err ==> final(self).region@ == old(self).region@,
            r is Ok ==> final(self).region@ == stored_region(old(self).region@, bytes@),
    {
        let size = bytes.len();
        if size > CONFIG_SIZE - 4 {
            return Err(ConfigError::TooLarge);
        }
        match Self::check_valid_config(decoded) {
            Err(e) => return Err(e),
            Ok(()) => {},
        }
        let n = 4 + size;
        let end = erase_blocks_needed(n) * FLASH_BLOCK_SIZE;
        assert(end == erase_end(n as int));
        assert(end <= CONFIG_SIZE) by {
            assert(n <= CONFIG_SIZE);
        }
        let prefix = write_be_u32(size as u32);
        let ghost target = stored_region(old(self).region@, bytes@);
        let mut i: usize = 0;
        while i < end
            invariant
                self.wf(),
                old(self).wf(),
                n == 4 + bytes@.len(),
                n <= CONFIG_SIZE,
                end == erase_end(n as int),
                n <= end <= CONFIG_SIZE,
                prefix@ == be_bytes(bytes@.len() as u32),
                target == stored_region(old(self).region@, bytes@),
                i <= end,
                forall|j: int| 0 <= j < i ==> self.region@[j] == target[j],
                forall|j: int| i <= j < CONFIG_SIZE ==> self.region@[j] == old(self).region@[j],
            decreases end - i,
        {
            let v = if i < 4 {
                prefix[i]
            } else if i < n {
                bytes[i - 4]
            } else {
                0xff
            };
            assert(v == target[i as int]);
            self.region.set(i, v);
            i = i + 1;
        }
        assert(self.region@ == target);
        Ok(())
    }
}

/// Storing a blob that fits and then loading gives the same bytes back, whatever the
/// region held before; the decoder then sees the very blob that was validated.
pub proof fn lemma_store_then_load(old_region: Seq<u8>, bytes: Seq<u8>)
    requires
        old_region.len() == CONFIG_SIZE,
        bytes.len() <= CONFIG_SIZE - 4,
    ensures
        spec_load(stored_region(old_region, bytes)) == Ok::<Seq<u8>, ConfigError>(bytes),
{
    let r = stored_region(old_region, bytes);
    let n = bytes.len() as u32;
    lemma_be_round_trip(n);
    assert(r.subrange(0, 4) == be_bytes(n));
    assert(be_u32(r) == be_u32(be_bytes(n)));
    assert(r.subrange(4, 4 + bytes.len() as int) == bytes);
}

/// The bytes that the flashing tool writes to the configuration region: the big-endian
/// length of the archived configuration, then the archive.
pub fn encode_config(archive: &[u8]) -> (r: Vec<u8>)
    requires
        archive@.len() <= u32::MAX,
    ensures
        r@ == be_bytes(archive@.len() as u32) + archive@,
{
    let mut r = write_be_u32(archive.len() as u32);
    let mut i: usize = 0;
    while i < archive.len()
        invariant
            i <= archive@.len(),
            archive@.len() <= u32::MAX,
            r@ == be_bytes(archive@.len() as u32) + archive@.subrange(0, i as int),
        decreases archive.len() - i,
    {
        r.push(archive[i]);
        assert(archive@.subrange(0, i + 1) == archive@.subrange(0, i as int).push(archive@[i as int]));
        i = i + 1;
    }
    assert(archive@.subrange(0, archive@.len() as int) == archive@);
    r
}

} // verus!
