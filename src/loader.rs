use vstd::prelude::*;

use crate::config::{header_of, Config, RawHeader, HEADER_BYTES};
use crate::error::LoadError;
use crate::layout::{body_elem_count, body_elems, WeightLayout};

verus! {

/// What a checkpoint's first bytes and its length decide: the model's
/// hyperparameters and where each tensor lies after the header.
#[derive(Debug, Clone, Copy, PartialEq, Eq, Structural)]
pub struct Checkpoint {
    pub config: Config,
    pub layout: WeightLayout,
}

/// Length in bytes of a checkpoint file for configuration `c`.
pub open spec fn expected_file_len(c: Config) -> int {
    HEADER_BYTES + 4 * body_elems(c)
}

/// Why a file that starts with bytes `b` and is `file_len` bytes long cannot
/// be loaded, if it cannot.
pub open spec fn load_fault(b: Seq<u8>, file_len: int) -> Option<LoadError> {
    if b.len() < HEADER_BYTES {
        Some(LoadError::HeaderTruncated { len: b.len() as usize })
    } else if header_of(b).fault() is Some {
        Some(LoadError::InvalidConfig(header_of(b).fault()->Some_0))
    } else if file_len != expected_file_len(header_of(b).to_config()) {
        Some(
            LoadError::SizeMismatch {
                expected: expected_file_len(header_of(b).to_config()) as u128,
                actual: file_len as u64,
            },
        )
    } else {
        None
    }
}

/// Checks that a file of `file_len` bytes holds exactly the tensors of `c`
/// after the header, and lays them out.
pub fn check_file_len(c: &Config, file_len: u64) -> (r: Result<WeightLayout, LoadError>)
    requires
        c.wf(),
    ensures
        r is Ok <==> file_len == expected_file_len(*c),
        r is Ok ==> r->Ok_0.matches(*c),
        r is Err ==> r == Err::<WeightLayout, LoadError>(
            LoadError::SizeMismatch { expected: expected_file_len(*c) as u128, actual: file_len },
        ),
{
    let body = body_elem_count(c);
    let expected: u128 = HEADER_BYTES as u128 + 4 * body;
    if file_len as u128 != expected {
        return Err(LoadError::SizeMismatch { expected, actual: file_len });
    }
    Ok(WeightLayout::new(c))
}

/// Decides from a checkpoint's first bytes and its total length whether it
/// can be loaded, and if so its configuration and tensor layout. `bytes` may
/// hold more than the header; only its first `HEADER_BYTES` are read.
pub fn parse_checkpoint(bytes: &[u8], file_len: u64) -> (r: Result<Checkpoint, LoadError>)
    ensures
        r is Err <==> load_fault(bytes@, file_len as int) is Some,
        r is Err ==> r->Err_0 == load_fault(bytes@, file_len as int)->Some_0,
        r is Ok ==> r->Ok_0.config == header_of(bytes@).to_config() && r->Ok_0.config.wf()
            && r->Ok_0.layout.matches(r->Ok_0.config),
{
    let header = match RawHeader::decode(bytes) {
        Ok(h) => h,
        Err(e) => return Err(e),
    };
    let config = match Config::from_header(header) {
        Ok(c) => c,
        Err(e) => return Err(e),
    };
    match check_file_len(&config, file_len) {
        Ok(layout) => Ok(Checkpoint { config, layout }),
        Err(e) => Err(e),
    }
}

/// A file one byte shorter than its header calls for is refused with a size
/// mismatch, so no tensor of it is ever laid out.
pub proof fn lemma_one_byte_short_rejected(b: Seq<u8>, file_len: int)
    requires
        b.len() >= HEADER_BYTES,
        header_of(b).fault() is None,
        0 <= file_len,
        file_len + 1 == expected_file_len(header_of(b).to_config()),
    ensures
        load_fault(b, file_len) == Some(
            LoadError::SizeMismatch {
                expected: (file_len + 1) as u128,
                actual: file_len as u64,
            },
        ),
{
}

} // verus!
