//! The mint configuration store: one immutable record per confidential token
//! type, holding the scheme's opaque public parameters.
use vstd::prelude::*;
use crate::bytes::copy64;
use crate::error::VeilError;

verus! {

/// Length of a mint's opaque scheme parameters.
pub const CONFIG_LEN: usize = 64;

/// The scheme version that this ledger understands, held in the first byte of
/// the configuration blob.
pub const SCHEME_VERSION: u8 = 1;

/// The configuration of one confidential token type: its address on the
/// ledger and the opaque public parameters of its encryption and commitment
/// scheme. Never changed once created.
#[derive(Debug, Clone, Copy)]
pub struct MintConfig {
    pub address: [u8; 32],
    pub cspl_config: [u8; 64],
}

/// A blob passes the header check when it is tagged with a known scheme version.
pub open spec fn config_is_valid(blob: Seq<u8>) -> bool {
    blob.len() == CONFIG_LEN && blob[0] == SCHEME_VERSION
}

/// Header check of a configuration blob.
pub fn check_config(blob: &[u8; 64]) -> (r: bool)
    ensures
        r == config_is_valid(blob@),
{
    blob[0] == SCHEME_VERSION
}

/// Takes a configuration blob from instruction data, which must be exactly
/// `CONFIG_LEN` bytes long.
pub fn decode_config(data: &[u8]) -> (r: Option<[u8; 64]>)
    ensures
        r.is_some() <==> data@.len() == CONFIG_LEN,
        r matches Some(blob) ==> blob@ == data@,
{
    if data.len() != CONFIG_LEN {
        return None;
    }
    let blob = copy64(data, 0);
    assert(data@.subrange(0, 64) =~= data@);
    Some(blob)
}

/// Creates the configuration record of a token type in `slot`, the ledger's
/// storage for it (`None` while it does not exist). An existing record is
/// never overwritten.
pub fn initialize_mint(
    slot: &mut Option<MintConfig>,
    address: [u8; 32],
    cspl_config: [u8; 64],
) -> (r: Result<(), VeilError>)
    ensures
        old(slot).is_some() <==> r == Err::<(), VeilError>(VeilError::AlreadyInitialized),
        (old(slot).is_none() && !config_is_valid(cspl_config@)) <==> r == Err::<(), VeilError>(
            VeilError::InvalidConfig,
        ),
        r.is_ok() <==> (old(slot).is_none() && config_is_valid(cspl_config@)),
        r.is_ok() ==> *final(slot) == Some(MintConfig { address, cspl_config }),
        r.is_err() ==> *final(slot) == *old(slot),
{
    if slot.is_some() {
        return Err(VeilError::AlreadyInitialized);
    }
    if !check_config(&cspl_config) {
        return Err(VeilError::InvalidConfig);
    }
    *slot = Some(MintConfig { address, cspl_config });
    Ok(())
}

} // verus!
