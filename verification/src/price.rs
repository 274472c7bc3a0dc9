use vstd::prelude::*;
use crate::errors::WagerError;

verus! {

/// A caller-supplied price counts as usable only when it is present and
/// non-zero; absent, short (already mapped to `None` by the decoder) and
/// zero payloads all count as "absent".
pub open spec fn spec_supplied_usable(supplied: Option<u64>) -> bool {
    match supplied {
        Some(p) => p != 0,
        None => false,
    }
}

/// The one price-resolution policy shared by creation, admission and
/// resolution: a usable caller-supplied price is taken directly and the
/// oracle is not consulted; otherwise the oracle's reading decides, and a
/// feed that could not be loaded or yields no current price fails the
/// operation.
pub open spec fn spec_resolve_price(supplied: Option<u64>, oracle: Option<u64>) -> Result<
    u64,
    WagerError,
> {
    if spec_supplied_usable(supplied) {
        Ok(supplied->Some_0)
    } else {
        match oracle {
            Some(q) => Ok(q),
            None => Err(WagerError::OracleUnavailable),
        }
    }
}

/// True when the resolver will have to consult the oracle: the embedding
/// program queries the feed only in that case and hands the reading in.
pub fn needs_oracle(supplied: &Option<u64>) -> (r: bool)
    ensures
        r == !spec_supplied_usable(*supplied),
{
    match supplied {
        Some(p) => *p == 0,
        None => true,
    }
}

/// Resolve a usable reference price from the caller-supplied field and the
/// oracle reading, if one was taken.
pub fn resolve_price(supplied: Option<u64>, oracle: Option<u64>) -> (r: Result<u64, WagerError>)
    ensures
        r == spec_resolve_price(supplied, oracle),
{
    match supplied {
        Some(p) if p != 0 => Ok(p),
        _ => match oracle {
            Some(q) => Ok(q),
            None => Err(WagerError::OracleUnavailable),
        },
    }
}

} // verus!
