use vstd::prelude::*;
use crate::byte_len;
use crate::error::ErrorCode;
use crate::record::MAX_ASSET_ID_LEN;
use crate::record::MAX_NAME_LEN;
use crate::record::MAX_SYMBOL_LEN;
use crate::record::MAX_URI_LEN;

verus! {

/// A request to create a standard token record.
#[derive(Clone, Debug)]
pub struct CreateStandardTokenArgs {
    pub name: String,
    pub symbol: String,
    pub uri: String,
    pub initial_supply: u64,
}

/// A request to create a real-world-asset token record.
///
/// `valuation` and `yield_bps` accept their full representable range;
/// no numeric field is range-checked.
#[derive(Clone, Debug)]
pub struct CreateRwaTokenArgs {
    pub name: String,
    pub symbol: String,
    pub uri: String,
    pub initial_supply: u64,
    pub asset_id: String,
    pub valuation: u64,
    pub yield_bps: u16,
}

/// The outcome of validating a standard-token request: the first text
/// field over its byte-length cap decides, checked in the order name,
/// symbol, uri.
pub open spec fn standard_validation(a: CreateStandardTokenArgs) -> Result<(), ErrorCode> {
    if byte_len(a.name@) > MAX_NAME_LEN {
        Err(ErrorCode::NameTooLong)
    } else if byte_len(a.symbol@) > MAX_SYMBOL_LEN {
        Err(ErrorCode::SymbolTooLong)
    } else if byte_len(a.uri@) > MAX_URI_LEN {
        Err(ErrorCode::UriTooLong)
    } else {
        Ok(())
    }
}

/// The outcome of validating an RWA request: the standard checks, then
/// the asset-id cap.
pub open spec fn rwa_validation(a: CreateRwaTokenArgs) -> Result<(), ErrorCode> {
    if byte_len(a.name@) > MAX_NAME_LEN {
        Err(ErrorCode::NameTooLong)
    } else if byte_len(a.symbol@) > MAX_SYMBOL_LEN {
        Err(ErrorCode::SymbolTooLong)
    } else if byte_len(a.uri@) > MAX_URI_LEN {
        Err(ErrorCode::UriTooLong)
    } else if byte_len(a.asset_id@) > MAX_ASSET_ID_LEN {
        Err(ErrorCode::AssetIdTooLong)
    } else {
        Ok(())
    }
}

/// All text fields of a standard-token request sit within their caps.
pub open spec fn standard_args_valid(a: CreateStandardTokenArgs) -> bool {
    standard_validation(a) is Ok
}

/// All text fields of an RWA request sit within their caps.
pub open spec fn rwa_args_valid(a: CreateRwaTokenArgs) -> bool {
    rwa_validation(a) is Ok
}

impl CreateStandardTokenArgs {
    /// Checks each text field against its byte-length ceiling; the
    /// first failing field decides the error. No side effects.
    pub fn validate_standard(&self) -> (r: Result<(), ErrorCode>)
        ensures
            r == standard_validation(*self),
    {
        if self.name.as_str().as_bytes().len() > MAX_NAME_LEN {
            Err(ErrorCode::NameTooLong)
        } else if self.symbol.as_str().as_bytes().len() > MAX_SYMBOL_LEN {
            Err(ErrorCode::SymbolTooLong)
        } else if self.uri.as_str().as_bytes().len() > MAX_URI_LEN {
            Err(ErrorCode::UriTooLong)
        } else {
            Ok(())
        }
    }
}

impl CreateRwaTokenArgs {
    /// The standard checks plus the asset-id ceiling; the first failing
    /// field decides the error. No side effects.
    pub fn validate_rwa(&self) -> (r: Result<(), ErrorCode>)
        ensures
            r == rwa_validation(*self),
    {
        if self.name.as_str().as_bytes().len() > MAX_NAME_LEN {
            Err(ErrorCode::NameTooLong)
        } else if self.symbol.as_str().as_bytes().len() > MAX_SYMBOL_LEN {
            Err(ErrorCode::SymbolTooLong)
        } else if self.uri.as_str().as_bytes().len() > MAX_URI_LEN {
            Err(ErrorCode::UriTooLong)
        } else if self.asset_id.as_str().as_bytes().len() > MAX_ASSET_ID_LEN {
            Err(ErrorCode::AssetIdTooLong)
        } else {
            Ok(())
        }
    }
}

} // verus!
