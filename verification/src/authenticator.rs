//! Endpoints of the Xbox Live authentication services.
use vstd::prelude::*;

verus! {

/// Authentication related constants.
#[derive(Clone, Copy, Debug)]
pub struct Constants;

impl Constants {
    /// Xbox Sisu authorization endpoint.
    pub const XBOX_SISU_AUTHORIZE_URL: &'static str = "https://sisu.xboxlive.com/authorize";

    /// Xbox Device Authentication endpoint (XASD token).
    pub const XBOX_DEVICE_AUTH_URL: &'static str = "https://device.auth.xboxlive.com/device/authenticate";

    /// Xbox Service Authorization endpoint (XSTS token).
    pub const XBOX_XSTS_AUTH_URL: &'static str = "https://xsts.auth.xboxlive.com/xsts/authorize";

    /// Relying party of Xbox Live authentication.
    pub const RELYING_PARTY_AUTH_XBOXLIVE: &'static str = "http://auth.xboxlive.com";
}

} // verus!
