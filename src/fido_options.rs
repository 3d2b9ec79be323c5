//! The authenticator options a FIDO device reports, as a fixed record of the
//! option names CTAP 2.1 defines.
use vstd::prelude::*;

verus! {

/// An option name CTAP 2.1 defines.
#[derive(Clone, Copy, Debug, PartialEq, Eq, Structural)]
pub enum FidoOption {
    Plat,
    Rk,
    ClientPin,
    Up,
    Uv,
    PinUvAuthToken,
    LargeBlobs,
    Ep,
    BioEnroll,
    AuthnrCfg,
    CredMgmt,
    CredentialMgmtPreview,
    SetMinPinLength,
    MakeCredUvNotRqd,
    AlwaysUv,
}

/// The option with the given wire name, if it is a known one.
pub open spec fn option_named(n: Seq<char>) -> Option<FidoOption> {
    if n == "plat"@ {
        Some(FidoOption::Plat)
    } else if n == "rk"@ {
        Some(FidoOption::Rk)
    } else if n == "clientPin"@ {
        Some(FidoOption::ClientPin)
    } else if n == "up"@ {
        Some(FidoOption::Up)
    } else if n == "uv"@ {
        Some(FidoOption::Uv)
    } else if n == "pinUvAuthToken"@ {
        Some(FidoOption::PinUvAuthToken)
    } else if n == "largeBlobs"@ {
        Some(FidoOption::LargeBlobs)
    } else if n == "ep"@ {
        Some(FidoOption::Ep)
    } else if n == "bioEnroll"@ {
        Some(FidoOption::BioEnroll)
    } else if n == "authnrCfg"@ {
        Some(FidoOption::AuthnrCfg)
    } else if n == "credMgmt"@ {
        Some(FidoOption::CredMgmt)
    } else if n == "credentialMgmtPreview"@ {
        Some(FidoOption::CredentialMgmtPreview)
    } else if n == "setMinPINLength"@ {
        Some(FidoOption::SetMinPinLength)
    } else if n == "makeCredUvNotRqd"@ {
        Some(FidoOption::MakeCredUvNotRqd)
    } else if n == "alwaysUv"@ {
        Some(FidoOption::AlwaysUv)
    } else {
        None
    }
}

fn is_named(n: &String, name: &str) -> (r: bool)
    ensures
        r == (n@ == name@),
{
    *n == name.to_owned()
}

/// Looks up a known option by its wire name.
pub fn option_from_name(n: &String) -> (r: Option<FidoOption>)
    ensures
        r == option_named(n@),
{
    if is_named(n, "plat") {
        Some(FidoOption::Plat)
    } else if is_named(n, "rk") {
        Some(FidoOption::Rk)
    } else if is_named(n, "clientPin") {
        Some(FidoOption::ClientPin)
    } else if is_named(n, "up") {
        Some(FidoOption::Up)
    } else if is_named(n, "uv") {
        Some(FidoOption::Uv)
    } else if is_named(n, "pinUvAuthToken") {
        Some(FidoOption::PinUvAuthToken)
    } else if is_named(n, "largeBlobs") {
        Some(FidoOption::LargeBlobs)
    } else if is_named(n, "ep") {
        Some(FidoOption::Ep)
    } else if is_named(n, "bioEnroll") {
        Some(FidoOption::BioEnroll)
    } else if is_named(n, "authnrCfg") {
        Some(FidoOption::AuthnrCfg)
    } else if is_named(n, "credMgmt") {
        Some(FidoOption::CredMgmt)
    } else if is_named(n, "credentialMgmtPreview") {
        Some(FidoOption::CredentialMgmtPreview)
    } else if is_named(n, "setMinPINLength") {
        Some(FidoOption::SetMinPinLength)
    } else if is_named(n, "makeCredUvNotRqd") {
        Some(FidoOption::MakeCredUvNotRqd)
    } else if is_named(n, "alwaysUv") {
        Some(FidoOption::AlwaysUv)
    } else {
        None
    }
}

/// The value of each known option; `None` where the device did not report
/// it.
#[derive(Clone, Copy, Debug, PartialEq, Eq, Structural)]
pub struct FidoOptions {
    pub plat: Option<bool>,
    pub rk: Option<bool>,
    pub client_pin: Option<bool>,
    pub up: Option<bool>,
    pub uv: Option<bool>,
    pub pin_uv_auth_token: Option<bool>,
    pub large_blobs: Option<bool>,
    pub ep: Option<bool>,
    pub bio_enroll: Option<bool>,
    pub authnr_cfg: Option<bool>,
    pub cred_mgmt: Option<bool>,
    pub credential_mgmt_preview: Option<bool>,
    pub set_min_pin_length: Option<bool>,
    pub make_cred_uv_not_rqd: Option<bool>,
    pub always_uv: Option<bool>,
}

/// The value the last pair naming `k` gives, as when the pairs are
/// collected into a map.
pub open spec fn reported(pairs: Seq<(String, bool)>, k: FidoOption) -> Option<bool>
    decreases pairs.len(),
{
    if pairs.len() == 0 {
        None
    } else if option_named(pairs.last().0@) == Some(k) {
        Some(pairs.last().1)
    } else {
        reported(pairs.drop_last(), k)
    }
}

impl FidoOptions {
    pub open spec fn value(self, k: FidoOption) -> Option<bool> {
        match k {
            FidoOption::Plat => self.plat,
            FidoOption::Rk => self.rk,
            FidoOption::ClientPin => self.client_pin,
            FidoOption::Up => self.up,
            FidoOption::Uv => self.uv,
            FidoOption::PinUvAuthToken => self.pin_uv_auth_token,
            FidoOption::LargeBlobs => self.large_blobs,
            FidoOption::Ep => self.ep,
            FidoOption::BioEnroll => self.bio_enroll,
            FidoOption::AuthnrCfg => self.authnr_cfg,
            FidoOption::CredMgmt => self.cred_mgmt,
            FidoOption::CredentialMgmtPreview => self.credential_mgmt_preview,
            FidoOption::SetMinPinLength => self.set_min_pin_length,
            FidoOption::MakeCredUvNotRqd => self.make_cred_uv_not_rqd,
            FidoOption::AlwaysUv => self.always_uv,
        }
    }

    /// No option reported.
    pub fn none() -> (o: FidoOptions)
        ensures
            forall|k: FidoOption| o.value(k) is None,
    {
        FidoOptions {
            plat: None,
            rk: None,
            client_pin: None,
            up: None,
            uv: None,
            pin_uv_auth_token: None,
            large_blobs: None,
            ep: None,
            bio_enroll: None,
            authnr_cfg: None,
            cred_mgmt: None,
            credential_mgmt_preview: None,
            set_min_pin_length: None,
            make_cred_uv_not_rqd: None,
            always_uv: None,
        }
    }

    /// Sets one option, leaving the others.
    pub fn set(&mut self, k: FidoOption, v: bool)
        ensures
            final(self).value(k) == Some(v),
            forall|j: FidoOption| j != k ==> final(self).value(j) == old(self).value(j),
    {
        match k {
            FidoOption::Plat => self.plat = Some(v),
            FidoOption::Rk => self.rk = Some(v),
            FidoOption::ClientPin => self.client_pin = Some(v),
            FidoOption::Up => self.up = Some(v),
            FidoOption::Uv => self.uv = Some(v),
            FidoOption::PinUvAuthToken => self.pin_uv_auth_token = Some(v),
            FidoOption::LargeBlobs => self.large_blobs = Some(v),
            FidoOption::Ep => self.ep = Some(v),
            FidoOption::BioEnroll => self.bio_enroll = Some(v),
            FidoOption::AuthnrCfg => self.authnr_cfg = Some(v),
            FidoOption::CredMgmt => self.cred_mgmt = Some(v),
            FidoOption::CredentialMgmtPreview => self.credential_mgmt_preview = Some(v),
            FidoOption::SetMinPinLength => self.set_min_pin_length = Some(v),
            FidoOption::MakeCredUvNotRqd => self.make_cred_uv_not_rqd = Some(v),
            FidoOption::AlwaysUv => self.always_uv = Some(v),
        }
    }

    /// The options of a device's (name, value) list: unknown names are
    /// ignored and a later pair for the same name wins.
    pub fn from_pairs(pairs: &Vec<(String, bool)>) -> (o: FidoOptions)
        ensures
            forall|k: FidoOption| o.value(k) == reported(pairs@, k),
    {
        let mut o = FidoOptions::none();
        let mut i: usize = 0;
        while i < pairs.len()
            invariant
                i <= pairs@.len(),
                forall|k: FidoOption| o.value(k) == reported(pairs@.take(i as int), k),
            decreases pairs@.len() - i,
        {
            assert(pairs@.take(i + 1).drop_last() =~= pairs@.take(i as int));
            assert(pairs@.take(i + 1).last() == pairs@[i as int]);
            if let Some(k) = option_from_name(&pairs[i].0) {
                o.set(k, pairs[i].1);
            }
            i += 1;
        }
        assert(pairs@.take(i as int) =~= pairs@);
        o
    }
}

} // verus!
