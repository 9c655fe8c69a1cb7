//! Key-management vocabulary shared by the algorithms: OpenSSL's key
//! selection bits and the names of key and provider parameters.

use vstd::prelude::*;
use vstd::string::*;

verus! {

/// `OSSL_KEYMGMT_SELECT_PRIVATE_KEY`.
pub const SELECT_PRIVATE_KEY: i32 = 0x01;
/// `OSSL_KEYMGMT_SELECT_PUBLIC_KEY`.
pub const SELECT_PUBLIC_KEY: i32 = 0x02;
/// `OSSL_KEYMGMT_SELECT_DOMAIN_PARAMETERS`.
pub const SELECT_DOMAIN_PARAMETERS: i32 = 0x04;
/// `OSSL_KEYMGMT_SELECT_OTHER_PARAMETERS`.
pub const SELECT_OTHER_PARAMETERS: i32 = 0x80;
/// `OSSL_KEYMGMT_SELECT_KEYPAIR`: private and public key.
pub const SELECT_KEYPAIR: i32 = 0x03;
/// `OSSL_KEYMGMT_SELECT_ALL_PARAMETERS`.
pub const SELECT_ALL_PARAMETERS: i32 = 0x84;
/// `OSSL_KEYMGMT_SELECT_ALL`.
pub const SELECT_ALL: i32 = 0x87;

/// Whether `selection` names any bit of `mask`.
pub open spec fn selects(selection: i32, mask: i32) -> bool {
    selection & mask != 0
}

/// Whether `selection` names every bit of `mask`.
pub open spec fn selects_all(selection: i32, mask: i32) -> bool {
    selection & mask == mask
}

/// The parameters this library answers or accepts, by their OpenSSL name.
#[derive(Debug, Clone, Copy, PartialEq, Eq, Structural)]
pub enum ParamKey {
    /// `OSSL_PKEY_PARAM_BITS` ("bits").
    Bits,
    /// `OSSL_PKEY_PARAM_MAX_SIZE` ("max-size").
    MaxSize,
    /// `OSSL_PKEY_PARAM_SECURITY_BITS` ("security-bits").
    SecurityBits,
    /// `OSSL_PKEY_PARAM_MANDATORY_DIGEST` ("mandatory-digest").
    MandatoryDigest,
    /// `OSSL_PKEY_PARAM_ENCODED_PUBLIC_KEY` ("encoded-pub-key").
    EncodedPublicKey,
    /// `OSSL_PKEY_PARAM_PUB_KEY` ("pub").
    PublicKey,
    /// `OSSL_PKEY_PARAM_PRIV_KEY` ("priv").
    PrivateKey,
    /// `OSSL_PROV_PARAM_NAME` ("name").
    ProviderName,
    /// `OSSL_PROV_PARAM_VERSION` ("version").
    ProviderVersion,
    /// `OSSL_PROV_PARAM_BUILDINFO` ("buildinfo").
    ProviderBuildInfo,
}

/// The OpenSSL name of a parameter.
pub open spec fn spec_param_name(k: ParamKey) -> Seq<char> {
    match k {
        ParamKey::Bits => "bits"@,
        ParamKey::MaxSize => "max-size"@,
        ParamKey::SecurityBits => "security-bits"@,
        ParamKey::MandatoryDigest => "mandatory-digest"@,
        ParamKey::EncodedPublicKey => "encoded-pub-key"@,
        ParamKey::PublicKey => "pub"@,
        ParamKey::PrivateKey => "priv"@,
        ParamKey::ProviderName => "name"@,
        ParamKey::ProviderVersion => "version"@,
        ParamKey::ProviderBuildInfo => "buildinfo"@,
    }
}

/// The parameter named `n`, if any.
pub open spec fn spec_key_of_name(n: Seq<char>) -> Option<ParamKey> {
    if n == spec_param_name(ParamKey::Bits) {
        Some(ParamKey::Bits)
    } else if n == spec_param_name(ParamKey::MaxSize) {
        Some(ParamKey::MaxSize)
    } else if n == spec_param_name(ParamKey::SecurityBits) {
        Some(ParamKey::SecurityBits)
    } else if n == spec_param_name(ParamKey::MandatoryDigest) {
        Some(ParamKey::MandatoryDigest)
    } else if n == spec_param_name(ParamKey::EncodedPublicKey) {
        Some(ParamKey::EncodedPublicKey)
    } else if n == spec_param_name(ParamKey::PublicKey) {
        Some(ParamKey::PublicKey)
    } else if n == spec_param_name(ParamKey::PrivateKey) {
        Some(ParamKey::PrivateKey)
    } else if n == spec_param_name(ParamKey::ProviderName) {
        Some(ParamKey::ProviderName)
    } else if n == spec_param_name(ParamKey::ProviderVersion) {
        Some(ParamKey::ProviderVersion)
    } else if n == spec_param_name(ParamKey::ProviderBuildInfo) {
        Some(ParamKey::ProviderBuildInfo)
    } else {
        None
    }
}

impl ParamKey {
    /// The OpenSSL name of the parameter.
    pub fn name(self) -> (s: &'static str)
        ensures
            s@ == spec_param_name(self),
    {
        match self {
            ParamKey::Bits => "bits",
            ParamKey::MaxSize => "max-size",
            ParamKey::SecurityBits => "security-bits",
            ParamKey::MandatoryDigest => "mandatory-digest",
            ParamKey::EncodedPublicKey => "encoded-pub-key",
            ParamKey::PublicKey => "pub",
            ParamKey::PrivateKey => "priv",
            ParamKey::ProviderName => "name",
            ParamKey::ProviderVersion => "version",
            ParamKey::ProviderBuildInfo => "buildinfo",
        }
    }

    /// The parameter with OpenSSL name `name`, if it is one of these.
    pub fn from_name(name: &String) -> (k: Option<ParamKey>)
        ensures
            k == spec_key_of_name(name@),
            k matches Some(key) ==> spec_param_name(key) == name@,
            k is None ==> forall|key: ParamKey| spec_param_name(key) != name@,
    {
        let all = [
            ParamKey::Bits,
            ParamKey::MaxSize,
            ParamKey::SecurityBits,
            ParamKey::MandatoryDigest,
            ParamKey::EncodedPublicKey,
            ParamKey::PublicKey,
            ParamKey::PrivateKey,
            ParamKey::ProviderName,
            ParamKey::ProviderVersion,
            ParamKey::ProviderBuildInfo,
        ];
        let mut i: usize = 0;
        while i < 10
            invariant
                0 <= i <= 10,
                all@ == seq![
                    ParamKey::Bits,
                    ParamKey::MaxSize,
                    ParamKey::SecurityBits,
                    ParamKey::MandatoryDigest,
                    ParamKey::EncodedPublicKey,
                    ParamKey::PublicKey,
                    ParamKey::PrivateKey,
                    ParamKey::ProviderName,
                    ParamKey::ProviderVersion,
                    ParamKey::ProviderBuildInfo,
                ],
                forall|j: int| 0 <= j < i ==> spec_param_name(#[trigger] all@[j]) != name@,
            decreases 10 - i,
        {
            let key = all[i];
            let candidate = String::from_str(key.name());
            if candidate == *name {
                return Some(key);
            }
            i = i + 1;
        }
        proof {
            assert forall|key: ParamKey| spec_param_name(key) != name@ by {
                match key {
                    ParamKey::Bits => assert(spec_param_name(all@[0]) != name@),
                    ParamKey::MaxSize => assert(spec_param_name(all@[1]) != name@),
                    ParamKey::SecurityBits => assert(spec_param_name(all@[2]) != name@),
                    ParamKey::MandatoryDigest => assert(spec_param_name(all@[3]) != name@),
                    ParamKey::EncodedPublicKey => assert(spec_param_name(all@[4]) != name@),
                    ParamKey::PublicKey => assert(spec_param_name(all@[5]) != name@),
                    ParamKey::PrivateKey => assert(spec_param_name(all@[6]) != name@),
                    ParamKey::ProviderName => assert(spec_param_name(all@[7]) != name@),
                    ParamKey::ProviderVersion => assert(spec_param_name(all@[8]) != name@),
                    ParamKey::ProviderBuildInfo => assert(spec_param_name(all@[9]) != name@),
                }
            }
        }
        None
    }
}

/// The value a parameter is answered with.
#[derive(Debug, Clone, PartialEq, Eq)]
pub enum ParamValue {
    Int(i32),
    Utf8(&'static str),
    OctetString(Vec<u8>),
}

/// The mathematical value of a [`ParamValue`].
#[verifier::ext_equal]
pub ghost enum ParamValueView {
    Int(i32),
    Utf8(Seq<char>),
    OctetString(Seq<u8>),
}

impl ParamValue {
    pub open spec fn view(&self) -> ParamValueView {
        match self {
            ParamValue::Int(i) => ParamValueView::Int(*i),
            ParamValue::Utf8(s) => ParamValueView::Utf8(s@),
            ParamValue::OctetString(b) => ParamValueView::OctetString(b@),
        }
    }
}

/// An optional parameter value, seen as a value.
pub open spec fn opt_param_view(v: Option<ParamValue>) -> Option<ParamValueView> {
    match v {
        Some(x) => Some(x.view()),
        None => None,
    }
}

/// What to do with one parameter of a request.
#[derive(Debug)]
pub enum ParamAction {
    /// Answer the parameter with this value.
    Answer(ParamValue),
    /// The parameter is not one this object answers: leave it.
    Ignore,
    /// The parameter has no key: the request fails.
    Fail,
}

/// The mathematical value of a [`ParamAction`].
#[verifier::ext_equal]
pub ghost enum ParamActionView {
    Answer(ParamValueView),
    Ignore,
    Fail,
}

impl ParamAction {
    pub open spec fn view(&self) -> ParamActionView {
        match self {
            ParamAction::Answer(v) => ParamActionView::Answer(v.view()),
            ParamAction::Ignore => ParamActionView::Ignore,
            ParamAction::Fail => ParamActionView::Fail,
        }
    }
}

/// An object that answers parameter requests: a key pair or the provider.
pub trait ParamSource {
    /// The value the object answers `key` with, if any.
    spec fn spec_param(&self, key: ParamKey) -> Option<ParamValueView>;

    /// Whether the object is in a state to answer requests.
    spec fn answers_params(&self) -> bool;

    /// The value the object answers `key` with, if any.
    fn get_param(&self, key: ParamKey) -> (v: Option<ParamValue>)
        requires
            self.answers_params(),
        ensures
            opt_param_view(v) == self.spec_param(key),
    ;
}

/// What to do with a requested parameter named `name` (`None`: a parameter
/// without a key): fail on a missing key, answer a known parameter that the
/// object answers, and leave any other.
pub open spec fn spec_param_action<S: ParamSource>(s: S, name: Option<Seq<char>>) -> ParamActionView {
    match name {
        None => ParamActionView::Fail,
        Some(n) => match spec_key_of_name(n) {
            Some(k) => match s.spec_param(k) {
                Some(v) => ParamActionView::Answer(v),
                None => ParamActionView::Ignore,
            },
            None => ParamActionView::Ignore,
        },
    }
}

/// A requested parameter name, seen as characters.
pub open spec fn opt_name_view(name: Option<String>) -> Option<Seq<char>> {
    match name {
        Some(n) => Some(n@),
        None => None,
    }
}

/// What to do with each parameter of a request, in order; the parameters
/// are given by their names (`None` for one without a key). The request is
/// answered by applying the actions in order, failing at the first `Fail`.
pub fn get_params<S: ParamSource>(s: &S, requested: &Vec<Option<String>>) -> (actions: Vec<ParamAction>)
    requires
        s.answers_params(),
    ensures
        actions@.len() == requested@.len(),
        forall|i: int|
            0 <= i < actions@.len() ==> (#[trigger] actions@[i]).view() == spec_param_action(
                *s,
                opt_name_view(requested@[i]),
            ),
{
    let mut actions: Vec<ParamAction> = Vec::new();
    let mut i: usize = 0;
    while i < requested.len()
        invariant
            s.answers_params(),
            i <= requested@.len(),
            actions@.len() == i,
            forall|j: int|
                0 <= j < i ==> (#[trigger] actions@[j]).view() == spec_param_action(
                    *s,
                    opt_name_view(requested@[j]),
                ),
        decreases requested@.len() - i,
    {
        let action = match &requested[i] {
            None => ParamAction::Fail,
            Some(name) => match ParamKey::from_name(name) {
                None => ParamAction::Ignore,
                Some(key) => match s.get_param(key) {
                    Some(v) => ParamAction::Answer(v),
                    None => ParamAction::Ignore,
                },
            },
        };
        actions.push(action);
        i = i + 1;
    }
    actions
}


} // verus!
