//! One instance of the provider, as OpenSSL loads it: its name, version and
//! build description, which it answers as provider parameters, and the
//! registry of its adapters.

use vstd::prelude::*;
use crate::adapters::{
    all_algorithms, all_capabilities, all_obj_sigids, spec_capability_registrations, spec_finalize_algorithms,
    spec_register_all, AdapterContextTrait, FinalizedAdaptersHandle,
};
use crate::built_info::{PROV_NAME, PROV_VER};
use crate::error::Error;
use crate::random::provider_rng;
use rand::rngs::ThreadRng;
use crate::keymgmt::{ParamKey, ParamSource, ParamValue, ParamValueView};

verus! {

/// One loaded instance of the provider.
pub struct ProviderInstance<C, A, P> {
    pub name: &'static str,
    pub version: &'static str,
    pub build_info: &'static str,
    pub adapters_ctx: FinalizedAdaptersHandle<C, A, P>,
}

impl<C, A, P> ProviderInstance<C, A, P> {
    /// A provider instance named [`PROV_NAME`], of version [`PROV_VER`],
    /// described by `build_info`, with the registry filled by `adapters`
    /// (see [`FinalizedAdaptersHandle::new`]): it fails only where an
    /// adapter fails, so with no adapters it is owed, with empty tables.
    pub fn new(adapters: Vec<C>, end: A, build_info: &'static str) -> (r: Result<Self, Error>)
        where
            C: AdapterContextTrait<A, P>,
            A: Copy,
        ensures
            r matches Ok(p) ==> {
                &&& p.name == PROV_NAME
                &&& p.version == PROV_VER
                &&& p.build_info == build_info
                &&& p.adapters_ctx.wf()
                &&& p.adapters_ctx.contexts() == adapters@
                &&& p.adapters_ctx.algorithms() == spec_finalize_algorithms(
                    spec_register_all(Map::<u32, Seq<A>>::empty(), all_algorithms::<C, A, P>(adapters@)),
                    end,
                )
                &&& forall|name: Seq<char>| #[trigger] p.adapters_ctx.capabilities(name)
                    == spec_capability_registrations(all_capabilities::<C, A, P>(adapters@), name)
                &&& p.adapters_ctx.obj_sigids() == all_obj_sigids::<C, A, P>(adapters@)
            },
            adapters@.len() == 0 ==> (r matches Ok(p) && p.name == PROV_NAME && p.version == PROV_VER
                && p.build_info == build_info && p.adapters_ctx.algorithms() == Map::<u32, Seq<A>>::empty()
                && (forall|name: Seq<char>| #[trigger] p.adapters_ctx.capabilities(name) == Seq::<P>::empty())
                && p.adapters_ctx.obj_sigids() == Seq::<crate::adapters::ObjSigId>::empty()),
    {
        let adapters_ctx = match FinalizedAdaptersHandle::new(adapters, end) {
            Ok(a) => a,
            Err(e) => {
                return Err(e);
            },
        };
        Ok(ProviderInstance { name: PROV_NAME, version: PROV_VER, build_info, adapters_ctx })
    }

    /// The name of the provider.
    pub fn c_prov_name(&self) -> (s: &'static str)
        ensures
            s == self.name,
    {
        self.name
    }

    /// The version of the provider.
    pub fn c_prov_version(&self) -> (s: &'static str)
        ensures
            s == self.version,
    {
        self.version
    }

    /// The build description of the provider.
    pub fn c_prov_buildinfo(&self) -> (s: &'static str)
        ensures
            s == self.build_info,
    {
        self.build_info
    }

    /// The random number generator of this instance: the thread-local
    /// generator of `rand`. Nothing is claimed of its output.
    pub fn get_rng(&self) -> ThreadRng {
        provider_rng()
    }

    /// The provider parameters a request may ask for.
    pub fn gettable_params() -> (v: Vec<ParamKey>)
        ensures
            v@ == seq![ParamKey::ProviderName, ParamKey::ProviderVersion, ParamKey::ProviderBuildInfo],
    {
        vec![ParamKey::ProviderName, ParamKey::ProviderVersion, ParamKey::ProviderBuildInfo]
    }
}

impl<C, A, P> ParamSource for ProviderInstance<C, A, P> {
    /// The name, version and build description, as UTF-8 strings.
    open spec fn spec_param(&self, key: ParamKey) -> Option<ParamValueView> {
        match key {
            ParamKey::ProviderName => Some(ParamValueView::Utf8(self.name@)),
            ParamKey::ProviderVersion => Some(ParamValueView::Utf8(self.version@)),
            ParamKey::ProviderBuildInfo => Some(ParamValueView::Utf8(self.build_info@)),
            _ => None,
        }
    }

    open spec fn answers_params(&self) -> bool {
        true
    }

    fn get_param(&self, key: ParamKey) -> (v: Option<ParamValue>) {
        match key {
            ParamKey::ProviderName => Some(ParamValue::Utf8(self.c_prov_name())),
            ParamKey::ProviderVersion => Some(ParamValue::Utf8(self.c_prov_version())),
            ParamKey::ProviderBuildInfo => Some(ParamValue::Utf8(self.c_prov_buildinfo())),
            _ => None,
        }
    }
}

} // verus!
