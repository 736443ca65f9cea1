//! The core provider: administrative operations only. It answers
//! `list_providers`, `list_opcodes` and `ping` from configuration fixed at
//! build time and holds no persistent state.

use vstd::prelude::*;
use crate::requests::{Opcode, ProviderId, ResponseStatus};
use crate::operations::{ProviderInfo, ProviderInfoView, OpPing, ResultPing};

verus! {

/// The provider description the core provider reports for itself.
pub open spec fn spec_core_describe() -> ProviderInfoView {
    ProviderInfoView {
        uuid: seq![
            0x47u8,
            0x04u8,
            0x98u8,
            0x73u8,
            0x2au8,
            0x43u8,
            0x48u8,
            0x45u8,
            0x9du8,
            0x72u8,
            0x83u8,
            0x1eu8,
            0xabu8,
            0x66u8,
            0x87u8,
            0x84u8,
        ],
        description: (
        "Software provider that implements only administrative (i.e. no cryptographic) operations")@,
        vendor: ""@,
        version_maj: 0,
        version_min: 1,
        version_rev: 0,
        id: ProviderId::Core,
    }
}

/// The opcodes the core provider supports.
pub open spec fn spec_core_opcodes() -> Seq<Opcode> {
    seq![Opcode::ListProviders, Opcode::ListOpcodes, Opcode::Ping]
}

pub struct CoreProvider {
    pub version_min: u8,
    pub version_maj: u8,
    pub providers: Vec<ProviderInfo>,
}

impl CoreProvider {
    /// The opcodes this provider supports.
    pub fn list_opcodes(&self) -> (r: Result<Vec<Opcode>, ResponseStatus>)
        ensures
            match r {
                Result::Ok(ops) => ops@ == spec_core_opcodes(),
                Result::Err(..) => false,
            },
    {
        let mut ops: Vec<Opcode> = Vec::new();
        ops.push(Opcode::ListProviders);
        ops.push(Opcode::ListOpcodes);
        ops.push(Opcode::Ping);
        assert(ops@ =~= spec_core_opcodes());
        Ok(ops)
    }

    /// The descriptions of every registered provider, in registration order.
    pub fn list_providers(&self) -> (r: Result<Vec<ProviderInfo>, ResponseStatus>)
        ensures
            match r {
                Result::Ok(ps) => ps@.map_values(|p: ProviderInfo| p@) == self.providers@.map_values(
                    |p: ProviderInfo| p@,
                ),
                Result::Err(..) => false,
            },
    {
        let mut ps: Vec<ProviderInfo> = Vec::new();
        let mut i: usize = 0;
        while i < self.providers.len()
            invariant
                0 <= i <= self.providers@.len(),
                ps@.len() == i,
                forall|j: int| 0 <= j < i ==> (#[trigger] ps@[j])@ == self.providers@[j]@,
            decreases self.providers@.len() - i,
        {
            let p = &self.providers[i];
            let info = ProviderInfo {
                uuid: p.uuid.clone(),
                description: p.description.clone(),
                vendor: p.vendor.clone(),
                version_maj: p.version_maj,
                version_min: p.version_min,
                version_rev: p.version_rev,
                id: p.id,
            };
            assert(info.uuid@ =~= p.uuid@);
            assert(info@ == p@);
            ps.push(info);
            i = i + 1;
        }
        proof {
            assert(ps@.map_values(|p: ProviderInfo| p@) =~= self.providers@.map_values(
                |p: ProviderInfo| p@,
            ));
        }
        Ok(ps)
    }

    /// This provider's own description.
    pub fn describe(&self) -> (r: ProviderInfo)
        ensures
            r@ == spec_core_describe(),
    {
        let mut uuid: Vec<u8> = Vec::new();
        uuid.push(0x47);
        uuid.push(0x04);
        uuid.push(0x98);
        uuid.push(0x73);
        uuid.push(0x2a);
        uuid.push(0x43);
        uuid.push(0x48);
        uuid.push(0x45);
        uuid.push(0x9d);
        uuid.push(0x72);
        uuid.push(0x83);
        uuid.push(0x1e);
        uuid.push(0xab);
        uuid.push(0x66);
        uuid.push(0x87);
        uuid.push(0x84);
        let r = ProviderInfo {
            uuid,
            description: (
            "Software provider that implements only administrative (i.e. no cryptographic) operations").to_string(),
            vendor: "".to_string(),
            version_maj: 0,
            version_min: 1,
            version_rev: 0,
            id: ProviderId::Core,
        };
        proof {
            assert(r@.uuid =~= spec_core_describe().uuid);
        }
        r
    }

    /// The highest protocol version this service supports, as configured.
    pub fn ping(&self, _op: OpPing) -> (r: Result<ResultPing, ResponseStatus>)
        ensures
            match r {
                Result::Ok(p) => p.supp_version_maj == self.version_maj && p.supp_version_min
                    == self.version_min,
                Result::Err(..) => false,
            },
    {
        Ok(ResultPing { supp_version_maj: self.version_maj, supp_version_min: self.version_min })
    }
}

/// Builder for the core provider: the protocol version pair and the peer
/// descriptions are required; the provider's own description is appended
/// last at build time.
pub struct CoreProviderBuilder {
    pub version_maj: Option<u8>,
    pub version_min: Option<u8>,
    pub providers: Option<Vec<ProviderInfo>>,
}

impl CoreProviderBuilder {
    pub fn new() -> (r: CoreProviderBuilder)
        ensures
            r.version_maj is None,
            r.version_min is None,
            r.providers is None,
    {
        CoreProviderBuilder { version_maj: None, version_min: None, providers: None }
    }

    pub fn with_version(self, version_min: u8, version_maj: u8) -> (r: CoreProviderBuilder)
        ensures
            r.version_maj == Some(version_maj),
            r.version_min == Some(version_min),
            r.providers == self.providers,
    {
        CoreProviderBuilder {
            version_maj: Some(version_maj),
            version_min: Some(version_min),
            providers: self.providers,
        }
    }

    pub fn with_provider_info(self, provider_info: ProviderInfo) -> (r: CoreProviderBuilder)
        ensures
            r.version_maj == self.version_maj,
            r.version_min == self.version_min,
            match (r.providers, self.providers) {
                (Option::Some(ps), Option::Some(old_ps)) => ps@ == old_ps@.push(provider_info),
                (Option::Some(ps), Option::None) => ps@ == seq![provider_info],
                _ => false,
            },
    {
        match self.providers {
            Option::Some(mut providers) => {
                providers.push(provider_info);
                CoreProviderBuilder {
                    version_maj: self.version_maj,
                    version_min: self.version_min,
                    providers: Some(providers),
                }
            },
            Option::None => {
                let mut providers: Vec<ProviderInfo> = Vec::new();
                providers.push(provider_info);
                assert(providers@ =~= seq![provider_info]);
                CoreProviderBuilder {
                    version_maj: self.version_maj,
                    version_min: self.version_min,
                    providers: Some(providers),
                }
            },
        }
    }

    /// Builds the provider; every field is required. The provider's own
    /// description is appended after the configured peers.
    pub fn build(self) -> (r: Option<CoreProvider>)
        ensures
            match r {
                Option::Some(c) => self.version_maj is Some && self.version_min is Some
                    && self.providers is Some && c.version_maj == self.version_maj.unwrap()
                    && c.version_min == self.version_min.unwrap() && c.providers@.len()
                    == self.providers.unwrap()@.len() + 1 && c.providers@.drop_last()
                    == self.providers.unwrap()@ && c.providers@.last()@ == spec_core_describe(),
                Option::None => self.version_maj is None || self.version_min is None
                    || self.providers is None,
            },
    {
        let version_maj = match self.version_maj {
            Option::Some(v) => v,
            Option::None => {
                return None;
            },
        };
        let version_min = match self.version_min {
            Option::Some(v) => v,
            Option::None => {
                return None;
            },
        };
        let mut providers = match self.providers {
            Option::Some(v) => v,
            Option::None => {
                return None;
            },
        };
        let core = CoreProvider { version_maj, version_min, providers: Vec::new() };
        let own = core.describe();
        let ghost configured = providers@;
        providers.push(own);
        assert(providers@.drop_last() =~= configured);
        Some(CoreProvider { version_maj, version_min, providers })
    }
}

} // verus!
