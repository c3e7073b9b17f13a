//! The chain and merchant registry: which chains are configured, which
//! assets each chain carries and at which contract or mint address, and the
//! receiving address of each merchant on each chain. The verifier and the
//! builder resolve everything they need about the outside world here.

use vstd::prelude::*;
use crate::errors::StabuseError;
use crate::types::Network;
use crate::utils::transform_assets_to_uppercase;
use crate::validation::validate_address;
use crate::validation::assets_ok;
use crate::text::str_eq;

verus! {

/// One configured chain: identifier, display name, RPC endpoint and the
/// asset tickers it supports, each with its on-chain address.
#[derive(Debug, Clone)]
pub struct NetworkEntry {
    pub chain_id: i64,
    pub name: String,
    pub rpc: String,
    pub assets: Vec<(String, String)>,
}

/// A merchant's receiving address on one chain.
#[derive(Debug, Clone)]
pub struct MerchantNetworkAddress {
    pub merchant_id: i32,
    pub chain_id: i64,
    pub address: String,
}

/// The registry the engine reads: configured chains and merchant addresses.
#[derive(Debug, Clone)]
pub struct ChainRegistry {
    pub networks: Vec<NetworkEntry>,
    pub merchant_addresses: Vec<MerchantNetworkAddress>,
}

/// The first configured entry for a chain identifier, if any.
pub open spec fn network_of(s: Seq<NetworkEntry>, chain_id: i64) -> Option<NetworkEntry>
    decreases s.len(),
{
    if s.len() == 0 {
        None
    } else if s.first().chain_id == chain_id {
        Some(s.first())
    } else {
        network_of(s.drop_first(), chain_id)
    }
}

/// The address stored for a ticker in an asset map, if any.
pub open spec fn asset_address_of(s: Seq<(String, String)>, ticker: Seq<char>) -> Option<
    Seq<char>,
>
    decreases s.len(),
{
    if s.len() == 0 {
        None
    } else if s.first().0@ == ticker {
        Some(s.first().1@)
    } else {
        asset_address_of(s.drop_first(), ticker)
    }
}

/// The address stored for a merchant on a chain, if any.
pub open spec fn merchant_address_of(
    s: Seq<MerchantNetworkAddress>,
    merchant_id: i32,
    chain_id: i64,
) -> Option<Seq<char>>
    decreases s.len(),
{
    if s.len() == 0 {
        None
    } else if s.first().merchant_id == merchant_id && s.first().chain_id == chain_id {
        Some(s.first().address@)
    } else {
        merchant_address_of(s.drop_first(), merchant_id, chain_id)
    }
}

/// The network name and asset address that a lookup on this registry yields.
pub open spec fn network_and_asset_of(
    reg: ChainRegistry,
    ticker: Seq<char>,
    chain_id: i64,
) -> Option<(Seq<char>, Seq<char>)> {
    match network_of(reg.networks@, chain_id) {
        None => None,
        Some(n) => match asset_address_of(n.assets@, ticker) {
            None => None,
            Some(addr) => Some((n.name@, addr)),
        },
    }
}

impl ChainRegistry {
    /// No two entries configure the same chain, and no two entries give the
    /// same merchant two addresses on one chain.
    pub open spec fn wf(self) -> bool {
        (forall|i: int, j: int|
            0 <= i < j < self.networks@.len() ==> (#[trigger] self.networks@[i]).chain_id != (
            #[trigger] self.networks@[j]).chain_id) && (forall|i: int, j: int|
            0 <= i < j < self.merchant_addresses@.len() ==> !((
            #[trigger] self.merchant_addresses@[i]).merchant_id == (
            #[trigger] self.merchant_addresses@[j]).merchant_id
                && self.merchant_addresses@[i].chain_id
                == self.merchant_addresses@[j].chain_id))
    }

    /// An empty registry.
    pub fn new() -> (r: ChainRegistry)
        ensures
            r.wf(),
            r.networks@.len() == 0,
            r.merchant_addresses@.len() == 0,
    {
        ChainRegistry { networks: Vec::new(), merchant_addresses: Vec::new() }
    }

    /// Adds a chain with its asset map, tickers normalised to upper case.
    /// Fails with `InvalidData` on a malformed asset map and with
    /// `DatabaseError` when the chain is already configured.
    pub fn add_network(&mut self, network: Network) -> (r: Result<i32, StabuseError>)
        requires
            old(self).wf(),
        ensures
            final(self).wf(),
            final(self).merchant_addresses@ == old(self).merchant_addresses@,
            match r {
                Ok(id) => {
                    &&& assets_ok(network.supported_assets@)
                    &&& network_of(old(self).networks@, network.chain_id) is None
                    &&& final(self).networks@.len() == old(self).networks@.len() + 1
                    &&& final(self).networks@.subrange(0, old(self).networks@.len() as int) == old(
                        self,
                    ).networks@
                    &&& {
                        let e = final(self).networks@.last();
                        &&& e.chain_id == network.chain_id
                        &&& e.name@ == network.name@
                        &&& e.rpc@ == network.rpc@
                        &&& e.assets@.len() == network.supported_assets@.len()
                        &&& forall|k: int|
                            0 <= k < e.assets@.len() ==> (#[trigger] e.assets@[k]).0@
                                == crate::foreign::upper_of(network.supported_assets@[k].0@)
                                && e.assets@[k].1@ == network.supported_assets@[k].1@
                    }
                    &&& id as int == old(self).networks@.len() + 1
                },
                Err(e) => {
                    &&& final(self).networks@ == old(self).networks@
                    &&& (e is InvalidData <==> !assets_ok(network.supported_assets@))
                    &&& (e is DatabaseError <==> assets_ok(network.supported_assets@) && (
                    network_of(old(self).networks@, network.chain_id) is Some || old(
                        self,
                    ).networks@.len() + 1 > i32::MAX))
                    &&& (e is InvalidData || e is DatabaseError)
                },
            },
    {
        if let Err(e) = crate::validation::validate_assets(&network.supported_assets) {
            return Err(e);
        }
        if self.find_network(network.chain_id).is_some() {
            return Err(StabuseError::DatabaseError(String::from_str(
                "duplicate key value violates unique constraint on chain_id",
            )));
        }
        if self.networks.len() >= 0x7fffffff {
            return Err(StabuseError::DatabaseError(String::from_str(
                "network table is full",
            )));
        }
        let assets = transform_assets_to_uppercase(&network.supported_assets);
        let entry = NetworkEntry {
            chain_id: network.chain_id,
            name: network.name,
            rpc: network.rpc,
            assets,
        };
        self.networks.push(entry);
        proof {
            assert(self.networks@.subrange(0, old(self).networks@.len() as int) =~= old(
                self,
            ).networks@);
            lemma_network_of_absent_push(old(self).networks@, self.networks@.last(), network.chain_id);
            assert forall|i: int, j: int|
                0 <= i < j < self.networks@.len() implies (#[trigger] self.networks@[i]).chain_id
                != (#[trigger] self.networks@[j]).chain_id by {
                if j == self.networks@.len() - 1 {
                    lemma_network_of_found(old(self).networks@, i, self.networks@[j].chain_id);
                }
            }
        }
        Ok(self.networks.len() as i32)
    }

    /// The first configured entry for a chain, if any.
    pub fn find_network(&self, chain_id: i64) -> (r: Option<&NetworkEntry>)
        ensures
            match r {
                Some(e) => network_of(self.networks@, chain_id) == Some(*e),
                None => network_of(self.networks@, chain_id) is None,
            },
    {
        let n = self.networks.len();
        proof {
            assert(self.networks@.skip(0) =~= self.networks@);
        }
        for i in 0..n
            invariant
                n == self.networks@.len(),
                network_of(self.networks@, chain_id) == network_of(
                    self.networks@.skip(i as int),
                    chain_id,
                ),
                forall|k: int| 0 <= k < i ==> (#[trigger] self.networks@[k]).chain_id != chain_id,
        {
            proof {
                assert(self.networks@.skip(i as int).drop_first() =~= self.networks@.skip(
                    i + 1,
                ));
            }
            if self.networks[i].chain_id == chain_id {
                proof {
                    assert(self.networks@.skip(i as int).first() == self.networks@[i as int]);
                }
                return Some(&self.networks[i]);
            }
        }
        None
    }

    /// Resolves the network name and the token contract or mint address of
    /// an asset on a chain. Fails with `AssetNotSupported` when the chain is
    /// not configured or does not carry the asset.
    pub fn get_network_and_asset_address_with_chain_id(
        &self,
        asset: &str,
        chain_id: i64,
    ) -> (r: Result<(String, String), StabuseError>)
        ensures
            match r {
                Ok(p) => network_and_asset_of(*self, asset@, chain_id) == Some((p.0@, p.1@)),
                Err(e) => network_and_asset_of(*self, asset@, chain_id) is None
                    && e is AssetNotSupported,
            },
    {
        let entry = match self.find_network(chain_id) {
            Some(e) => e,
            None => {
                return Err(StabuseError::AssetNotSupported(String::from_str(
                    "Chain ID not found in configuration",
                )));
            }
        };
        let n = entry.assets.len();
        proof {
            assert(entry.assets@.skip(0) =~= entry.assets@);
        }
        for i in 0..n
            invariant
                n == entry.assets@.len(),
                asset_address_of(entry.assets@, asset@) == asset_address_of(
                    entry.assets@.skip(i as int),
                    asset@,
                ),
        {
            proof {
                assert(entry.assets@.skip(i as int).drop_first() =~= entry.assets@.skip(i + 1));
            }
            if str_eq(entry.assets[i].0.as_str(), asset) {
                proof {
                    assert(entry.assets@.skip(i as int).first() == entry.assets@[i as int]);
                }
                return Ok((entry.name.clone(), entry.assets[i].1.clone()));
            }
        }
        Err(StabuseError::AssetNotSupported(String::from_str("Asset not found on network")))
    }

    /// Resolves a merchant's receiving address on a chain. Fails with
    /// `AssetNotSupported` when no address is registered.
    pub fn get_merchant_network_address(
        &self,
        merchant_id: i32,
        chain_id: i64,
    ) -> (r: Result<String, StabuseError>)
        ensures
            match r {
                Ok(a) => merchant_address_of(self.merchant_addresses@, merchant_id, chain_id)
                    == Some(a@),
                Err(e) => merchant_address_of(
                    self.merchant_addresses@,
                    merchant_id,
                    chain_id,
                ) is None && e is AssetNotSupported,
            },
    {
        let n = self.merchant_addresses.len();
        proof {
            assert(self.merchant_addresses@.skip(0) =~= self.merchant_addresses@);
        }
        for i in 0..n
            invariant
                n == self.merchant_addresses@.len(),
                merchant_address_of(self.merchant_addresses@, merchant_id, chain_id)
                    == merchant_address_of(
                    self.merchant_addresses@.skip(i as int),
                    merchant_id,
                    chain_id,
                ),
        {
            proof {
                assert(self.merchant_addresses@.skip(i as int).drop_first()
                    =~= self.merchant_addresses@.skip(i + 1));
            }
            let e = &self.merchant_addresses[i];
            if e.merchant_id == merchant_id && e.chain_id == chain_id {
                proof {
                    assert(self.merchant_addresses@.skip(i as int).first()
                        == self.merchant_addresses@[i as int]);
                }
                return Ok(e.address.clone());
            }
        }
        Err(StabuseError::AssetNotSupported(String::from_str(
            "No merchant address registered for this chain",
        )))
    }

    /// Registers or replaces a merchant's receiving address on a chain.
    /// Fails with `InvalidAddress` on a malformed address.
    pub fn update_merchant_network_address(
        &mut self,
        merchant_id: i32,
        chain_id: i64,
        address: &str,
    ) -> (r: Result<(), StabuseError>)
        requires
            old(self).wf(),
        ensures
            final(self).wf(),
            final(self).networks@ == old(self).networks@,
            match r {
                Ok(_) => crate::validation::evm_address_ok(address@) && merchant_address_of(
                    final(self).merchant_addresses@,
                    merchant_id,
                    chain_id,
                ) == Some(address@),
                Err(e) => !crate::validation::evm_address_ok(address@) && e is InvalidAddress
                    && final(self).merchant_addresses@ == old(self).merchant_addresses@,
            },
    {
        if let Err(e) = validate_address(address) {
            return Err(e);
        }
        let n = self.merchant_addresses.len();
        let mut idx: usize = 0;
        let mut found = false;
        for i in 0..n
            invariant
                n == self.merchant_addresses@.len(),
                !found ==> forall|k: int|
                    0 <= k < i ==> !((#[trigger] self.merchant_addresses@[k]).merchant_id
                        == merchant_id && self.merchant_addresses@[k].chain_id == chain_id),
                found ==> idx < i && self.merchant_addresses@[idx as int].merchant_id
                    == merchant_id && self.merchant_addresses@[idx as int].chain_id == chain_id,
                found ==> forall|k: int|
                    0 <= k < idx ==> !((#[trigger] self.merchant_addresses@[k]).merchant_id
                        == merchant_id && self.merchant_addresses@[k].chain_id == chain_id),
        {
            let e = &self.merchant_addresses[i];
            if !found && e.merchant_id == merchant_id && e.chain_id == chain_id {
                idx = i;
                found = true;
            }
        }
        if found {
            let entry = MerchantNetworkAddress {
                merchant_id,
                chain_id,
                address: String::from_str(address),
            };
            self.merchant_addresses.set(idx, entry);
            proof {
                assert(self.merchant_addresses@ =~= old(self).merchant_addresses@.update(
                    idx as int,
                    self.merchant_addresses@[idx as int],
                ));
                lemma_merchant_address_of_update(
                    old(self).merchant_addresses@,
                    self.merchant_addresses@,
                    idx as int,
                    merchant_id,
                    chain_id,
                );
            }
            Ok(())
        } else {
            let entry = MerchantNetworkAddress {
                merchant_id,
                chain_id,
                address: String::from_str(address),
            };
            self.merchant_addresses.push(entry);
            proof {
                assert(self.merchant_addresses@ =~= old(self).merchant_addresses@ + seq![
                    self.merchant_addresses@.last(),
                ]);
                lemma_merchant_address_of_no_match(
                    old(self).merchant_addresses@,
                    merchant_id,
                    chain_id,
                );
                lemma_merchant_address_of_absent_push(
                    old(self).merchant_addresses@,
                    self.merchant_addresses@.last(),
                    merchant_id,
                    chain_id,
                );
            }
            Ok(())
        }
    }

    /// Whether a chain is configured and carries the asset.
    pub fn is_asset_supported_on_network(&self, chain_id: i64, asset: &str) -> (r: bool)
        ensures
            r == (network_and_asset_of(*self, asset@, chain_id) is Some),
    {
        match self.get_network_and_asset_address_with_chain_id(asset, chain_id) {
            Ok(_) => true,
            Err(_) => false,
        }
    }
}

/// Whether every named asset is carried, under its upper-case ticker, by
/// the named chain.
pub open spec fn assets_supported(
    reg: ChainRegistry,
    chain_id: i64,
    assets: Seq<String>,
) -> bool {
    forall|i: int|
        0 <= i < assets.len() ==> network_and_asset_of(
            reg,
            crate::foreign::upper_of((#[trigger] assets[i])@),
            chain_id,
        ) is Some
}

/// Checks that one chain supports every asset of the list, tickers
/// compared in upper case. Fails with `AssetNotSupported` otherwise.
pub fn validate_supported_assets(
    registry: &ChainRegistry,
    chain_id: i64,
    supported_assets: &Vec<String>,
) -> (r: Result<(), StabuseError>)
    ensures
        r is Ok <==> assets_supported(*registry, chain_id, supported_assets@),
        r matches Err(e) ==> e is AssetNotSupported,
{
    let n = supported_assets.len();
    for i in 0..n
        invariant
            forall|k: int|
                0 <= k < i ==> network_and_asset_of(
                    *registry,
                    crate::foreign::upper_of((#[trigger] supported_assets@[k])@),
                    chain_id,
                ) is Some,
    {
        let upper = crate::foreign::uppercase(supported_assets[i].as_str());
        if !registry.is_asset_supported_on_network(chain_id, upper.as_str()) {
            let mut m = String::from_str("Network does not support asset ");
            m.append(supported_assets[i].as_str());
            return Err(StabuseError::AssetNotSupported(m));
        }
    }
    Ok(())
}

/// Whether every chain of the map supports every asset it names.
pub open spec fn networks_supported(reg: ChainRegistry, m: Seq<(i64, Vec<String>)>) -> bool {
    forall|i: int|
        0 <= i < m.len() ==> assets_supported(reg, (#[trigger] m[i]).0, m[i].1@)
}

/// Checks a merchant's proposed network map: every chain entry must carry
/// every asset it names, tickers compared in upper case. Fails with
/// `AssetNotSupported` on the first gap.
pub fn validate_supported_networks(
    registry: &ChainRegistry,
    supported_networks: &Vec<(i64, Vec<String>)>,
) -> (r: Result<(), StabuseError>)
    ensures
        r is Ok <==> networks_supported(*registry, supported_networks@),
        r matches Err(e) ==> e is AssetNotSupported,
{
    let n = supported_networks.len();
    for i in 0..n
        invariant
            forall|k: int|
                0 <= k < i ==> assets_supported(
                    *registry,
                    (#[trigger] supported_networks@[k]).0,
                    supported_networks@[k].1@,
                ),
    {
        if let Err(e) = validate_supported_assets(
            registry,
            supported_networks[i].0,
            &supported_networks[i].1,
        ) {
            return Err(e);
        }
    }
    Ok(())
}

/// If no entry of `s` matches `chain_id`, a lookup after appending one entry
/// finds that entry exactly when it matches.
proof fn lemma_network_of_absent_push(s: Seq<NetworkEntry>, e: NetworkEntry, chain_id: i64)
    requires
        network_of(s, chain_id) is None,
    ensures
        e.chain_id == chain_id ==> network_of(s + seq![e], chain_id) == Some(e),
        e.chain_id != chain_id ==> network_of(s + seq![e], chain_id) is None,
    decreases s.len(),
{
    if s.len() == 0 {
        assert((s + seq![e]).first() == e);
        assert((s + seq![e]).drop_first() =~= Seq::<NetworkEntry>::empty());
        assert(network_of(Seq::<NetworkEntry>::empty(), chain_id) is None);
    } else {
        assert((s + seq![e]).first() == s.first());
        assert((s + seq![e]).drop_first() =~= s.drop_first() + seq![e]);
        lemma_network_of_absent_push(s.drop_first(), e, chain_id);
    }
}

/// A lookup that fails finds no matching entry at any index.
proof fn lemma_network_of_found(s: Seq<NetworkEntry>, i: int, chain_id: i64)
    requires
        0 <= i < s.len(),
        network_of(s, chain_id) is None,
    ensures
        s[i].chain_id != chain_id,
    decreases s.len(),
{
    if i > 0 {
        lemma_network_of_found(s.drop_first(), i - 1, chain_id);
    }
}

/// Replacing the first matching entry makes the lookup yield the new entry.
proof fn lemma_merchant_address_of_update(
    s: Seq<MerchantNetworkAddress>,
    t: Seq<MerchantNetworkAddress>,
    i: int,
    merchant_id: i32,
    chain_id: i64,
)
    requires
        0 <= i < s.len(),
        t =~= s.update(i, t[i]),
        t.len() == s.len(),
        forall|k: int|
            0 <= k < i ==> !((#[trigger] s[k]).merchant_id == merchant_id && s[k].chain_id
                == chain_id),
        t[i].merchant_id == merchant_id,
        t[i].chain_id == chain_id,
    ensures
        merchant_address_of(t, merchant_id, chain_id) == Some(t[i].address@),
    decreases i,
{
    if i == 0 {
        assert(t.first() == t[0]);
    } else {
        assert(t.first() == s.first());
        assert(t.drop_first() =~= s.drop_first().update(i - 1, t[i]));
        lemma_merchant_address_of_update(
            s.drop_first(),
            t.drop_first(),
            i - 1,
            merchant_id,
            chain_id,
        );
        assert(t.drop_first()[i - 1] == t[i]);
    }
}

/// A sequence with no matching entry yields no address.
proof fn lemma_merchant_address_of_no_match(
    s: Seq<MerchantNetworkAddress>,
    merchant_id: i32,
    chain_id: i64,
)
    requires
        forall|k: int|
            0 <= k < s.len() ==> !((#[trigger] s[k]).merchant_id == merchant_id && s[k].chain_id
                == chain_id),
    ensures
        merchant_address_of(s, merchant_id, chain_id) is None,
    decreases s.len(),
{
    if s.len() > 0 {
        assert(s.first() == s[0]);
        assert(forall|k: int|
            0 <= k < s.drop_first().len() ==> s.drop_first()[k] == s[k + 1]);
        lemma_merchant_address_of_no_match(s.drop_first(), merchant_id, chain_id);
    }
}

/// If no entry of `s` matches, a lookup after appending a matching entry
/// finds the appended entry.
proof fn lemma_merchant_address_of_absent_push(
    s: Seq<MerchantNetworkAddress>,
    e: MerchantNetworkAddress,
    merchant_id: i32,
    chain_id: i64,
)
    requires
        merchant_address_of(s, merchant_id, chain_id) is None,
        e.merchant_id == merchant_id,
        e.chain_id == chain_id,
    ensures
        merchant_address_of(s + seq![e], merchant_id, chain_id) == Some(e.address@),
    decreases s.len(),
{
    if s.len() == 0 {
        assert((s + seq![e]).first() == e);
    } else {
        assert((s + seq![e]).first() == s.first());
        assert((s + seq![e]).drop_first() =~= s.drop_first() + seq![e]);
        lemma_merchant_address_of_absent_push(s.drop_first(), e, merchant_id, chain_id);
    }
}

} // verus!
