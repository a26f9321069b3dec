//! The contract itself: two local lists of identifiers, one message
//! handler per operation, and the events a successful operation emits.
//!
//! Every handler follows one pattern: forward the caller's parameters
//! to the host extension, and on success record the outcome locally and
//! return the event to emit. On failure the handler returns the host's
//! error, leaves both lists untouched and returns no event.

use crate::environment::{ExtensionError, InvarchExtension};
use crate::ids::{AccountId, AnyId, CommonId, ContentHash};
use vstd::prelude::*;

verus! {

/// Emitted when a new IPF was minted through this contract.
#[derive(Clone, Copy, Debug, PartialEq, Eq, Structural)]
pub struct MintedNewIpf {
    pub new: CommonId,
}

/// Emitted when a new IPS was created through this contract.
#[derive(Clone, Copy, Debug, PartialEq, Eq, Structural)]
pub struct CreatedNewIps {
    pub new: CommonId,
}

/// Emitted when an IPF was burned through this contract.
#[derive(Clone, Copy, Debug, PartialEq, Eq, Structural)]
pub struct BurnedIpf {
    pub ipf_id: CommonId,
}

/// Emitted when assets were appended to an IPS.
#[derive(Clone, Copy, Debug, PartialEq, Eq, Structural)]
pub struct AppendedToIps {
    pub ips_id: CommonId,
}

/// Emitted when assets were removed from an IPS.
#[derive(Clone, Copy, Debug, PartialEq, Eq, Structural)]
pub struct RemovedFromIps {
    pub ips_id: CommonId,
}

/// Emitted when an IPS was marked as allowing replicas.
#[derive(Clone, Copy, Debug, PartialEq, Eq, Structural)]
pub struct IpsAllowedReplica {
    pub ips_id: CommonId,
}

/// Emitted when an IPS was marked as disallowing replicas.
#[derive(Clone, Copy, Debug, PartialEq, Eq, Structural)]
pub struct IpsDisallowedReplica {
    pub ips_id: CommonId,
}

/// Emitted when a replica of an IPS was created.
#[derive(Clone, Copy, Debug, PartialEq, Eq, Structural)]
pub struct IpsReplicaCreated {
    pub original: CommonId,
    pub new: CommonId,
}

/// Emitted when IPT were minted to an account.
#[derive(Clone, Copy, Debug, PartialEq, Eq)]
pub struct IptMinted {
    pub target: AccountId,
    pub amount: u128,
}

/// The predicate a burn filters the IPF list with: keep every id other
/// than `x`.
pub open spec fn keeps_id(x: CommonId) -> spec_fn(CommonId) -> bool {
    |id: CommonId| id != x
}

/// The sequence that remains of `s` once every occurrence of `x` is
/// removed, order otherwise kept.
pub open spec fn remove_id(s: Seq<CommonId>, x: CommonId) -> Seq<CommonId> {
    s.filter(keeps_id(x))
}

/// A burn removes all occurrences and nothing else: after removing `x`
/// from `s`, no entry equals `x`; every entry that differed from `x` is
/// still present; every remaining entry came from `s`; and the list has
/// not grown.
pub proof fn lemma_remove_id(s: Seq<CommonId>, x: CommonId)
    ensures
        forall|i: int| 0 <= i < remove_id(s, x).len() ==> remove_id(s, x)[i] != x,
        forall|i: int| 0 <= i < s.len() && s[i] != x ==> remove_id(s, x).contains(s[i]),
        forall|i: int| 0 <= i < remove_id(s, x).len() ==> s.contains(remove_id(s, x)[i]),
        remove_id(s, x).len() <= s.len(),
{
    broadcast use vstd::seq_lib::group_filter_ensures;

    let pred = keeps_id(x);
    assert forall|i: int| 0 <= i < remove_id(s, x).len() implies remove_id(s, x)[i] != x by {
        assert(pred(s.filter(pred)[i]));
    }
    assert forall|i: int| 0 <= i < remove_id(s, x).len() implies s.contains(
        remove_id(s, x)[i],
    ) by {
        assert(s.filter(pred).contains(s.filter(pred)[i]));
        s.lemma_filter_contains_rev(pred, s.filter(pred)[i]);
    }
}

/// Contract state: the ids of the IPF and IPS assets created through
/// this contract instance. These lists are local records, not the
/// source of truth: the host extension owns the authoritative state.
pub struct Extension {
    ipf: Vec<CommonId>,
    ips: Vec<CommonId>,
}

impl Extension {
    /// The IPF ids this contract has recorded, in insertion order.
    pub closed spec fn ipf_ids(self) -> Seq<CommonId> {
        self.ipf@
    }

    /// The IPS ids this contract has recorded, in insertion order.
    pub closed spec fn ips_ids(self) -> Seq<CommonId> {
        self.ips@
    }

    /// A fresh contract instance records no assets.
    pub fn new() -> (s: Self)
        ensures
            s.ipf_ids() == Seq::<CommonId>::empty(),
            s.ips_ids() == Seq::<CommonId>::empty(),
    {
        Extension { ipf: Vec::new(), ips: Vec::new() }
    }

    /// Mints an IPF through the host extension. On success the id the
    /// host issued is appended to the IPF list and the returned event
    /// carries it; on failure the state is unchanged, no event exists,
    /// and the host's error is surfaced.
    pub fn mint_ipf<E: InvarchExtension>(
        &mut self,
        ext: &mut E,
        metadata: Vec<u8>,
        data: ContentHash,
    ) -> (r: Result<MintedNewIpf, ExtensionError>)
        ensures
            r matches Ok(ev) ==> (final(self).ipf_ids() == old(self).ipf_ids().push(ev.new)
                && final(self).ips_ids() == old(self).ips_ids()),
            r is Err ==> *final(self) == *old(self),
    {
        let minted = ext.ipf_mint(metadata, data);
        self.record_ipf_minted(minted)
    }

    /// Burns an IPF through the host extension. On success every
    /// occurrence of the id leaves the IPF list and the returned event
    /// carries it; on failure the state is unchanged, no event exists,
    /// and the host's error is surfaced.
    pub fn burn_ipf<E: InvarchExtension>(&mut self, ext: &mut E, ipf_id: CommonId) -> (r: Result<
        BurnedIpf,
        ExtensionError,
    >)
        ensures
            r matches Ok(ev) ==> (ev.ipf_id == ipf_id && final(self).ipf_ids() == remove_id(
                old(self).ipf_ids(),
                ipf_id,
            ) && final(self).ips_ids() == old(self).ips_ids()),
            r is Err ==> *final(self) == *old(self),
    {
        let burned = ext.ipf_burn(ipf_id);
        self.record_ipf_burned(ipf_id, burned)
    }

    /// Creates an IPS through the host extension. On success the id the
    /// host issued is appended to the IPS list and the returned event
    /// carries it; on failure the state is unchanged, no event exists,
    /// and the host's error is surfaced.
    pub fn create_ips<E: InvarchExtension>(
        &mut self,
        ext: &mut E,
        metadata: Vec<u8>,
        data: Vec<CommonId>,
        allow_replica: bool,
    ) -> (r: Result<CreatedNewIps, ExtensionError>)
        ensures
            r matches Ok(ev) ==> (final(self).ips_ids() == old(self).ips_ids().push(ev.new)
                && final(self).ipf_ids() == old(self).ipf_ids()),
            r is Err ==> *final(self) == *old(self),
    {
        let created = ext.ips_create(metadata, data, allow_replica);
        self.record_ips_created(created)
    }

    /// Appends assets to an IPS through the host extension. The local
    /// lists never change; on success the returned event names the set.
    pub fn append_to_ips<E: InvarchExtension>(
        &mut self,
        ext: &mut E,
        ips_id: CommonId,
        assets: Vec<AnyId>,
        new_metadata: Option<Vec<u8>>,
    ) -> (r: Result<AppendedToIps, ExtensionError>)
        ensures
            *final(self) == *old(self),
            r matches Ok(ev) ==> ev.ips_id == ips_id,
    {
        let appended = ext.ips_append(ips_id, assets, new_metadata);
        self.record_ips_appended(ips_id, appended)
    }

    /// Removes assets from an IPS through the host extension. The local
    /// lists never change; on success the returned event names the set.
    pub fn remove_from_ips<E: InvarchExtension>(
        &mut self,
        ext: &mut E,
        ips_id: CommonId,
        assets: Vec<(AnyId, AccountId)>,
        new_metadata: Option<Vec<u8>>,
    ) -> (r: Result<RemovedFromIps, ExtensionError>)
        ensures
            *final(self) == *old(self),
            r matches Ok(ev) ==> ev.ips_id == ips_id,
    {
        let removed = ext.ips_remove(ips_id, assets, new_metadata);
        self.record_ips_removed(ips_id, removed)
    }

    /// Marks an IPS as allowing replicas through the host extension. The
    /// local lists never change; on success the returned event names the
    /// set.
    pub fn allow_replica<E: InvarchExtension>(
        &mut self,
        ext: &mut E,
        ips_id: CommonId,
    ) -> (r: Result<IpsAllowedReplica, ExtensionError>)
        ensures
            *final(self) == *old(self),
            r matches Ok(ev) ==> ev.ips_id == ips_id,
    {
        let allowed = ext.ips_allow_replica(ips_id);
        self.record_replica_allowed(ips_id, allowed)
    }

    /// Marks an IPS as disallowing replicas through the host extension.
    /// The local lists never change; on success the returned event names
    /// the set.
    pub fn disallow_replica<E: InvarchExtension>(
        &mut self,
        ext: &mut E,
        ips_id: CommonId,
    ) -> (r: Result<IpsDisallowedReplica, ExtensionError>)
        ensures
            *final(self) == *old(self),
            r matches Ok(ev) ==> ev.ips_id == ips_id,
    {
        let disallowed = ext.ips_disallow_replica(ips_id);
        self.record_replica_disallowed(ips_id, disallowed)
    }

    /// Creates a replica of an IPS through the host extension. The local
    /// lists never change, in particular the replica's id is not
    /// recorded; on success the returned event pairs the original set
    /// with the id the host issued for the replica.
    pub fn create_replica<E: InvarchExtension>(
        &mut self,
        ext: &mut E,
        ips_id: CommonId,
    ) -> (r: Result<IpsReplicaCreated, ExtensionError>)
        ensures
            *final(self) == *old(self),
            r matches Ok(ev) ==> ev.original == ips_id,
    {
        let created = ext.ips_create_replica(ips_id);
        self.record_replica_created(ips_id, created)
    }

    /// Mints IPT to an account through the host extension. The local
    /// lists never change; on success the returned event names the
    /// receiving account and the amount.
    pub fn mint_ipt<E: InvarchExtension>(
        &mut self,
        ext: &mut E,
        target: AccountId,
        ipt_id: CommonId,
        amount: u128,
    ) -> (r: Result<IptMinted, ExtensionError>)
        ensures
            *final(self) == *old(self),
            r matches Ok(ev) ==> (ev.target == target && ev.amount == amount),
    {
        let minted = ext.ipt_mint(target, ipt_id, amount);
        self.record_ipt_minted(target, amount, minted)
    }

    /// Records the outcome of an `ipf_mint` host call: on success the
    /// returned id is appended to the IPF list, and only the event
    /// carrying that id is returned; on failure nothing changes and the
    /// host's error is passed through.
    pub fn record_ipf_minted(&mut self, minted: Result<CommonId, ExtensionError>) -> (r: Result<
        MintedNewIpf,
        ExtensionError,
    >)
        ensures
            minted matches Ok(id) ==> (r matches Ok(ev) && ev.new == id
                && final(self).ipf_ids() == old(self).ipf_ids().push(id) && final(self).ips_ids()
                == old(self).ips_ids()),
            minted matches Err(e) ==> (r == Err::<MintedNewIpf, ExtensionError>(e) && *final(self)
                == *old(self)),
    {
        match minted {
            Ok(id) => {
                self.ipf.push(id);
                Ok(MintedNewIpf { new: id })
            },
            Err(e) => Err(e),
        }
    }

    /// Records the outcome of an `ips_create` host call: on success the
    /// returned id is appended to the IPS list, and only the event
    /// carrying that id is returned; on failure nothing changes and the
    /// host's error is passed through.
    pub fn record_ips_created(&mut self, created: Result<CommonId, ExtensionError>) -> (r: Result<
        CreatedNewIps,
        ExtensionError,
    >)
        ensures
            created matches Ok(id) ==> (r matches Ok(ev) && ev.new == id
                && final(self).ips_ids() == old(self).ips_ids().push(id) && final(self).ipf_ids()
                == old(self).ipf_ids()),
            created matches Err(e) ==> (r == Err::<CreatedNewIps, ExtensionError>(e)
                && *final(self) == *old(self)),
    {
        match created {
            Ok(id) => {
                self.ips.push(id);
                Ok(CreatedNewIps { new: id })
            },
            Err(e) => Err(e),
        }
    }

    /// Records the outcome of an `ipf_burn` host call: on success every
    /// occurrence of the burned id leaves the IPF list, order otherwise
    /// kept, and only the event carrying that id is returned; on failure
    /// nothing changes and the host's error is passed through.
    pub fn record_ipf_burned(
        &mut self,
        ipf_id: CommonId,
        burned: Result<(), ExtensionError>,
    ) -> (r: Result<BurnedIpf, ExtensionError>)
        ensures
            burned matches Ok(()) ==> (r matches Ok(ev) && ev.ipf_id == ipf_id
                && final(self).ipf_ids() == remove_id(old(self).ipf_ids(), ipf_id)
                && final(self).ips_ids() == old(self).ips_ids()),
            burned matches Err(e) ==> (r == Err::<BurnedIpf, ExtensionError>(e) && *final(self)
                == *old(self)),
    {
        match burned {
            Ok(()) => {
                let mut kept: Vec<CommonId> = Vec::new();
                let n = self.ipf.len();
                let mut i: usize = 0;
                while i < n
                    invariant
                        n == self.ipf.len(),
                        i <= n,
                        kept@ == remove_id(self.ipf@.take(i as int), ipf_id),
                    decreases n - i,
                {
                    let id = self.ipf[i];
                    if id != ipf_id {
                        kept.push(id);
                    }
                    proof {
                        reveal(Seq::filter);
                        let pre = self.ipf@.take(i as int);
                        let post = self.ipf@.take(i + 1 as int);
                        assert(post.drop_last() =~= pre);
                        assert(post.last() == self.ipf@[i as int]);
                    }
                    i += 1;
                }
                proof {
                    assert(self.ipf@.take(n as int) =~= self.ipf@);
                }
                self.ipf = kept;
                Ok(BurnedIpf { ipf_id })
            },
            Err(e) => Err(e),
        }
    }

    /// Records the outcome of an `ips_append` host call: the local lists
    /// never change, and on success only the event naming the touched
    /// set is returned; on failure the host's error is passed through.
    pub fn record_ips_appended(
        &mut self,
        ips_id: CommonId,
        appended: Result<(), ExtensionError>,
    ) -> (r: Result<AppendedToIps, ExtensionError>)
        ensures
            *final(self) == *old(self),
            appended matches Ok(()) ==> (r matches Ok(ev) && ev.ips_id == ips_id),
            appended matches Err(e) ==> r == Err::<AppendedToIps, ExtensionError>(e),
    {
        match appended {
            Ok(()) => Ok(AppendedToIps { ips_id }),
            Err(e) => Err(e),
        }
    }

    /// Records the outcome of an `ips_remove` host call: the local lists
    /// never change, and on success only the event naming the touched
    /// set is returned; on failure the host's error is passed through.
    pub fn record_ips_removed(
        &mut self,
        ips_id: CommonId,
        removed: Result<(), ExtensionError>,
    ) -> (r: Result<RemovedFromIps, ExtensionError>)
        ensures
            *final(self) == *old(self),
            removed matches Ok(()) ==> (r matches Ok(ev) && ev.ips_id == ips_id),
            removed matches Err(e) ==> r == Err::<RemovedFromIps, ExtensionError>(e),
    {
        match removed {
            Ok(()) => Ok(RemovedFromIps { ips_id }),
            Err(e) => Err(e),
        }
    }

    /// Records the outcome of an `ips_allow_replica` host call: the
    /// local lists never change, and on success only the event naming
    /// the touched set is returned.
    pub fn record_replica_allowed(
        &mut self,
        ips_id: CommonId,
        allowed: Result<(), ExtensionError>,
    ) -> (r: Result<IpsAllowedReplica, ExtensionError>)
        ensures
            *final(self) == *old(self),
            allowed matches Ok(()) ==> (r matches Ok(ev) && ev.ips_id == ips_id),
            allowed matches Err(e) ==> r == Err::<IpsAllowedReplica, ExtensionError>(e),
    {
        match allowed {
            Ok(()) => Ok(IpsAllowedReplica { ips_id }),
            Err(e) => Err(e),
        }
    }

    /// Records the outcome of an `ips_disallow_replica` host call: the
    /// local lists never change, and on success only the event naming
    /// the touched set is returned.
    pub fn record_replica_disallowed(
        &mut self,
        ips_id: CommonId,
        disallowed: Result<(), ExtensionError>,
    ) -> (r: Result<IpsDisallowedReplica, ExtensionError>)
        ensures
            *final(self) == *old(self),
            disallowed matches Ok(()) ==> (r matches Ok(ev) && ev.ips_id == ips_id),
            disallowed matches Err(e) ==> r == Err::<IpsDisallowedReplica, ExtensionError>(e),
    {
        match disallowed {
            Ok(()) => Ok(IpsDisallowedReplica { ips_id }),
            Err(e) => Err(e),
        }
    }

    /// Records the outcome of an `ips_create_replica` host call: the
    /// local lists never change (in particular the new replica id is not
    /// recorded), and on success only the event pairing the original set
    /// with the replica the host issued is returned.
    pub fn record_replica_created(
        &mut self,
        ips_id: CommonId,
        created: Result<CommonId, ExtensionError>,
    ) -> (r: Result<IpsReplicaCreated, ExtensionError>)
        ensures
            *final(self) == *old(self),
            created matches Ok(id) ==> (r matches Ok(ev) && ev.original == ips_id && ev.new == id),
            created matches Err(e) ==> r == Err::<IpsReplicaCreated, ExtensionError>(e),
    {
        match created {
            Ok(id) => Ok(IpsReplicaCreated { original: ips_id, new: id }),
            Err(e) => Err(e),
        }
    }

    /// Records the outcome of an `ipt_mint` host call: the local lists
    /// never change, and on success only the event naming the receiving
    /// account and the minted amount is returned.
    pub fn record_ipt_minted(
        &mut self,
        target: AccountId,
        amount: u128,
        minted: Result<(), ExtensionError>,
    ) -> (r: Result<IptMinted, ExtensionError>)
        ensures
            *final(self) == *old(self),
            minted matches Ok(()) ==> (r matches Ok(ev) && ev.target == target && ev.amount
                == amount),
            minted matches Err(e) ==> r == Err::<IptMinted, ExtensionError>(e),
    {
        match minted {
            Ok(()) => Ok(IptMinted { target, amount }),
            Err(e) => Err(e),
        }
    }

    /// Returns the IPF ids recorded so far, without changing them.
    pub fn get_ipf(&self) -> (r: Vec<CommonId>)
        ensures
            r@ == self.ipf_ids(),
    {
        let mut out: Vec<CommonId> = Vec::new();
        let n = self.ipf.len();
        let mut i: usize = 0;
        while i < n
            invariant
                n == self.ipf.len(),
                i <= n,
                out@ == self.ipf@.take(i as int),
            decreases n - i,
        {
            out.push(self.ipf[i]);
            proof {
                assert(self.ipf@.take(i + 1 as int) =~= self.ipf@.take(i as int).push(
                    self.ipf@[i as int],
                ));
            }
            i += 1;
        }
        proof {
            assert(self.ipf@.take(n as int) =~= self.ipf@);
        }
        out
    }

    /// Returns the IPS ids recorded so far, without changing them.
    pub fn get_ips(&self) -> (r: Vec<CommonId>)
        ensures
            r@ == self.ips_ids(),
    {
        let mut out: Vec<CommonId> = Vec::new();
        let n = self.ips.len();
        let mut i: usize = 0;
        while i < n
            invariant
                n == self.ips.len(),
                i <= n,
                out@ == self.ips@.take(i as int),
            decreases n - i,
        {
            out.push(self.ips[i]);
            proof {
                assert(self.ips@.take(i + 1 as int) =~= self.ips@.take(i as int).push(
                    self.ips@[i as int],
                ));
            }
            i += 1;
        }
        proof {
            assert(self.ips@.take(n as int) =~= self.ips@);
        }
        out
    }
}

} // verus!
