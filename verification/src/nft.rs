//! NFT classes and instances: marketplace items and liquidity-mining positions.
//!
//! Classes are numbered from zero in order of creation, and the instances of each class in
//! order of minting. Pool-share classes, which hold liquidity-mining positions, can only be
//! created and destroyed by the protocol; marketplace classes by anyone. Ownership, freezing and
//! deposits are kept by the uniques pallet: the functions here take the owner of an instance
//! as an argument and return what that pallet must do as [`NftAction`]s.
use vstd::prelude::*;

use std::collections::HashMap;

use crate::constants::{AccountId, Balance, NftClassId, NftInstanceId};
use crate::store::DoubleMap;

verus! {

broadcast use vstd::std_specs::hash::group_hash_axioms;

/// The purpose of a class.
#[derive(Clone, Copy, Debug, PartialEq, Eq, Structural)]
pub enum ClassType {
    Marketplace,
    PoolShare,
}

impl ClassType {
    /// The default class type, `Marketplace`.
    pub fn default() -> (c: ClassType)
        ensures
            c == ClassType::Marketplace,
    {
        ClassType::Marketplace
    }
}

/// Data of a class.
#[derive(Debug)]
pub struct ClassInfo {
    pub class_type: ClassType,
    /// Arbitrary data about a class, e.g. an IPFS hash.
    pub metadata: Vec<u8>,
}

/// Data of a marketplace instance.
#[derive(Debug)]
pub struct MarketInstance {
    /// The account that receives the royalty.
    pub author: AccountId,
    /// Royalty in percent, below 100.
    pub royalty: u8,
    pub metadata: Vec<u8>,
}

/// Data of a liquidity-mining position.
#[derive(Debug)]
pub struct LiqMinInstance {
    /// Shares in a liquidity-mining pool.
    pub shares: Balance,
    /// Value of the shares at the time of entry, in incentivized tokens.
    pub valued_shares: Balance,
    /// Accumulated reward per share.
    pub accumulated_rps: Balance,
    /// Rewards claimed until now.
    pub accumulated_claimed_rewards: Balance,
    pub metadata: Vec<u8>,
}

/// The pallet's configuration constants.
#[derive(Clone, Copy, Debug)]
pub struct NftConfig {
    /// Longest metadata.
    pub string_limit: u32,
    /// Deposit reserved for a marketplace class.
    pub class_deposit: Balance,
}

/// Errors of the NFT pallet.
#[derive(Clone, Copy, Debug, PartialEq, Eq, Structural)]
pub enum NftError {
    TooLong,
    NoAvailableInstanceId,
    NoAvailableClassId,
    NoWitness,
    TokenClassNotEmpty,
    ClassUnknown,
    RoyaltyNotSet,
    AuthorNotSet,
    MetadataNotSet,
    SharesNotSet,
    AccrpsNotSet,
    TokenFrozen,
    NotInRange,
    NotPermitted,
    ClassTypeMismatch,
    Overflow,
    /// The call needs the protocol origin.
    BadOrigin,
}

/// Events of the NFT pallet.
#[derive(Clone, Copy, Debug, PartialEq, Eq, Structural)]
pub enum NftEvent {
    /// sender, class, class type
    ClassCreated(AccountId, NftClassId, ClassType),
    /// class type, sender, class, instance
    InstanceMinted(ClassType, AccountId, NftClassId, NftInstanceId),
    /// from, to, class, instance
    InstanceTransferred(AccountId, AccountId, NftClassId, NftInstanceId),
    /// sender, class, instance
    InstanceBurned(AccountId, NftClassId, NftInstanceId),
    /// sender, class
    ClassDestroyed(AccountId, NftClassId),
}

/// What the uniques pallet must do for an NFT call.
#[derive(Clone, Copy, Debug, PartialEq, Eq, Structural)]
pub enum NftAction {
    /// Create a class owned and administered by `owner`, reserving `deposit` unless
    /// `free_holding`.
    CreateClass { class_id: NftClassId, owner: AccountId, deposit: Balance, free_holding: bool },
    /// Mint an instance to `owner`.
    Mint { class_id: NftClassId, instance_id: NftInstanceId, owner: AccountId },
    /// Transfer an instance to `dest`.
    Transfer { class_id: NftClassId, instance_id: NftInstanceId, dest: AccountId },
    /// Burn an instance.
    Burn { class_id: NftClassId, instance_id: NftInstanceId },
    /// Destroy an empty class, by `sender` or, when `None`, by the protocol.
    DestroyClass { class_id: NftClassId, sender: Option<AccountId> },
}

/// The account that events name for an origin: the signer, or the default account for the
/// protocol.
pub open spec fn account_or_default(sender: Option<AccountId>) -> AccountId {
    match sender {
        Some(a) => a,
        None => 0,
    }
}

/// Storage of the NFT pallet.
pub struct NftState {
    /// The id of the next class.
    pub next_class_id: NftClassId,
    /// The id of the next instance of each class; zero for classes not in the map.
    pub next_instance_id: HashMap<NftClassId, NftInstanceId>,
    /// Data of each class.
    pub classes: HashMap<NftClassId, ClassInfo>,
    /// Data of each marketplace instance, by class and instance.
    pub marketplace_instances: DoubleMap<MarketInstance>,
    /// Data of each liquidity-mining position, by class and instance.
    pub liqmin_instances: DoubleMap<LiqMinInstance>,
}

/// The id that the next instance of `class_id` gets.
pub open spec fn next_instance_of(next_instance_id: Map<NftClassId, NftInstanceId>, class_id: NftClassId) -> NftInstanceId {
    if next_instance_id.contains_key(class_id) {
        next_instance_id[class_id]
    } else {
        0
    }
}

/// Checks that `metadata` fits the limit.
pub fn to_bounded_string(metadata: Vec<u8>, config: &NftConfig) -> (r: Result<Vec<u8>, NftError>)
    ensures
        metadata@.len() > config.string_limit ==> r == Err::<Vec<u8>, NftError>(NftError::TooLong),
        metadata@.len() <= config.string_limit ==> r is Ok && r->Ok_0@ == metadata@,
{
    if metadata.len() > config.string_limit as usize {
        Err(NftError::TooLong)
    } else {
        Ok(metadata)
    }
}

/// Transfers an instance owned by `instance_owner` from `sender` to `dest`; a transfer to
/// oneself does nothing. Only the protocol (`by_protocol`) sends an instance to another account,
/// so that nobody burdens others with deposits, and only the owner's instance.
pub fn transfer(
    sender: AccountId,
    by_protocol: bool,
    class_id: NftClassId,
    instance_id: NftInstanceId,
    dest: AccountId,
    instance_owner: AccountId,
) -> (r: Result<(Vec<NftAction>, Option<NftEvent>), NftError>)
    ensures
        sender == dest ==> r is Ok && r->Ok_0.0@ == Seq::<NftAction>::empty() && r->Ok_0.1 is None,
        sender != dest && (!by_protocol || instance_owner != sender) ==> r == Err::<
            (Vec<NftAction>, Option<NftEvent>),
            NftError,
        >(NftError::NotPermitted),
        sender != dest && by_protocol && instance_owner == sender ==> r is Ok && r->Ok_0.0@ == seq![
            NftAction::Transfer { class_id, instance_id, dest },
        ] && r->Ok_0.1 == Some(NftEvent::InstanceTransferred(sender, dest, class_id, instance_id)),
{
    let mut actions: Vec<NftAction> = Vec::new();
    if sender == dest {
        return Ok((actions, None));
    }
    if !by_protocol || instance_owner != sender {
        return Err(NftError::NotPermitted);
    }
    actions.push(NftAction::Transfer { class_id, instance_id, dest });
    proof {
        assert(actions@ =~= seq![NftAction::Transfer { class_id, instance_id, dest }]);
    }
    Ok((actions, Some(NftEvent::InstanceTransferred(sender, dest, class_id, instance_id))))
}

impl NftState {
    /// Consistency of the storage: every class has an id below the next one, every
    /// marketplace instance has a royalty below 100, and every recorded instance has an id
    /// below the next one of its class.
    pub open spec fn wf(self) -> bool {
        &&& forall|c: NftClassId| #[trigger] self.classes@.contains_key(c) ==> c < self.next_class_id
        &&& forall|k: (u64, u64)| #[trigger] self.marketplace_instances@.contains_key(k) ==> {
            &&& self.marketplace_instances@[k].royalty < 100
            &&& k.1 < next_instance_of(self.next_instance_id@, k.0)
        }
        &&& forall|k: (u64, u64)| #[trigger] self.liqmin_instances@.contains_key(k) ==> k.1
            < next_instance_of(self.next_instance_id@, k.0)
    }

    /// Storage with no classes.
    pub fn new() -> (s: NftState)
        ensures
            s.next_class_id == 0,
            s.next_instance_id@ == Map::<NftClassId, NftInstanceId>::empty(),
            s.classes@ == Map::<NftClassId, ClassInfo>::empty(),
            s.marketplace_instances@ == Map::<(u64, u64), MarketInstance>::empty(),
            s.liqmin_instances@ == Map::<(u64, u64), LiqMinInstance>::empty(),
            s.wf(),
    {
        NftState {
            next_class_id: 0,
            next_instance_id: HashMap::new(),
            classes: HashMap::new(),
            marketplace_instances: DoubleMap::new(),
            liqmin_instances: DoubleMap::new(),
        }
    }

    /// The type of a class, if it exists.
    pub fn class_type(&self, class_id: NftClassId) -> (r: Option<ClassType>)
        ensures
            r == (if self.classes@.contains_key(class_id) {
                Some(self.classes@[class_id].class_type)
            } else {
                None
            }),
    {
        match self.classes.get(&class_id) {
            Some(c) => Some(c.class_type),
            None => None,
        }
    }

    /// Takes the next class id and advances it; fails when the ids are exhausted.
    pub fn get_next_class_id(&mut self) -> (r: Result<NftClassId, NftError>)
        ensures
            old(self).next_class_id == u64::MAX ==> r == Err::<NftClassId, NftError>(NftError::NoAvailableClassId)
                && final(self).next_class_id == old(self).next_class_id,
            old(self).next_class_id < u64::MAX ==> r == Ok::<NftClassId, NftError>(old(self).next_class_id)
                && final(self).next_class_id == old(self).next_class_id + 1,
            final(self).next_instance_id@ == old(self).next_instance_id@,
            final(self).classes@ == old(self).classes@,
            final(self).marketplace_instances@ == old(self).marketplace_instances@,
            final(self).liqmin_instances@ == old(self).liqmin_instances@,
    {
        let current_id = self.next_class_id;
        match current_id.checked_add(1) {
            Some(next) => {
                self.next_class_id = next;
                Ok(current_id)
            },
            None => Err(NftError::NoAvailableClassId),
        }
    }

    /// Takes the next instance id of a class and advances it; fails when the ids are exhausted.
    pub fn get_next_instance_id(&mut self, class_id: NftClassId) -> (r: Result<NftInstanceId, NftError>)
        ensures
            ({
                let current = next_instance_of(old(self).next_instance_id@, class_id);
                &&& current == u64::MAX ==> r == Err::<NftInstanceId, NftError>(NftError::NoAvailableInstanceId)
                    && final(self).next_instance_id@ == old(self).next_instance_id@
                &&& current < u64::MAX ==> r == Ok::<NftInstanceId, NftError>(current)
                    && final(self).next_instance_id@ == old(self).next_instance_id@.insert(class_id, (current + 1) as u64)
            }),
            final(self).next_class_id == old(self).next_class_id,
            final(self).classes@ == old(self).classes@,
            final(self).marketplace_instances@ == old(self).marketplace_instances@,
            final(self).liqmin_instances@ == old(self).liqmin_instances@,
    {
        let current_id = match self.next_instance_id.get(&class_id) {
            Some(id) => *id,
            None => 0,
        };
        match current_id.checked_add(1) {
            Some(next) => {
                self.next_instance_id.insert(class_id, next);
                Ok(current_id)
            },
            None => Err(NftError::NoAvailableInstanceId),
        }
    }

    /// Whether two storages hold the same ids and records.
    pub open spec fn same_state(self, other: NftState) -> bool {
        &&& self.next_class_id == other.next_class_id
        &&& self.next_instance_id@ == other.next_instance_id@
        &&& self.classes@ == other.classes@
        &&& self.marketplace_instances@ == other.marketplace_instances@
        &&& self.liqmin_instances@ == other.liqmin_instances@
    }

    /// Creates a class of `class_type` for `sender` (`None` for the protocol) under the next
    /// class id: pool-share classes hold no deposit, marketplace classes the configured one.
    pub fn do_create_class(
        &mut self,
        sender: Option<AccountId>,
        class_type: ClassType,
        metadata: Vec<u8>,
        config: &NftConfig,
    ) -> (r: Result<(NftClassId, Vec<NftAction>), NftError>)
        ensures
            old(self).wf() ==> final(self).wf(),
            old(self).next_class_id == u64::MAX ==> r == Err::<(NftClassId, Vec<NftAction>), NftError>(
                NftError::NoAvailableClassId,
            ) && final(self).same_state(*old(self)),
            old(self).next_class_id < u64::MAX && metadata@.len() > config.string_limit ==> r == Err::<
                (NftClassId, Vec<NftAction>),
                NftError,
            >(NftError::TooLong) && final(self).same_state(*old(self)),
            old(self).next_class_id < u64::MAX && metadata@.len() <= config.string_limit ==> r is Ok,
            r matches Ok((id, actions)) ==> {
                &&& id == old(self).next_class_id
                &&& final(self).next_class_id == id + 1
                &&& final(self).classes@ == old(self).classes@.insert(id, final(self).classes@[id])
                &&& final(self).classes@[id].class_type == class_type
                &&& final(self).classes@[id].metadata@ == metadata@
                &&& final(self).next_instance_id@ == old(self).next_instance_id@
                &&& final(self).marketplace_instances@ == old(self).marketplace_instances@
                &&& final(self).liqmin_instances@ == old(self).liqmin_instances@
                &&& actions@ == seq![
                    NftAction::CreateClass {
                        class_id: id,
                        owner: account_or_default(sender),
                        deposit: if class_type == ClassType::PoolShare { 0 } else { config.class_deposit },
                        free_holding: class_type == ClassType::PoolShare,
                    },
                ]
            },
    {
        if self.next_class_id == u64::MAX {
            return Err(NftError::NoAvailableClassId);
        }
        let metadata_bounded = to_bounded_string(metadata, config)?;
        let class_id = self.get_next_class_id()?;
        let (deposit, free_holding) = match class_type {
            ClassType::PoolShare => (0, true),
            _ => (config.class_deposit, false),
        };
        let owner = match sender {
            Some(a) => a,
            None => 0,
        };
        let mut actions: Vec<NftAction> = Vec::new();
        actions.push(NftAction::CreateClass { class_id, owner, deposit, free_holding });
        self.classes.insert(class_id, ClassInfo { class_type, metadata: metadata_bounded });
        proof {
            assert(actions@ =~= seq![NftAction::CreateClass { class_id, owner, deposit, free_holding }]);
            assert(self.classes@ =~= old(self).classes@.insert(class_id, self.classes@[class_id]));
        }
        Ok((class_id, actions))
    }

    /// Creates a class; pool-share classes only for the protocol (`sender` `None`).
    pub fn create_class(
        &mut self,
        sender: Option<AccountId>,
        class_type: ClassType,
        metadata: Vec<u8>,
        config: &NftConfig,
    ) -> (r: Result<(NftClassId, Vec<NftAction>, NftEvent), NftError>)
        ensures
            old(self).wf() ==> final(self).wf(),
            class_type == ClassType::PoolShare && sender is Some ==> r == Err::<
                (NftClassId, Vec<NftAction>, NftEvent),
                NftError,
            >(NftError::NotPermitted) && final(self).same_state(*old(self)),
            !(class_type == ClassType::PoolShare && sender is Some) && old(self).next_class_id == u64::MAX ==> r
                == Err::<(NftClassId, Vec<NftAction>, NftEvent), NftError>(NftError::NoAvailableClassId)
                && final(self).same_state(*old(self)),
            !(class_type == ClassType::PoolShare && sender is Some) && old(self).next_class_id < u64::MAX
                && metadata@.len() > config.string_limit ==> r == Err::<
                (NftClassId, Vec<NftAction>, NftEvent),
                NftError,
            >(NftError::TooLong) && final(self).same_state(*old(self)),
            !(class_type == ClassType::PoolShare && sender is Some) && old(self).next_class_id < u64::MAX
                && metadata@.len() <= config.string_limit ==> r is Ok,
            r matches Ok((id, actions, event)) ==> {
                &&& id == old(self).next_class_id
                &&& final(self).next_class_id == id + 1
                &&& final(self).classes@ == old(self).classes@.insert(id, final(self).classes@[id])
                &&& final(self).classes@[id].class_type == class_type
                &&& final(self).classes@[id].metadata@ == metadata@
                &&& final(self).next_instance_id@ == old(self).next_instance_id@
                &&& final(self).marketplace_instances@ == old(self).marketplace_instances@
                &&& final(self).liqmin_instances@ == old(self).liqmin_instances@
                &&& actions@ == seq![
                    NftAction::CreateClass {
                        class_id: id,
                        owner: account_or_default(sender),
                        deposit: if class_type == ClassType::PoolShare { 0 } else { config.class_deposit },
                        free_holding: class_type == ClassType::PoolShare,
                    },
                ]
                &&& event == NftEvent::ClassCreated(account_or_default(sender), id, class_type)
            },
    {
        if class_type == ClassType::PoolShare && sender.is_some() {
            return Err(NftError::NotPermitted);
        }
        let (class_id, actions) = self.do_create_class(sender, class_type, metadata, config)?;
        let account = match sender {
            Some(a) => a,
            None => 0,
        };
        Ok((class_id, actions, NftEvent::ClassCreated(account, class_id, class_type)))
    }

    /// Mints a marketplace instance of `class_id` to `sender` under the class's next instance
    /// id, with `author` receiving a royalty of `royalty` percent.
    pub fn mint_for_marketplace(
        &mut self,
        sender: AccountId,
        class_id: NftClassId,
        author: AccountId,
        royalty: u8,
        metadata: Vec<u8>,
        config: &NftConfig,
    ) -> (r: Result<(NftInstanceId, Vec<NftAction>, NftEvent), NftError>)
        ensures
            old(self).wf() ==> final(self).wf(),
            r is Err ==> final(self).same_state(*old(self)),
            r == Err::<(NftInstanceId, Vec<NftAction>, NftEvent), NftError>(NftError::ClassUnknown) <==> !old(
                self,
            ).classes@.contains_key(class_id),
            old(self).classes@.contains_key(class_id) ==> (r == Err::<
                (NftInstanceId, Vec<NftAction>, NftEvent),
                NftError,
            >(NftError::ClassTypeMismatch) <==> old(self).classes@[class_id].class_type != ClassType::Marketplace),
            r is Ok <==> {
                &&& old(self).classes@.contains_key(class_id)
                &&& old(self).classes@[class_id].class_type == ClassType::Marketplace
                &&& royalty < 100
                &&& next_instance_of(old(self).next_instance_id@, class_id) < u64::MAX
                &&& metadata@.len() <= config.string_limit
            },
            old(self).classes@.contains_key(class_id) && old(self).classes@[class_id].class_type
                == ClassType::Marketplace && royalty >= 100 ==> r == Err::<
                (NftInstanceId, Vec<NftAction>, NftEvent),
                NftError,
            >(NftError::NotInRange),
            old(self).classes@.contains_key(class_id) && old(self).classes@[class_id].class_type
                == ClassType::Marketplace && royalty < 100 && next_instance_of(old(self).next_instance_id@, class_id)
                == u64::MAX ==> r == Err::<(NftInstanceId, Vec<NftAction>, NftEvent), NftError>(
                NftError::NoAvailableInstanceId,
            ),
            old(self).classes@.contains_key(class_id) && old(self).classes@[class_id].class_type
                == ClassType::Marketplace && royalty < 100 && next_instance_of(old(self).next_instance_id@, class_id)
                < u64::MAX && metadata@.len() > config.string_limit ==> r == Err::<
                (NftInstanceId, Vec<NftAction>, NftEvent),
                NftError,
            >(NftError::TooLong),
            r matches Ok((instance_id, actions, event)) ==> {
                &&& instance_id == next_instance_of(old(self).next_instance_id@, class_id)
                &&& final(self).next_instance_id@ == old(self).next_instance_id@.insert(
                    class_id,
                    (instance_id + 1) as u64,
                )
                &&& final(self).marketplace_instances@ == old(self).marketplace_instances@.insert(
                    (class_id, instance_id),
                    final(self).marketplace_instances@[(class_id, instance_id)],
                )
                &&& final(self).marketplace_instances@[(class_id, instance_id)].author == author
                &&& final(self).marketplace_instances@[(class_id, instance_id)].royalty == royalty
                &&& final(self).marketplace_instances@[(class_id, instance_id)].metadata@ == metadata@
                &&& final(self).next_class_id == old(self).next_class_id
                &&& final(self).classes@ == old(self).classes@
                &&& final(self).liqmin_instances@ == old(self).liqmin_instances@
                &&& actions@ == seq![NftAction::Mint { class_id, instance_id, owner: sender }]
                &&& event == NftEvent::InstanceMinted(ClassType::Marketplace, sender, class_id, instance_id)
            },
    {
        let class_type = match self.class_type(class_id) {
            Some(t) => t,
            None => return Err(NftError::ClassUnknown),
        };
        if class_type != ClassType::Marketplace {
            return Err(NftError::ClassTypeMismatch);
        }
        if royalty >= 100 {
            return Err(NftError::NotInRange);
        }
        let current = match self.next_instance_id.get(&class_id) {
            Some(id) => *id,
            None => 0,
        };
        if current == u64::MAX {
            return Err(NftError::NoAvailableInstanceId);
        }
        let metadata_bounded = to_bounded_string(metadata, config)?;
        let instance_id = self.get_next_instance_id(class_id)?;
        let mut actions: Vec<NftAction> = Vec::new();
        actions.push(NftAction::Mint { class_id, instance_id, owner: sender });
        self.marketplace_instances.insert(
            class_id,
            instance_id,
            MarketInstance { author, royalty, metadata: metadata_bounded },
        );
        proof {
            assert(actions@ =~= seq![NftAction::Mint { class_id, instance_id, owner: sender }]);
            assert(self.marketplace_instances@ =~= old(self).marketplace_instances@.insert(
                (class_id, instance_id),
                self.marketplace_instances@[(class_id, instance_id)],
            ));
            if old(self).wf() {
                assert forall|k: (u64, u64)| #[trigger] self.marketplace_instances@.contains_key(k) implies {
                    &&& self.marketplace_instances@[k].royalty < 100
                    &&& k.1 < next_instance_of(self.next_instance_id@, k.0)
                } by {
                    if k != (class_id, instance_id) {
                        assert(old(self).marketplace_instances@.contains_key(k));
                    }
                }
                assert forall|k: (u64, u64)| #[trigger] self.liqmin_instances@.contains_key(k) implies k.1
                    < next_instance_of(self.next_instance_id@, k.0) by {
                    assert(old(self).liqmin_instances@.contains_key(k));
                }
            }
        }
        Ok((instance_id, actions, NftEvent::InstanceMinted(ClassType::Marketplace, sender, class_id, instance_id)))
    }

    /// Mints a liquidity-mining position of pool-share class `class_id` to `owner` under the
    /// class's next instance id.
    pub fn do_mint_for_liquidity_mining(
        &mut self,
        class_id: NftClassId,
        owner: AccountId,
        metadata: Vec<u8>,
        shares: Balance,
        valued_shares: Balance,
        accumulated_rps: Balance,
        accumulated_claimed_rewards: Balance,
        config: &NftConfig,
    ) -> (r: Result<(ClassType, NftInstanceId, Vec<NftAction>), NftError>)
        ensures
            old(self).wf() ==> final(self).wf(),
            r is Err ==> final(self).same_state(*old(self)),
            !old(self).classes@.contains_key(class_id) ==> r == Err::<
                (ClassType, NftInstanceId, Vec<NftAction>),
                NftError,
            >(NftError::ClassUnknown),
            old(self).classes@.contains_key(class_id) && old(self).classes@[class_id].class_type
                != ClassType::PoolShare ==> r == Err::<(ClassType, NftInstanceId, Vec<NftAction>), NftError>(
                NftError::ClassTypeMismatch,
            ),
            old(self).classes@.contains_key(class_id) && old(self).classes@[class_id].class_type
                == ClassType::PoolShare && next_instance_of(old(self).next_instance_id@, class_id) == u64::MAX ==> r
                == Err::<(ClassType, NftInstanceId, Vec<NftAction>), NftError>(NftError::NoAvailableInstanceId),
            old(self).classes@.contains_key(class_id) && old(self).classes@[class_id].class_type
                == ClassType::PoolShare && next_instance_of(old(self).next_instance_id@, class_id) < u64::MAX
                && metadata@.len() > config.string_limit ==> r == Err::<
                (ClassType, NftInstanceId, Vec<NftAction>),
                NftError,
            >(NftError::TooLong),
            old(self).classes@.contains_key(class_id) && old(self).classes@[class_id].class_type
                == ClassType::PoolShare && next_instance_of(old(self).next_instance_id@, class_id) < u64::MAX
                && metadata@.len() <= config.string_limit ==> r is Ok,
            r matches Ok((class_type, instance_id, actions)) ==> {
                let position = final(self).liqmin_instances@[(class_id, instance_id)];
                &&& class_type == ClassType::PoolShare
                &&& instance_id == next_instance_of(old(self).next_instance_id@, class_id)
                &&& final(self).next_instance_id@ == old(self).next_instance_id@.insert(
                    class_id,
                    (instance_id + 1) as u64,
                )
                &&& final(self).liqmin_instances@ == old(self).liqmin_instances@.insert((class_id, instance_id), position)
                &&& position.shares == shares
                &&& position.valued_shares == valued_shares
                &&& position.accumulated_rps == accumulated_rps
                &&& position.accumulated_claimed_rewards == accumulated_claimed_rewards
                &&& position.metadata@ == metadata@
                &&& final(self).next_class_id == old(self).next_class_id
                &&& final(self).classes@ == old(self).classes@
                &&& final(self).marketplace_instances@ == old(self).marketplace_instances@
                &&& actions@ == seq![NftAction::Mint { class_id, instance_id, owner }]
            },
    {
        let class_type = match self.class_type(class_id) {
            Some(t) => t,
            None => return Err(NftError::ClassUnknown),
        };
        if class_type != ClassType::PoolShare {
            return Err(NftError::ClassTypeMismatch);
        }
        let current = match self.next_instance_id.get(&class_id) {
            Some(id) => *id,
            None => 0,
        };
        if current == u64::MAX {
            return Err(NftError::NoAvailableInstanceId);
        }
        let metadata_bounded = to_bounded_string(metadata, config)?;
        let instance_id = self.get_next_instance_id(class_id)?;
        let mut actions: Vec<NftAction> = Vec::new();
        actions.push(NftAction::Mint { class_id, instance_id, owner });
        self.liqmin_instances.insert(
            class_id,
            instance_id,
            LiqMinInstance {
                metadata: metadata_bounded,
                shares,
                valued_shares,
                accumulated_rps,
                accumulated_claimed_rewards,
            },
        );
        proof {
            assert(actions@ =~= seq![NftAction::Mint { class_id, instance_id, owner }]);
            if old(self).wf() {
                assert forall|k: (u64, u64)| #[trigger] self.liqmin_instances@.contains_key(k) implies k.1
                    < next_instance_of(self.next_instance_id@, k.0) by {
                    if k != (class_id, instance_id) {
                        assert(old(self).liqmin_instances@.contains_key(k));
                    }
                }
                assert forall|k: (u64, u64)| #[trigger] self.marketplace_instances@.contains_key(k) implies {
                    &&& self.marketplace_instances@[k].royalty < 100
                    &&& k.1 < next_instance_of(self.next_instance_id@, k.0)
                } by {
                    assert(old(self).marketplace_instances@.contains_key(k));
                }
            }
        }
        Ok((class_type, instance_id, actions))
    }

    /// Mints a liquidity-mining position for the protocol: the position records the shares,
    /// valued shares, accumulated reward per share and claimed rewards as given. Only the
    /// protocol origin (`by_protocol`) may mint one.
    pub fn mint_for_liquidity_mining(
        &mut self,
        by_protocol: bool,
        owner: AccountId,
        class_id: NftClassId,
        shares: Balance,
        accumulated_rps: Balance,
        valued_shares: Balance,
        accumulated_claimed_rewards: Balance,
        metadata: Vec<u8>,
        config: &NftConfig,
    ) -> (r: Result<(NftInstanceId, Vec<NftAction>, NftEvent), NftError>)
        ensures
            old(self).wf() ==> final(self).wf(),
            r is Err ==> final(self).same_state(*old(self)),
            !by_protocol ==> r == Err::<(NftInstanceId, Vec<NftAction>, NftEvent), NftError>(NftError::BadOrigin),
            by_protocol && !old(self).classes@.contains_key(class_id) ==> r == Err::<
                (NftInstanceId, Vec<NftAction>, NftEvent),
                NftError,
            >(NftError::ClassUnknown),
            by_protocol && old(self).classes@.contains_key(class_id) && old(self).classes@[class_id].class_type
                != ClassType::PoolShare ==> r == Err::<(NftInstanceId, Vec<NftAction>, NftEvent), NftError>(
                NftError::ClassTypeMismatch,
            ),
            by_protocol && old(self).classes@.contains_key(class_id) && old(self).classes@[class_id].class_type
                == ClassType::PoolShare && next_instance_of(old(self).next_instance_id@, class_id) == u64::MAX ==> r
                == Err::<(NftInstanceId, Vec<NftAction>, NftEvent), NftError>(NftError::NoAvailableInstanceId),
            by_protocol && old(self).classes@.contains_key(class_id) && old(self).classes@[class_id].class_type
                == ClassType::PoolShare && next_instance_of(old(self).next_instance_id@, class_id) < u64::MAX
                && metadata@.len() > config.string_limit ==> r == Err::<
                (NftInstanceId, Vec<NftAction>, NftEvent),
                NftError,
            >(NftError::TooLong),
            r is Ok <==> {
                &&& by_protocol
                &&& old(self).classes@.contains_key(class_id)
                &&& old(self).classes@[class_id].class_type == ClassType::PoolShare
                &&& next_instance_of(old(self).next_instance_id@, class_id) < u64::MAX
                &&& metadata@.len() <= config.string_limit
            },
            r matches Ok((instance_id, actions, event)) ==> {
                let position = final(self).liqmin_instances@[(class_id, instance_id)];
                &&& instance_id == next_instance_of(old(self).next_instance_id@, class_id)
                &&& final(self).liqmin_instances@ == old(self).liqmin_instances@.insert((class_id, instance_id), position)
                &&& position.shares == shares
                &&& position.valued_shares == valued_shares
                &&& position.accumulated_rps == accumulated_rps
                &&& position.accumulated_claimed_rewards == accumulated_claimed_rewards
                &&& actions@ == seq![NftAction::Mint { class_id, instance_id, owner }]
                &&& event == NftEvent::InstanceMinted(ClassType::PoolShare, 0, class_id, instance_id)
            },
    {
        if !by_protocol {
            return Err(NftError::BadOrigin);
        }
        let (class_type, instance_id, actions) = self.do_mint_for_liquidity_mining(
            class_id,
            owner,
            metadata,
            shares,
            valued_shares,
            accumulated_rps,
            accumulated_claimed_rewards,
            config,
        )?;
        Ok((instance_id, actions, NftEvent::InstanceMinted(class_type, 0, class_id, instance_id)))
    }

    /// Burns an instance owned by `instance_owner` at the request of `sender`, and forgets its
    /// data.
    pub fn burn(
        &mut self,
        sender: AccountId,
        class_id: NftClassId,
        instance_id: NftInstanceId,
        instance_owner: AccountId,
    ) -> (r: Result<(Vec<NftAction>, NftEvent), NftError>)
        ensures
            old(self).wf() ==> final(self).wf(),
            r is Err ==> final(self).same_state(*old(self)),
            instance_owner != sender ==> r == Err::<(Vec<NftAction>, NftEvent), NftError>(NftError::NotPermitted),
            instance_owner == sender && !old(self).classes@.contains_key(class_id) ==> r == Err::<
                (Vec<NftAction>, NftEvent),
                NftError,
            >(NftError::ClassUnknown),
            instance_owner == sender && old(self).classes@.contains_key(class_id) ==> r is Ok,
            r matches Ok((actions, event)) ==> {
                &&& actions@ == seq![NftAction::Burn { class_id, instance_id }]
                &&& event == NftEvent::InstanceBurned(sender, class_id, instance_id)
                &&& final(self).next_class_id == old(self).next_class_id
                &&& final(self).next_instance_id@ == old(self).next_instance_id@
                &&& final(self).classes@ == old(self).classes@
                &&& old(self).classes@[class_id].class_type == ClassType::Marketplace ==> {
                    &&& final(self).marketplace_instances@ == old(self).marketplace_instances@.remove(
                        (class_id, instance_id),
                    )
                    &&& final(self).liqmin_instances@ == old(self).liqmin_instances@
                }
                &&& old(self).classes@[class_id].class_type == ClassType::PoolShare ==> {
                    &&& final(self).liqmin_instances@ == old(self).liqmin_instances@.remove((class_id, instance_id))
                    &&& final(self).marketplace_instances@ == old(self).marketplace_instances@
                }
            },
    {
        if instance_owner != sender {
            return Err(NftError::NotPermitted);
        }
        let class_type = match self.class_type(class_id) {
            Some(t) => t,
            None => return Err(NftError::ClassUnknown),
        };
        match class_type {
            ClassType::Marketplace => {
                self.marketplace_instances.remove(class_id, instance_id);
            },
            ClassType::PoolShare => {
                self.liqmin_instances.remove(class_id, instance_id);
            },
        }
        let mut actions: Vec<NftAction> = Vec::new();
        actions.push(NftAction::Burn { class_id, instance_id });
        proof {
            assert(actions@ =~= seq![NftAction::Burn { class_id, instance_id }]);
        }
        Ok((actions, NftEvent::InstanceBurned(sender, class_id, instance_id)))
    }

    /// Destroys an empty class at the request of `sender` (`None` for the protocol); pool-share
    /// classes only for the protocol. `witness_instances` is the number of instances that the
    /// uniques pallet counts in the class, when it knows the class.
    pub fn destroy_class(
        &mut self,
        sender: Option<AccountId>,
        class_id: NftClassId,
        witness_instances: Option<u32>,
    ) -> (r: Result<(Vec<NftAction>, NftEvent), NftError>)
        ensures
            old(self).wf() ==> final(self).wf(),
            r is Err ==> final(self).same_state(*old(self)),
            !old(self).classes@.contains_key(class_id) ==> r == Err::<(Vec<NftAction>, NftEvent), NftError>(
                NftError::ClassUnknown,
            ),
            old(self).classes@.contains_key(class_id) && old(self).classes@[class_id].class_type
                == ClassType::PoolShare && sender is Some ==> r == Err::<(Vec<NftAction>, NftEvent), NftError>(
                NftError::NotPermitted,
            ),
            old(self).classes@.contains_key(class_id) && !(old(self).classes@[class_id].class_type
                == ClassType::PoolShare && sender is Some) && witness_instances is None ==> r == Err::<
                (Vec<NftAction>, NftEvent),
                NftError,
            >(NftError::NoWitness),
            old(self).classes@.contains_key(class_id) && !(old(self).classes@[class_id].class_type
                == ClassType::PoolShare && sender is Some) && (witness_instances is Some && witness_instances->0 != 0) ==> r
                == Err::<(Vec<NftAction>, NftEvent), NftError>(NftError::TokenClassNotEmpty),
            old(self).classes@.contains_key(class_id) && !(old(self).classes@[class_id].class_type
                == ClassType::PoolShare && sender is Some) && witness_instances == Some(0u32) ==> r is Ok,
            r matches Ok((actions, event)) ==> {
                &&& final(self).classes@ == old(self).classes@.remove(class_id)
                &&& final(self).next_class_id == old(self).next_class_id
                &&& final(self).next_instance_id@ == old(self).next_instance_id@
                &&& final(self).marketplace_instances@ == old(self).marketplace_instances@
                &&& final(self).liqmin_instances@ == old(self).liqmin_instances@
                &&& actions@ == seq![NftAction::DestroyClass { class_id, sender }]
                &&& event == NftEvent::ClassDestroyed(account_or_default(sender), class_id)
            },
    {
        let class_type = match self.class_type(class_id) {
            Some(t) => t,
            None => return Err(NftError::ClassUnknown),
        };
        if class_type == ClassType::PoolShare && sender.is_some() {
            return Err(NftError::NotPermitted);
        }
        let instances = match witness_instances {
            Some(n) => n,
            None => return Err(NftError::NoWitness),
        };
        if instances != 0 {
            return Err(NftError::TokenClassNotEmpty);
        }
        self.classes.remove(&class_id);
        let mut actions: Vec<NftAction> = Vec::new();
        actions.push(NftAction::DestroyClass { class_id, sender });
        proof {
            assert(actions@ =~= seq![NftAction::DestroyClass { class_id, sender }]);
        }
        let account = match sender {
            Some(a) => a,
            None => 0,
        };
        Ok((actions, NftEvent::ClassDestroyed(account, class_id)))
    }
}

/// A new class gets an id that no class has, and a new instance an id that no instance of its
/// class has: ids are never reused.
pub proof fn lemma_next_ids_are_fresh(s: NftState, class_id: NftClassId)
    requires
        s.wf(),
    ensures
        !s.classes@.contains_key(s.next_class_id),
        !s.marketplace_instances@.contains_key((class_id, next_instance_of(s.next_instance_id@, class_id))),
        !s.liqmin_instances@.contains_key((class_id, next_instance_of(s.next_instance_id@, class_id))),
{
}

/// Burning an instance just minted forgets it: the records are those before the mint.
pub proof fn lemma_burn_undoes_mint(
    s: NftState,
    class_id: NftClassId,
    market: MarketInstance,
    position: LiqMinInstance,
)
    requires
        s.wf(),
    ensures
        ({
            let key = (class_id, next_instance_of(s.next_instance_id@, class_id));
            &&& s.marketplace_instances@.insert(key, market).remove(key) == s.marketplace_instances@
            &&& s.liqmin_instances@.insert(key, position).remove(key) == s.liqmin_instances@
        }),
{
    let key = (class_id, next_instance_of(s.next_instance_id@, class_id));
    assert(s.marketplace_instances@.insert(key, market).remove(key) =~= s.marketplace_instances@);
    assert(s.liqmin_instances@.insert(key, position).remove(key) =~= s.liqmin_instances@);
}

/// Destroying a class just created leaves the classes that were there before.
pub proof fn lemma_destroy_undoes_create(s: NftState, info: ClassInfo)
    requires
        s.wf(),
    ensures
        s.classes@.insert(s.next_class_id, info).remove(s.next_class_id) == s.classes@,
{
    assert(s.classes@.insert(s.next_class_id, info).remove(s.next_class_id) =~= s.classes@);
}

} // verus!
