//! The life of guardian sets: creation with the bridge, rotation, and the
//! time for which a superseded set's messages stay valid.

use crate::error::Error;
use crate::keys::{Pubkey, RawKey};
use crate::state::{Bridge, BridgeConfig, GuardianSet};
use crate::vaa::BodyUpdateGuardianSet;
use vstd::prelude::*;

verus! {

/// Whether a message of guardian set `set` is accepted at time `now`, where
/// superseded sets stay valid for `window`. A set that is not superseded
/// (expiration time 0) is accepted at any time.
pub open spec fn expiry_spec(set: GuardianSet, window: u32, now: u32) -> Result<(), Error> {
    if set.expiration_time == 0 {
        Ok(())
    } else if set.expiration_time < now {
        Err(Error::GuardianSetExpired)
    } else if set.expiration_time + window < now {
        Err(Error::VAAExpired)
    } else {
        Ok(())
    }
}

/// The bridge and its first guardian set as `initialize` writes them.
pub open spec fn genesis(key: RawKey, config: BridgeConfig, now: u32) -> (Bridge, GuardianSet) {
    (
        Bridge { guardian_set_index: 0, config, is_initialized: true },
        GuardianSet {
            index: 0,
            pubkey: key,
            creation_time: now,
            expiration_time: 0,
            is_initialized: true,
        },
    )
}

/// The records after a rotation: the bridge, the superseded set and the new
/// set.
pub struct Rotation {
    pub bridge: Bridge,
    pub old_set: GuardianSet,
    pub new_set: GuardianSet,
}

/// The outcome of a rotation from `old_set` to the set that `update` names,
/// which must have the index after the active one, so that the indices of the
/// guardian sets are 0, 1, 2 and so on. The new set's record is to live at
/// `supplied`, `derived` is the address derived for it and `slot` is what
/// `supplied` stores.
pub open spec fn rotate_spec(
    bridge: Bridge,
    old_set: GuardianSet,
    update: BodyUpdateGuardianSet,
    now: u32,
    derived: Result<Pubkey, Error>,
    supplied: Pubkey,
    slot: Result<GuardianSet, Error>,
) -> Result<Rotation, Error> {
    if bridge.guardian_set_index != old_set.index {
        Err(Error::OldGuardianSet)
    } else if update.new_index != bridge.guardian_set_index + 1 {
        Err(Error::GuardianIndexNotIncreasing)
    } else if now + bridge.config.vaa_expiration_time > u32::MAX {
        Err(Error::TimeOutOfRange)
    } else {
        match derived {
            Err(e) => Err(e),
            Ok(expected) => if expected != supplied {
                Err(Error::InvalidDerivedAccount)
            } else {
                match slot {
                    Err(e) => Err(e),
                    Ok(s) => if s.is_initialized {
                        Err(Error::AlreadyExists)
                    } else {
                        Ok(
                            Rotation {
                                bridge: Bridge { guardian_set_index: update.new_index, ..bridge },
                                old_set: GuardianSet {
                                    expiration_time: (now
                                        + bridge.config.vaa_expiration_time) as u32,
                                    ..old_set
                                },
                                new_set: GuardianSet {
                                    index: update.new_index,
                                    pubkey: update.new_key,
                                    creation_time: now,
                                    expiration_time: 0,
                                    is_initialized: true,
                                },
                            },
                        )
                    },
                }
            },
        }
    }
}

impl GuardianSet {
    /// Checks that a message of this set is still accepted at time `now`.
    pub fn check_expiry(&self, window: u32, now: u32) -> (r: Result<(), Error>)
        ensures
            r == expiry_spec(*self, window, now),
    {
        if self.expiration_time == 0 {
            return Ok(());
        }
        if self.expiration_time < now {
            return Err(Error::GuardianSetExpired);
        }
        let limit: u64 = self.expiration_time as u64 + window as u64;
        if limit < now as u64 {
            return Err(Error::VAAExpired);
        }
        Ok(())
    }
}

impl Bridge {
    /// The bridge and its first guardian set.
    pub fn genesis(key: RawKey, config: BridgeConfig, now: u32) -> (r: (Bridge, GuardianSet))
        ensures
            r == genesis(key, config, now),
    {
        (
            Bridge { guardian_set_index: 0, config, is_initialized: true },
            GuardianSet {
                index: 0,
                pubkey: key,
                creation_time: now,
                expiration_time: 0,
                is_initialized: true,
            },
        )
    }

    /// Rotates from the active guardian set to the one with the next index. On
    /// success the bridge names the new set, the old set expires one window from `now`,
    /// and the new set is returned; on failure nothing changes.
    pub fn rotate(
        bridge: &mut Bridge,
        old_guardian_set: &mut GuardianSet,
        update: &BodyUpdateGuardianSet,
        now: u32,
        derived: Result<Pubkey, Error>,
        supplied: &Pubkey,
        slot: Result<GuardianSet, Error>,
    ) -> (r: Result<GuardianSet, Error>)
        ensures
            match rotate_spec(
                *old(bridge),
                *old(old_guardian_set),
                *update,
                now,
                derived,
                *supplied,
                slot,
            ) {
                Ok(rotation) => r == Ok::<GuardianSet, Error>(rotation.new_set) && *final(bridge)
                    == rotation.bridge && *final(old_guardian_set) == rotation.old_set,
                Err(e) => r == Err::<GuardianSet, Error>(e) && *final(bridge) == *old(bridge)
                    && *final(old_guardian_set) == *old(old_guardian_set),
            },
    {
        if bridge.guardian_set_index != old_guardian_set.index {
            return Err(Error::OldGuardianSet);
        }
        if bridge.guardian_set_index >= update.new_index || update.new_index
            - bridge.guardian_set_index != 1 {
            return Err(Error::GuardianIndexNotIncreasing);
        }
        let expiry: u32 = match now.checked_add(bridge.config.vaa_expiration_time) {
            Some(t) => t,
            None => {
                return Err(Error::TimeOutOfRange);
            },
        };
        let expected: Pubkey = match derived {
            Ok(k) => k,
            Err(e) => {
                return Err(e);
            },
        };
        if !expected.equals(supplied) {
            return Err(Error::InvalidDerivedAccount);
        }
        let found: GuardianSet = match slot {
            Ok(s) => s,
            Err(e) => {
                return Err(e);
            },
        };
        if found.is_initialized {
            return Err(Error::AlreadyExists);
        }
        old_guardian_set.expiration_time = expiry;
        bridge.guardian_set_index = update.new_index;
        Ok(
            GuardianSet {
                index: update.new_index,
                pubkey: update.new_key,
                creation_time: now,
                expiration_time: 0,
                is_initialized: true,
            },
        )
    }
}

} // verus!
