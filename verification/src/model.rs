//! The registry as a mathematical object: five maps, and each operation as a
//! function from one such state to the next.
//!
//! Identities, delegate types and attribute names are strings, seen here as
//! `Seq<char>`; attribute values are bytes. Times are whole seconds since the
//! Unix epoch and heights are block heights, both `u64`.

use crate::error::RegistryError;
use crate::time::{expiry, in_force};
use vstd::prelude::*;

verus! {

/// The next value of a nonce. It does not wrap: `u64::MAX` stays.
pub open spec fn next_nonce(n: u64) -> u64 {
    if n == u64::MAX {
        n
    } else {
        (n + 1) as u64
    }
}

/// Everything a registry holds.
#[verifier::ext_equal]
pub struct RegistryState {
    /// Identity to owner. An identity without a record owns itself.
    pub owners: Map<Seq<char>, Seq<char>>,
    /// (identity, delegate type, delegate) to the time the grant runs out.
    pub delegates: Map<(Seq<char>, Seq<char>, Seq<char>), u64>,
    /// (identity, name, value) to the time the attribute runs out.
    pub attributes: Map<(Seq<char>, Seq<char>, Seq<u8>), u64>,
    /// Identity to the height of the block that last changed its records.
    pub changed: Map<Seq<char>, u64>,
    /// Identity to its nonce.
    pub nonce: Map<Seq<char>, u64>,
}

impl RegistryState {
    /// The recorded owner of `identity`, or `identity` itself without a record.
    pub open spec fn owner_of(self, identity: Seq<char>) -> Seq<char> {
        if self.owners.contains_key(identity) {
            self.owners[identity]
        } else {
            identity
        }
    }

    /// Whether `actor` may change the records of `identity`.
    pub open spec fn is_owner(self, actor: Seq<char>, identity: Seq<char>) -> bool {
        actor == self.owner_of(identity)
    }

    /// What a call by `actor` that changes the records of `identity` returns.
    pub open spec fn authorize(self, actor: Seq<char>, identity: Seq<char>) -> Result<
        (),
        RegistryError,
    > {
        if self.is_owner(actor, identity) {
            Ok(())
        } else {
            Err(RegistryError::Unauthorized)
        }
    }

    /// Whether the grant `(identity, delegate_type, delegate)` is in force at `now`.
    pub open spec fn delegate_valid(
        self,
        identity: Seq<char>,
        delegate_type: Seq<char>,
        delegate: Seq<char>,
        now: u64,
    ) -> bool {
        let key = (identity, delegate_type, delegate);
        self.delegates.contains_key(key) && in_force(self.delegates[key], now)
    }

    /// Whether the attribute `(identity, name, value)` is in force at `now`.
    pub open spec fn attribute_valid(
        self,
        identity: Seq<char>,
        name: Seq<char>,
        value: Seq<u8>,
        now: u64,
    ) -> bool {
        let key = (identity, name, value);
        self.attributes.contains_key(key) && in_force(self.attributes[key], now)
    }

    /// The height at which the records of `identity` last changed, 0 if never.
    pub open spec fn changed_at(self, identity: Seq<char>) -> u64 {
        if self.changed.contains_key(identity) {
            self.changed[identity]
        } else {
            0
        }
    }

    /// The nonce of `identity`, 0 if it was never incremented.
    pub open spec fn nonce_of(self, identity: Seq<char>) -> u64 {
        if self.nonce.contains_key(identity) {
            self.nonce[identity]
        } else {
            0
        }
    }

    /// The state after `actor` asks, in a block of height `height`, to hand
    /// `identity` to `new_owner`. Only the owner is listened to.
    pub open spec fn change_owner(
        self,
        actor: Seq<char>,
        height: u64,
        identity: Seq<char>,
        new_owner: Seq<char>,
    ) -> RegistryState {
        if self.is_owner(actor, identity) {
            RegistryState {
                owners: self.owners.insert(identity, new_owner),
                changed: self.changed.insert(identity, height),
                ..self
            }
        } else {
            self
        }
    }

    /// The state after `actor` asks to set the expiry of the grant `key` to
    /// `valid_until`. Only the owner of the identity in `key` is listened to.
    pub open spec fn write_delegate(
        self,
        actor: Seq<char>,
        height: u64,
        key: (Seq<char>, Seq<char>, Seq<char>),
        valid_until: u64,
    ) -> RegistryState {
        if self.is_owner(actor, key.0) {
            RegistryState {
                delegates: self.delegates.insert(key, valid_until),
                changed: self.changed.insert(key.0, height),
                ..self
            }
        } else {
            self
        }
    }

    /// The state after `actor` asks to set the expiry of the attribute `key`
    /// to `valid_until`. Only the owner of the identity in `key` is listened to.
    pub open spec fn write_attribute(
        self,
        actor: Seq<char>,
        height: u64,
        key: (Seq<char>, Seq<char>, Seq<u8>),
        valid_until: u64,
    ) -> RegistryState {
        if self.is_owner(actor, key.0) {
            RegistryState {
                attributes: self.attributes.insert(key, valid_until),
                changed: self.changed.insert(key.0, height),
                ..self
            }
        } else {
            self
        }
    }

    /// The state after `actor` asks, at time `now`, to grant `delegate` the
    /// role `delegate_type` on `identity` for `validity_secs` seconds.
    pub open spec fn add_delegate(
        self,
        actor: Seq<char>,
        now: u64,
        height: u64,
        identity: Seq<char>,
        delegate_type: Seq<char>,
        delegate: Seq<char>,
        validity_secs: u64,
    ) -> RegistryState {
        self.write_delegate(
            actor,
            height,
            (identity, delegate_type, delegate),
            expiry(now, validity_secs),
        )
    }

    /// The state after `actor` asks to revoke that grant. The record stays,
    /// with expiry 0.
    pub open spec fn revoke_delegate(
        self,
        actor: Seq<char>,
        height: u64,
        identity: Seq<char>,
        delegate_type: Seq<char>,
        delegate: Seq<char>,
    ) -> RegistryState {
        self.write_delegate(actor, height, (identity, delegate_type, delegate), 0)
    }

    /// The state after `actor` asks, at time `now`, to publish the attribute
    /// `(name, value)` of `identity` for `validity_secs` seconds.
    pub open spec fn set_attribute(
        self,
        actor: Seq<char>,
        now: u64,
        height: u64,
        identity: Seq<char>,
        name: Seq<char>,
        value: Seq<u8>,
        validity_secs: u64,
    ) -> RegistryState {
        self.write_attribute(actor, height, (identity, name, value), expiry(now, validity_secs))
    }

    /// The state after `actor` asks to revoke that attribute. The record
    /// stays, with expiry 0.
    pub open spec fn revoke_attribute(
        self,
        actor: Seq<char>,
        height: u64,
        identity: Seq<char>,
        name: Seq<char>,
        value: Seq<u8>,
    ) -> RegistryState {
        self.write_attribute(actor, height, (identity, name, value), 0)
    }

    /// The state after anyone increments the nonce of `identity`.
    pub open spec fn increment_nonce(self, identity: Seq<char>) -> RegistryState {
        RegistryState {
            nonce: self.nonce.insert(identity, next_nonce(self.nonce_of(identity))),
            ..self
        }
    }
}

/// What a caller can ask of the registry: one variant for each operation
/// that changes it.
pub enum Request {
    /// Hand `identity` to `new_owner`.
    ChangeOwner { identity: Seq<char>, new_owner: Seq<char> },
    /// Grant `delegate` the role `delegate_type` on `identity` for
    /// `validity_secs` seconds.
    AddDelegate {
        identity: Seq<char>,
        delegate_type: Seq<char>,
        delegate: Seq<char>,
        validity_secs: u64,
    },
    /// Revoke that grant.
    RevokeDelegate { identity: Seq<char>, delegate_type: Seq<char>, delegate: Seq<char> },
    /// Publish the attribute `(name, value)` of `identity` for
    /// `validity_secs` seconds.
    SetAttribute { identity: Seq<char>, name: Seq<char>, value: Seq<u8>, validity_secs: u64 },
    /// Revoke that attribute.
    RevokeAttribute { identity: Seq<char>, name: Seq<char>, value: Seq<u8> },
    /// Add one to the nonce of `identity`.
    IncrementNonce { identity: Seq<char> },
}

impl Request {
    /// The identity whose records the request is about.
    pub open spec fn identity(self) -> Seq<char> {
        match self {
            Request::ChangeOwner { identity, .. } => identity,
            Request::AddDelegate { identity, .. } => identity,
            Request::RevokeDelegate { identity, .. } => identity,
            Request::SetAttribute { identity, .. } => identity,
            Request::RevokeAttribute { identity, .. } => identity,
            Request::IncrementNonce { identity } => identity,
        }
    }

    /// Whether the request is open to the owner only. Incrementing a nonce
    /// is open to everyone.
    pub open spec fn owner_only(self) -> bool {
        !(self is IncrementNonce)
    }
}

/// A request, with what the host says of the call that brings it: who makes
/// it, at what time, in a block of what height.
pub struct Call {
    pub actor: Seq<char>,
    pub now: u64,
    pub height: u64,
    pub request: Request,
}

impl Call {
    /// Whether the registry carries the call out in state `state`.
    pub open spec fn permitted(self, state: RegistryState) -> bool {
        self.request.owner_only() ==> state.is_owner(self.actor, self.request.identity())
    }

    /// Whether the call, made in state `state`, gives the delegate grant
    /// `key` a new expiry by `add_delegate`.
    pub open spec fn grants_delegate(
        self,
        state: RegistryState,
        key: (Seq<char>, Seq<char>, Seq<char>),
    ) -> bool {
        self.request matches Request::AddDelegate { identity, delegate_type, delegate, .. }
            && (identity, delegate_type, delegate) == key && self.permitted(state)
    }

    /// Whether the call, made in state `state`, gives the attribute `key` a
    /// new expiry by `set_attribute`.
    pub open spec fn sets_attribute(
        self,
        state: RegistryState,
        key: (Seq<char>, Seq<char>, Seq<u8>),
    ) -> bool {
        self.request matches Request::SetAttribute { identity, name, value, .. } && (
            identity,
            name,
            value,
        ) == key && self.permitted(state)
    }
}

impl RegistryState {
    /// The state after one call: what the operation of that name leaves.
    pub open spec fn apply(self, call: Call) -> RegistryState {
        match call.request {
            Request::ChangeOwner { identity, new_owner } => self.change_owner(
                call.actor,
                call.height,
                identity,
                new_owner,
            ),
            Request::AddDelegate {
                identity,
                delegate_type,
                delegate,
                validity_secs,
            } => self.add_delegate(
                call.actor,
                call.now,
                call.height,
                identity,
                delegate_type,
                delegate,
                validity_secs,
            ),
            Request::RevokeDelegate { identity, delegate_type, delegate } => self.revoke_delegate(
                call.actor,
                call.height,
                identity,
                delegate_type,
                delegate,
            ),
            Request::SetAttribute { identity, name, value, validity_secs } => self.set_attribute(
                call.actor,
                call.now,
                call.height,
                identity,
                name,
                value,
                validity_secs,
            ),
            Request::RevokeAttribute { identity, name, value } => self.revoke_attribute(
                call.actor,
                call.height,
                identity,
                name,
                value,
            ),
            Request::IncrementNonce { identity } => self.increment_nonce(identity),
        }
    }

    /// The state after a run of calls, first to last.
    pub open spec fn apply_all(self, calls: Seq<Call>) -> RegistryState
        decreases calls.len(),
    {
        if calls.len() == 0 {
            self
        } else {
            self.apply_all(calls.drop_last()).apply(calls.last())
        }
    }

    /// Whether the delegate grant `key` is in force at no time: it was never
    /// written, or it was revoked.
    pub open spec fn delegate_dormant(self, key: (Seq<char>, Seq<char>, Seq<char>)) -> bool {
        self.delegates.contains_key(key) ==> self.delegates[key] == 0
    }

    /// Whether the attribute `key` is in force at no time: it was never
    /// written, or it was revoked.
    pub open spec fn attribute_dormant(self, key: (Seq<char>, Seq<char>, Seq<u8>)) -> bool {
        self.attributes.contains_key(key) ==> self.attributes[key] == 0
    }
}

} // verus!
