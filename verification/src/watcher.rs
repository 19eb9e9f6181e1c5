//! The watcher side: the in-memory registry of registered items.
//!
//! The registry is an insertion-ordered sequence of `(service, sender)`
//! records, appended to by `RegisterStatusNotifierItem` calls and published
//! to the bus as the derived list of registration strings. Registration
//! validates that the derived string will split back apart unambiguously:
//! the sender must be non-empty and neither field may contain the
//! delimiter.

use vstd::prelude::*;

use crate::errors::RegistrationError;
use crate::registration::spec_registration_string;
use crate::registration::make_registration_string;
use crate::registration::DELIMITER;
use crate::text::contains;
use crate::text::contains_char;

verus! {

/// One registered item: the service name the registering application chose,
/// and the bus address of the connection that registered it. Immutable once
/// created; identity is the `(sender, service)` pair.
#[derive(Clone, Debug, PartialEq, Eq)]
pub struct StatusNotifierItem {
    pub service: String,
    pub sender: String,
}

/// The registration string the registry derives for one item.
pub open spec fn spec_item_registration(it: StatusNotifierItem) -> Seq<char> {
    spec_registration_string(it.sender@, it.service@)
}

/// An item whose derived registration string splits back apart
/// unambiguously: non-empty sender, no delimiter in either field.
pub open spec fn spec_item_valid(it: StatusNotifierItem) -> bool {
    &&& it.sender@.len() > 0
    &&& !contains_char(it.sender@, DELIMITER)
    &&& !contains_char(it.service@, DELIMITER)
}

impl StatusNotifierItem {
    /// Record a registration as received from the bus.
    pub fn new(service: String, sender: String) -> (it: Self)
        ensures
            it.service == service,
            it.sender == sender,
    {
        StatusNotifierItem { service, sender }
    }

    /// The registration string published for this item.
    pub fn to_register_string(&self) -> (r: String)
        ensures
            r@ == spec_item_registration(*self),
    {
        make_registration_string(self.sender.as_str(), self.service.as_str())
    }
}

/// A signal the watcher asks the bus layer to broadcast.
#[derive(Debug)]
pub struct SignalEmission {
    /// The member name of the signal.
    pub name: String,
    /// Its single string argument.
    pub payload: String,
}

/// The item registry: registered items in registration order. Entries are
/// append-only; nothing in the base protocol removes one.
pub struct StatusNotifierWatcher {
    pub services: Vec<StatusNotifierItem>,
}

/// The derived list the watcher publishes as its
/// `RegisteredStatusNotifierItems` property: one registration string per
/// item, in registration order.
pub open spec fn spec_registered_items(w: StatusNotifierWatcher) -> Seq<Seq<char>> {
    w.services@.map_values(|it: StatusNotifierItem| spec_item_registration(it))
}

impl StatusNotifierWatcher {
    /// Every registered entry splits back apart unambiguously. Established
    /// by `new`, preserved by every registration.
    pub open spec fn wf(&self) -> bool {
        forall|i: int| 0 <= i < self.services@.len() ==> spec_item_valid(#[trigger] self.services@[i])
    }

    /// An empty registry.
    pub fn new() -> (w: Self)
        ensures
            w.services@.len() == 0,
            w.wf(),
    {
        StatusNotifierWatcher { services: Vec::new() }
    }

    /// Handle a `RegisterStatusNotifierItem` call: append the caller's
    /// `(service, sender)` record and hand back the
    /// `StatusNotifierItemRegistered` signal to broadcast, with its constant
    /// payload. A registration whose derived string could not be split back
    /// apart — empty sender, or a delimiter in either field — is rejected
    /// and leaves the registry unchanged; every other registration
    /// succeeds.
    pub fn register_item(&mut self, service: String, sender: String) -> (r: Result<
        SignalEmission,
        RegistrationError,
    >)
        ensures
            match r {
                Ok(sig) => {
                    &&& final(self).services@ == old(self).services@.push(
                        (StatusNotifierItem { service, sender }),
                    )
                    &&& spec_item_valid((StatusNotifierItem { service, sender }))
                    &&& sig.name@ == "StatusNotifierItemRegistered"@
                    &&& sig.payload@ == "/"@
                },
                Err(e) => {
                    &&& *final(self) == *old(self)
                    &&& !spec_item_valid((StatusNotifierItem { service, sender }))
                    &&& (e == RegistrationError::EmptySender <==> sender@.len() == 0)
                    &&& (e == RegistrationError::SenderContainsDelimiter <==> sender@.len() > 0
                        && contains_char(sender@, DELIMITER))
                    &&& (e == RegistrationError::ServiceContainsDelimiter <==> sender@.len() > 0
                        && !contains_char(sender@, DELIMITER) && contains_char(service@, DELIMITER))
                },
            },
            old(self).wf() ==> final(self).wf(),
    {
        if sender.as_str().is_empty() {
            return Err(RegistrationError::EmptySender);
        }
        if contains(sender.as_str(), DELIMITER) {
            return Err(RegistrationError::SenderContainsDelimiter);
        }
        if contains(service.as_str(), DELIMITER) {
            return Err(RegistrationError::ServiceContainsDelimiter);
        }
        self.services.push(StatusNotifierItem { service, sender });
        Ok(SignalEmission { name: "StatusNotifierItemRegistered".to_owned(), payload: "/".to_owned() })
    }

    /// Handle a `RegisterStatusNotifierHost` call: accepted unconditionally,
    /// and nothing is recorded — the base protocol keeps no host registry.
    pub fn register_host(&mut self, service: &str) -> (accepted: bool)
        ensures
            accepted,
            *final(self) == *old(self),
    {
        let _ = service;
        true
    }

    /// The current snapshot of derived registration strings, in
    /// registration order — the `RegisteredStatusNotifierItems` property.
    pub fn services_to_register_string(&self) -> (r: Vec<String>)
        ensures
            r.deep_view() == spec_registered_items(*self),
    {
        let mut r: Vec<String> = Vec::new();
        let n = self.services.len();
        let mut i: usize = 0;
        while i < n
            invariant
                0 <= i <= n,
                n == self.services@.len(),
                r.deep_view() =~= spec_registered_items(*self).take(i as int),
            decreases n - i,
        {
            let ghost prev = r.deep_view();
            let s = self.services[i].to_register_string();
            r.push(s);
            proof {
                assert(r.deep_view() =~= prev.push(spec_registered_items(*self)[i as int]));
                assert(spec_registered_items(*self).take(i + 1) =~= prev.push(
                    spec_registered_items(*self)[i as int],
                ));
            }
            i = i + 1;
        }
        proof {
            assert(r.deep_view() =~= spec_registered_items(*self));
        }
        r
    }

    /// The `IsStatusNotifierHostRegistered` property: constantly true — the
    /// base protocol tracks no host liveness.
    pub fn is_host_registered(&self) -> (r: bool)
        ensures
            r,
    {
        true
    }

    /// The `ProtocolVersion` property: constantly zero.
    pub fn protocol_version(&self) -> (r: u8)
        ensures
            r == 0,
    {
        0
    }
}

/// The derived list always has exactly one entry per registered item, in
/// registration order.
pub proof fn lemma_registered_items_track_registry(w: StatusNotifierWatcher)
    ensures
        spec_registered_items(w).len() == w.services@.len(),
        forall|i: int|
            0 <= i < w.services@.len() ==> spec_registered_items(w)[i] == spec_item_registration(
                #[trigger] w.services@[i],
            ),
{
}

/// One successful registration grows the derived list by exactly that
/// item's registration string, at the end; together with
/// `register_item`'s contract this pins the derived list after any run of
/// registrations to one entry per successful call, in call order.
pub proof fn lemma_register_appends_registration(
    pre: StatusNotifierWatcher,
    post: StatusNotifierWatcher,
    it: StatusNotifierItem,
)
    requires
        post.services@ == pre.services@.push(it),
    ensures
        spec_registered_items(post) == spec_registered_items(pre).push(spec_item_registration(it)),
{
    assert(spec_registered_items(post) =~= spec_registered_items(pre).push(
        spec_item_registration(it),
    ));
}

/// Reading the derived list twice with no registration in between yields
/// identical snapshots: the property is a pure function of the registry.
pub proof fn lemma_snapshot_idempotent(w: StatusNotifierWatcher, a: Seq<Seq<char>>, b: Seq<Seq<char>>)
    requires
        a == spec_registered_items(w),
        b == spec_registered_items(w),
    ensures
        a == b,
{
}

} // verus!
