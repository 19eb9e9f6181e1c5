//! The item-proxy model: typed access to one remote item.
//!
//! A proxy is built by parsing a registration string into the item's bus
//! address. Every interaction it prepares is plain data — a property read,
//! a method invocation, or a signal subscription, each addressed to exactly
//! this item on the item interface — which the bus layer then performs
//! with the configured timeout. A method invocation descriptor carries its
//! member name and arguments, and building one has no other effect: one
//! descriptor, one outbound call.

use vstd::prelude::*;

use crate::errors::HostError;
use crate::protocol::spec_item_interface;
use crate::protocol::item_interface;
use crate::registration::spec_parse_registration;
use crate::registration::parse_registration;
use crate::registration::ItemReference;

verus! {

/// The properties of the item interface the host can read.
#[derive(Debug, Copy, Clone, PartialEq, Eq, Structural)]
pub enum ItemProperty {
    Category,
    Id,
    Title,
    Status,
    WindowId,
    IconName,
    OverlayIconName,
    AttentionIconName,
    AttentionMovieName,
    IsMenu,
    Menu,
    IconThemePath,
}

/// The wire name of an item property.
pub open spec fn spec_item_property_name(p: ItemProperty) -> Seq<char> {
    match p {
        ItemProperty::Category => "Category"@,
        ItemProperty::Id => "Id"@,
        ItemProperty::Title => "Title"@,
        ItemProperty::Status => "Status"@,
        ItemProperty::WindowId => "WindowId"@,
        ItemProperty::IconName => "IconName"@,
        ItemProperty::OverlayIconName => "OverlayIconName"@,
        ItemProperty::AttentionIconName => "AttentionIconName"@,
        ItemProperty::AttentionMovieName => "AttentionMovieName"@,
        ItemProperty::IsMenu => "IsMenu"@,
        ItemProperty::Menu => "Menu"@,
        ItemProperty::IconThemePath => "IconThemePath"@,
    }
}

impl ItemProperty {
    /// The wire name of this property.
    pub fn wire_name(&self) -> (r: &'static str)
        ensures
            r@ == spec_item_property_name(*self),
    {
        match self {
            ItemProperty::Category => "Category",
            ItemProperty::Id => "Id",
            ItemProperty::Title => "Title",
            ItemProperty::Status => "Status",
            ItemProperty::WindowId => "WindowId",
            ItemProperty::IconName => "IconName",
            ItemProperty::OverlayIconName => "OverlayIconName",
            ItemProperty::AttentionIconName => "AttentionIconName",
            ItemProperty::AttentionMovieName => "AttentionMovieName",
            ItemProperty::IsMenu => "IsMenu",
            ItemProperty::Menu => "Menu",
            ItemProperty::IconThemePath => "IconThemePath",
        }
    }
}

/// The method invocations the item interface offers. Coordinates are
/// caller-supplied pixel positions; the scroll orientation is a short
/// string token passed through uninterpreted.
#[derive(Debug, Clone, PartialEq, Eq)]
pub enum ItemAction {
    ContextMenu { x: i64, y: i64 },
    Activate { x: i64, y: i64 },
    SecondaryActivate { x: i64, y: i64 },
    Scroll { delta: i64, orientation: String },
}

/// The wire member name of an action.
pub open spec fn spec_action_member(a: ItemAction) -> Seq<char> {
    match a {
        ItemAction::ContextMenu { .. } => "ContextMenu"@,
        ItemAction::Activate { .. } => "Activate"@,
        ItemAction::SecondaryActivate { .. } => "SecondaryActivate"@,
        ItemAction::Scroll { .. } => "Scroll"@,
    }
}

impl ItemAction {
    /// The wire member name of this action.
    pub fn member_name(&self) -> (r: &'static str)
        ensures
            r@ == spec_action_member(*self),
    {
        match self {
            ItemAction::ContextMenu { .. } => "ContextMenu",
            ItemAction::Activate { .. } => "Activate",
            ItemAction::SecondaryActivate { .. } => "SecondaryActivate",
            ItemAction::Scroll { .. } => "Scroll",
        }
    }
}

/// One outbound method call, fully addressed: where it goes, which member
/// it invokes, and with which arguments.
#[derive(Debug, Clone, PartialEq, Eq)]
pub struct OutboundCall {
    pub destination: String,
    pub path: String,
    pub interface: String,
    pub member: String,
    pub action: ItemAction,
}

/// One property read, fully addressed.
#[derive(Debug, Clone, PartialEq, Eq)]
pub struct PropertyGet {
    pub destination: String,
    pub path: String,
    pub interface: String,
    pub property: String,
}

/// The change-notification signals an item emits. All six are offered for
/// protocol completeness.
#[derive(Debug, Copy, Clone, PartialEq, Eq, Structural)]
pub enum ItemSignal {
    NewTitle,
    NewIcon,
    NewAttentionIcon,
    NewOverlayIcon,
    NewToolTip,
    NewStatus,
}

/// The wire name of an item signal.
pub open spec fn spec_item_signal_name(s: ItemSignal) -> Seq<char> {
    match s {
        ItemSignal::NewTitle => "NewTitle"@,
        ItemSignal::NewIcon => "NewIcon"@,
        ItemSignal::NewAttentionIcon => "NewAttentionIcon"@,
        ItemSignal::NewOverlayIcon => "NewOverlayIcon"@,
        ItemSignal::NewToolTip => "NewToolTip"@,
        ItemSignal::NewStatus => "NewStatus"@,
    }
}

impl ItemSignal {
    /// The wire name of this signal.
    pub fn wire_name(&self) -> (r: &'static str)
        ensures
            r@ == spec_item_signal_name(*self),
    {
        match self {
            ItemSignal::NewTitle => "NewTitle",
            ItemSignal::NewIcon => "NewIcon",
            ItemSignal::NewAttentionIcon => "NewAttentionIcon",
            ItemSignal::NewOverlayIcon => "NewOverlayIcon",
            ItemSignal::NewToolTip => "NewToolTip",
            ItemSignal::NewStatus => "NewStatus",
        }
    }
}

/// One signal subscription, fully addressed: match messages from this item
/// on the item interface with this member.
#[derive(Debug, Clone, PartialEq, Eq)]
pub struct SignalMatch {
    pub destination: String,
    pub path: String,
    pub interface: String,
    pub member: String,
}

/// A typed handle on one remote item: its bus address, and the address of
/// its menu object once one is known. It prepares reads, invocations and
/// subscriptions against exactly that address.
#[derive(Debug, Clone, PartialEq, Eq)]
pub struct StatusNotifierItem {
    pub item: ItemReference,
    pub menu: Option<ItemReference>,
}

impl StatusNotifierItem {
    /// Build a proxy from an opaque registration string: parse it into the
    /// item's bus address. A malformed string — one with an empty
    /// addressing target — is rejected.
    pub fn new(name: String) -> (r: Result<Self, HostError>)
        ensures
            match r {
                Ok(p) => spec_parse_registration(name@) == Some(p.item.spec_address()) && p.menu
                    is None,
                Err(e) => spec_parse_registration(name@) is None && e
                    == HostError::MalformedRegistration,
            },
    {
        let item = parse_registration(name.as_str())?;
        Ok(StatusNotifierItem { item, menu: None })
    }

    /// Prepare a read of one property of this item: a fresh round trip,
    /// addressed to this item on the item interface — no local caching.
    pub fn get(&self, property: ItemProperty) -> (r: PropertyGet)
        ensures
            r.destination@ == self.item.destination@,
            r.path@ == self.item.path@,
            r.interface@ == spec_item_interface(),
            r.property@ == spec_item_property_name(property),
    {
        PropertyGet {
            destination: self.item.destination.clone(),
            path: self.item.path.clone(),
            interface: item_interface().to_owned(),
            property: property.wire_name().to_owned(),
        }
    }

    /// Prepare one method invocation on this item: exactly one outbound
    /// call, carrying the action's member name and its arguments, addressed
    /// to this item on the item interface.
    pub fn call(&self, action: ItemAction) -> (r: OutboundCall)
        ensures
            r.destination@ == self.item.destination@,
            r.path@ == self.item.path@,
            r.interface@ == spec_item_interface(),
            r.member@ == spec_action_member(action),
            r.action == action,
    {
        let member = action.member_name().to_owned();
        OutboundCall {
            destination: self.item.destination.clone(),
            path: self.item.path.clone(),
            interface: item_interface().to_owned(),
            member,
            action,
        }
    }

    /// Whether a call descriptor addresses this item on the item interface.
    pub open spec fn spec_addresses(&self, r: OutboundCall) -> bool {
        &&& r.destination@ == self.item.destination@
        &&& r.path@ == self.item.path@
        &&& r.interface@ == spec_item_interface()
    }

    /// Prepare `ContextMenu(x, y)`.
    pub fn context_menu(&self, x: i64, y: i64) -> (r: OutboundCall)
        ensures
            self.spec_addresses(r),
            r.member@ == "ContextMenu"@,
            r.action == (ItemAction::ContextMenu { x, y }),
    {
        self.call(ItemAction::ContextMenu { x, y })
    }

    /// Prepare `Activate(x, y)`.
    pub fn activate(&self, x: i64, y: i64) -> (r: OutboundCall)
        ensures
            self.spec_addresses(r),
            r.member@ == "Activate"@,
            r.action == (ItemAction::Activate { x, y }),
    {
        self.call(ItemAction::Activate { x, y })
    }

    /// Prepare `SecondaryActivate(x, y)`.
    pub fn secondary_activate(&self, x: i64, y: i64) -> (r: OutboundCall)
        ensures
            self.spec_addresses(r),
            r.member@ == "SecondaryActivate"@,
            r.action == (ItemAction::SecondaryActivate { x, y }),
    {
        self.call(ItemAction::SecondaryActivate { x, y })
    }

    /// Prepare `Scroll(delta, orientation)`: one outbound call with exactly
    /// those two arguments, and nothing else — no signal is emitted on this
    /// side.
    pub fn scroll(&self, delta: i64, orientation: String) -> (r: OutboundCall)
        ensures
            self.spec_addresses(r),
            r.member@ == "Scroll"@,
            r.action == (ItemAction::Scroll { delta, orientation }),
    {
        self.call(ItemAction::Scroll { delta, orientation })
    }

    /// Prepare a subscription to one of this item's change signals.
    pub fn signal_match(&self, signal: ItemSignal) -> (r: SignalMatch)
        ensures
            r.destination@ == self.item.destination@,
            r.path@ == self.item.path@,
            r.interface@ == spec_item_interface(),
            r.member@ == spec_item_signal_name(signal),
    {
        SignalMatch {
            destination: self.item.destination.clone(),
            path: self.item.path.clone(),
            interface: item_interface().to_owned(),
            member: signal.wire_name().to_owned(),
        }
    }
}

} // verus!
