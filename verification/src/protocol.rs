//! Fixed, protocol-mandated bus addressing: the watcher's well-known name,
//! object path and interface, the item interface, the watcher's property
//! and signal vocabularies, and the bound every remote call must respect.

use vstd::prelude::*;

verus! {

/// The well-known bus name the watcher must own; only one watcher may
/// legitimately exist.
pub open spec fn spec_watcher_bus_name() -> Seq<char> {
    "org.kde.StatusNotifierWatcher"@
}

/// The watcher's well-known bus name.
pub fn watcher_bus_name() -> (r: &'static str)
    ensures
        r@ == spec_watcher_bus_name(),
{
    "org.kde.StatusNotifierWatcher"
}

/// The object path the watcher serves its registry at.
pub open spec fn spec_watcher_object_path() -> Seq<char> {
    "/StatusNotifierWatcher"@
}

/// The watcher's object path.
pub fn watcher_object_path() -> (r: &'static str)
    ensures
        r@ == spec_watcher_object_path(),
{
    "/StatusNotifierWatcher"
}

/// The watcher's interface name — identical to its bus name.
pub fn watcher_interface() -> (r: &'static str)
    ensures
        r@ == spec_watcher_bus_name(),
{
    "org.kde.StatusNotifierWatcher"
}

/// The interface every item serves.
pub open spec fn spec_item_interface() -> Seq<char> {
    "org.kde.StatusNotifierItem"@
}

/// The item interface name.
pub fn item_interface() -> (r: &'static str)
    ensures
        r@ == spec_item_interface(),
{
    "org.kde.StatusNotifierItem"
}

/// The bound, in milliseconds, on every remote read or invocation against
/// an item or the watcher: a hung remote process must cost the host at most
/// this long, after which the call fails with a timeout error.
pub fn remote_call_timeout_ms() -> (r: u64)
    ensures
        r == 50,
{
    50
}

/// The watcher's read-only properties.
#[derive(Debug, Copy, Clone, PartialEq, Eq, Structural)]
pub enum WatcherProperty {
    RegisteredStatusNotifierItems,
    IsStatusNotifierHostRegistered,
    ProtocolVersion,
}

/// The wire name of a watcher property.
pub open spec fn spec_watcher_property_name(p: WatcherProperty) -> Seq<char> {
    match p {
        WatcherProperty::RegisteredStatusNotifierItems => "RegisteredStatusNotifierItems"@,
        WatcherProperty::IsStatusNotifierHostRegistered => "IsStatusNotifierHostRegistered"@,
        WatcherProperty::ProtocolVersion => "ProtocolVersion"@,
    }
}

impl WatcherProperty {
    /// The wire name of this property.
    pub fn wire_name(&self) -> (r: &'static str)
        ensures
            r@ == spec_watcher_property_name(*self),
    {
        match self {
            WatcherProperty::RegisteredStatusNotifierItems => "RegisteredStatusNotifierItems",
            WatcherProperty::IsStatusNotifierHostRegistered => "IsStatusNotifierHostRegistered",
            WatcherProperty::ProtocolVersion => "ProtocolVersion",
        }
    }
}

/// The signals declared on the watcher's interface. The host-registration
/// pair and the unregistration signal are declared for protocol
/// completeness; the base watcher never emits them.
#[derive(Debug, Copy, Clone, PartialEq, Eq, Structural)]
pub enum WatcherSignal {
    StatusNotifierHostRegistered,
    StatusNotifierHostUnregistered,
    StatusNotifierItemRegistered,
    StatusNotifierItemUnregistered,
}

/// The wire name of a watcher signal.
pub open spec fn spec_watcher_signal_name(s: WatcherSignal) -> Seq<char> {
    match s {
        WatcherSignal::StatusNotifierHostRegistered => "StatusNotifierHostRegistered"@,
        WatcherSignal::StatusNotifierHostUnregistered => "StatusNotifierHostUnregistered"@,
        WatcherSignal::StatusNotifierItemRegistered => "StatusNotifierItemRegistered"@,
        WatcherSignal::StatusNotifierItemUnregistered => "StatusNotifierItemUnregistered"@,
    }
}

impl WatcherSignal {
    /// The wire name of this signal.
    pub fn wire_name(&self) -> (r: &'static str)
        ensures
            r@ == spec_watcher_signal_name(*self),
    {
        match self {
            WatcherSignal::StatusNotifierHostRegistered => "StatusNotifierHostRegistered",
            WatcherSignal::StatusNotifierHostUnregistered => "StatusNotifierHostUnregistered",
            WatcherSignal::StatusNotifierItemRegistered => "StatusNotifierItemRegistered",
            WatcherSignal::StatusNotifierItemUnregistered => "StatusNotifierItemUnregistered",
        }
    }
}

} // verus!
