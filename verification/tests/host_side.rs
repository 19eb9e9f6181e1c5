//! Host-side behaviour: the registration-string codec, indexed and bulk
//! resolution, the proxy descriptors, the wire vocabularies, and display
//! selection.

use tray::display::select_icon;
use tray::display::IconDisplay;
use tray::errors::HostError;
use tray::host::get_item_reference;
use tray::host::resolve_registered_items;
use tray::kinds::Category;
use tray::kinds::Status;
use tray::protocol::item_interface;
use tray::protocol::remote_call_timeout_ms;
use tray::protocol::watcher_bus_name;
use tray::protocol::watcher_interface;
use tray::protocol::watcher_object_path;
use tray::protocol::WatcherProperty;
use tray::protocol::WatcherSignal;
use tray::proxy::ItemAction;
use tray::proxy::ItemProperty;
use tray::proxy::ItemSignal;
use tray::proxy::StatusNotifierItem;
use tray::registration::make_registration_string;
use tray::registration::parse_registration;
use tray::watcher::StatusNotifierWatcher;

#[test]
fn round_trip_recovers_sender_and_normalized_service() {
    for (sender, service) in [(":1.23", "app1"), (":1.45", ""), ("org.example.x", "item")] {
        let s = make_registration_string(sender, service);
        let r = parse_registration(&s).unwrap();
        assert_eq!(r.destination, sender);
        assert_eq!(r.path, format!("/{}", service));
    }
}

#[test]
fn parse_without_delimiter_addresses_whole_string_at_root() {
    let r = parse_registration(":1.23app1").unwrap();
    assert_eq!(r.destination, ":1.23app1");
    assert_eq!(r.path, "/");
}

#[test]
fn parse_keeps_later_delimiters_in_the_path() {
    let r = parse_registration(":1.23/StatusNotifierItem/menu").unwrap();
    assert_eq!(r.destination, ":1.23");
    assert_eq!(r.path, "/StatusNotifierItem/menu");
}

#[test]
fn parse_rejects_empty_target() {
    assert_eq!(
        parse_registration("").unwrap_err(),
        HostError::MalformedRegistration
    );
    assert_eq!(
        parse_registration("/app1").unwrap_err(),
        HostError::MalformedRegistration
    );
}

#[test]
fn get_item_resolves_each_registration_in_order() {
    let mut w = StatusNotifierWatcher::new();
    let pairs = [(":1.23", "a"), (":1.45", "b"), (":1.67", "c")];
    for (sender, service) in pairs {
        w.register_item(service.to_string(), sender.to_string())
            .unwrap();
    }
    let items = w.services_to_register_string();
    for (i, (sender, service)) in pairs.iter().enumerate() {
        let r = get_item_reference(&items, i).unwrap();
        assert_eq!(r.destination, *sender);
        assert_eq!(r.path, format!("/{}", service));
    }
}

#[test]
fn get_item_out_of_range_is_never_a_parse_or_transport_error() {
    let mut w = StatusNotifierWatcher::new();
    w.register_item("a".to_string(), ":1.23".to_string())
        .unwrap();
    let items = w.services_to_register_string();
    let e = get_item_reference(&items, 5).unwrap_err();
    assert_eq!(e, HostError::OutOfRange { index: 5, len: 1 });
    assert_ne!(e, HostError::MalformedRegistration);
    assert_ne!(e, HostError::Transport);
}

#[test]
fn resolving_all_items_skips_malformed_entries_only() {
    let items = vec![
        ":1.23/app1".to_string(),
        String::new(),
        "/bad".to_string(),
        ":1.45/app2".to_string(),
    ];
    let refs = resolve_registered_items(&items);
    assert_eq!(refs.len(), 2);
    assert_eq!(refs[0].destination, ":1.23");
    assert_eq!(refs[0].path, "/app1");
    assert_eq!(refs[1].destination, ":1.45");
    assert_eq!(refs[1].path, "/app2");
}

#[test]
fn resolving_a_valid_registry_skips_nothing() {
    let mut w = StatusNotifierWatcher::new();
    let pairs = [(":1.23", "a"), (":1.45", "b"), (":1.67", "c")];
    for (sender, service) in pairs {
        w.register_item(service.to_string(), sender.to_string())
            .unwrap();
    }
    let refs = resolve_registered_items(&w.services_to_register_string());
    assert_eq!(refs.len(), pairs.len());
    for (r, (sender, service)) in refs.iter().zip(pairs) {
        assert_eq!(r.destination, sender);
        assert_eq!(r.path, format!("/{}", service));
    }
}

#[test]
fn two_items_register_and_item_zero_addresses_first_sender() {
    let mut w = StatusNotifierWatcher::new();
    w.register_item("app1".to_string(), ":1.23".to_string())
        .unwrap();
    w.register_item("app2".to_string(), ":1.45".to_string())
        .unwrap();
    let items = w.services_to_register_string();
    assert_eq!(items.len(), 2);
    let first = get_item_reference(&items, 0).unwrap();
    assert_eq!(first.destination, ":1.23");
}

#[test]
fn proxy_parses_its_registration_string() {
    let p = StatusNotifierItem::new(":1.23/app1".to_string()).unwrap();
    assert_eq!(p.item.destination, ":1.23");
    assert_eq!(p.item.path, "/app1");
    assert!(p.menu.is_none());
    assert_eq!(
        StatusNotifierItem::new("/app1".to_string()).unwrap_err(),
        HostError::MalformedRegistration
    );
}

#[test]
fn scroll_prepares_exactly_one_call_with_its_two_arguments() {
    let p = StatusNotifierItem::new(":1.23/app1".to_string()).unwrap();
    let call = p.scroll(-1, "vertical".to_string());
    assert_eq!(call.destination, ":1.23");
    assert_eq!(call.path, "/app1");
    assert_eq!(call.interface, "org.kde.StatusNotifierItem");
    assert_eq!(call.member, "Scroll");
    assert_eq!(
        call.action,
        ItemAction::Scroll {
            delta: -1,
            orientation: "vertical".to_string()
        }
    );
}

#[test]
fn action_calls_carry_their_member_names() {
    let p = StatusNotifierItem::new(":1.23/app1".to_string()).unwrap();
    assert_eq!(p.context_menu(3, 4).member, "ContextMenu");
    assert_eq!(p.activate(1, 2).member, "Activate");
    assert_eq!(p.secondary_activate(0, 0).member, "SecondaryActivate");
    let a = p.activate(7, 9);
    assert_eq!(a.action, ItemAction::Activate { x: 7, y: 9 });
}

#[test]
fn property_reads_address_the_item_interface() {
    let p = StatusNotifierItem::new(":1.23/app1".to_string()).unwrap();
    let get = p.get(ItemProperty::IconThemePath);
    assert_eq!(get.destination, ":1.23");
    assert_eq!(get.path, "/app1");
    assert_eq!(get.interface, "org.kde.StatusNotifierItem");
    assert_eq!(get.property, "IconThemePath");
    assert_eq!(p.get(ItemProperty::WindowId).property, "WindowId");
}

#[test]
fn signal_subscriptions_match_this_item() {
    let p = StatusNotifierItem::new(":1.23/app1".to_string()).unwrap();
    let m = p.signal_match(ItemSignal::NewStatus);
    assert_eq!(m.destination, ":1.23");
    assert_eq!(m.path, "/app1");
    assert_eq!(m.interface, "org.kde.StatusNotifierItem");
    assert_eq!(m.member, "NewStatus");
    assert_eq!(p.signal_match(ItemSignal::NewToolTip).member, "NewToolTip");
    assert_eq!(
        p.signal_match(ItemSignal::NewOverlayIcon).member,
        "NewOverlayIcon"
    );
}

#[test]
fn timeout_is_bounded_and_distinct_from_other_failures() {
    assert_eq!(remote_call_timeout_ms(), 50);
    assert_ne!(HostError::Timeout, HostError::PropertyAbsent);
    assert_ne!(HostError::Timeout, HostError::Transport);
    assert_ne!(HostError::Timeout, HostError::MalformedReply);
}

#[test]
fn watcher_addressing_is_protocol_mandated() {
    assert_eq!(watcher_bus_name(), "org.kde.StatusNotifierWatcher");
    assert_eq!(watcher_object_path(), "/StatusNotifierWatcher");
    assert_eq!(watcher_interface(), "org.kde.StatusNotifierWatcher");
    assert_eq!(item_interface(), "org.kde.StatusNotifierItem");
    assert_eq!(
        WatcherProperty::RegisteredStatusNotifierItems.wire_name(),
        "RegisteredStatusNotifierItems"
    );
    assert_eq!(
        WatcherProperty::IsStatusNotifierHostRegistered.wire_name(),
        "IsStatusNotifierHostRegistered"
    );
    assert_eq!(
        WatcherProperty::ProtocolVersion.wire_name(),
        "ProtocolVersion"
    );
    assert_eq!(
        WatcherSignal::StatusNotifierItemRegistered.wire_name(),
        "StatusNotifierItemRegistered"
    );
    assert_eq!(
        WatcherSignal::StatusNotifierItemUnregistered.wire_name(),
        "StatusNotifierItemUnregistered"
    );
}

#[test]
fn category_parses_with_unknown_fallback() {
    assert_eq!(
        Category::from_str("ApplicationStatus"),
        Category::ApplicationStatus
    );
    assert_eq!(
        Category::from_str("Communications"),
        Category::Communications
    );
    assert_eq!(
        Category::from_str("SystemServices"),
        Category::SystemServices
    );
    assert_eq!(Category::from_str("Hardware"), Category::Hardware);
    assert_eq!(Category::from_str("NotACategory"), Category::Unknown);
    assert_eq!(Category::from_str(""), Category::Unknown);
}

#[test]
fn category_prints_its_wire_string() {
    assert_eq!(Category::ApplicationStatus.to_str(), "ApplicationStatus");
    assert_eq!(Category::Unknown.to_str(), "Unknown");
    assert_eq!(Category::Hardware.to_string(), "Hardware");
    for c in [
        Category::ApplicationStatus,
        Category::Communications,
        Category::SystemServices,
        Category::Hardware,
        Category::Unknown,
    ] {
        assert_eq!(Category::from_str(c.to_str()), c);
    }
}

#[test]
fn status_parses_with_passive_fallback() {
    assert_eq!(Status::from_str("Passive"), Status::Passive);
    assert_eq!(Status::from_str("Active"), Status::Active);
    assert_eq!(Status::from_str("NeedsAttention"), Status::NeedsAttention);
    assert_eq!(Status::from_str("whatever"), Status::Passive);
    assert_eq!(Status::from_str(""), Status::Passive);
}

#[test]
fn status_prints_its_wire_string() {
    assert_eq!(Status::Passive.to_str(), "Passive");
    assert_eq!(Status::Active.to_str(), "Active");
    assert_eq!(Status::NeedsAttention.to_string(), "NeedsAttention");
    for s in [Status::Passive, Status::Active, Status::NeedsAttention] {
        assert_eq!(Status::from_str(s.to_str()), s);
    }
}

#[test]
fn passive_items_are_hidden() {
    let r = select_icon(Status::Passive, "/theme", "ic", "attn");
    assert_eq!(r, IconDisplay::Hidden);
}

#[test]
fn active_item_with_theme_path_loads_a_file() {
    let r = select_icon(Status::Active, "/theme", "ic", "attn");
    assert_eq!(
        r,
        IconDisplay::ThemeFile {
            file: "/theme/ic.png".to_string()
        }
    );
}

#[test]
fn active_item_without_theme_path_uses_name_lookup() {
    let r = select_icon(Status::Active, "", "ic", "attn");
    assert_eq!(
        r,
        IconDisplay::Named {
            name: "ic".to_string()
        }
    );
}

#[test]
fn attention_item_uses_the_attention_icon() {
    let with_theme = select_icon(Status::NeedsAttention, "/theme", "ic", "attn");
    assert_eq!(
        with_theme,
        IconDisplay::ThemeFile {
            file: "/theme/attn.png".to_string()
        }
    );
    let without = select_icon(Status::NeedsAttention, "", "ic", "attn");
    assert_eq!(
        without,
        IconDisplay::Named {
            name: "attn".to_string()
        }
    );
}
