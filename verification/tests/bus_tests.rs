use systemd_shim::bus::{BusHandle, PropertyReply};
use systemd_shim::{
    sd_bus, sd_bus_error, sd_bus_message, sd_journal, systemd_shim_bus_error_free,
    systemd_shim_bus_get_property_string, systemd_shim_bus_open_system, systemd_shim_bus_unref,
    systemd_shim_free_string,
};

fn owned_error() -> sd_bus_error {
    sd_bus_error {
        name: Some(b"org.freedesktop.DBus.Error.ServiceUnknown".to_vec()),
        message: Some(b"The name is not activatable".to_vec()),
        need_free: 1,
    }
}

#[test]
fn handle_markers_are_zero_sized_and_distinct() {
    assert_eq!(std::mem::size_of::<sd_bus>(), 0);
    assert_eq!(std::mem::size_of::<sd_bus_message>(), 0);
    assert_eq!(std::mem::size_of::<sd_journal>(), 0);
    assert_eq!(sd_bus::Opaque, sd_bus::Opaque);
    assert_eq!(sd_bus_message::Opaque, sd_bus_message::Opaque);
    assert_eq!(sd_journal::Opaque, sd_journal::Opaque);
}

#[test]
fn default_descriptor_is_empty() {
    let e = sd_bus_error::default();
    assert_eq!(e.name, None);
    assert_eq!(e.message, None);
    assert_eq!(e.need_free, 0);
    assert!(!e.owns_heap());
}

#[test]
fn descriptor_with_any_nonzero_flag_owns_its_strings() {
    let mut e = owned_error();
    assert!(e.owns_heap());
    e.need_free = -1;
    assert!(e.owns_heap());
    e.need_free = 0;
    assert!(!e.owns_heap());
}

#[test]
fn open_system_success_opens_the_connection() {
    let mut bus = BusHandle::Unopened;
    assert_eq!(systemd_shim_bus_open_system(&mut bus, 0), 0);
    assert_eq!(bus, BusHandle::Open);
}

#[test]
fn open_system_keeps_a_positive_status() {
    let mut bus = BusHandle::Unopened;
    assert_eq!(systemd_shim_bus_open_system(&mut bus, 7), 7);
    assert_eq!(bus, BusHandle::Open);
}

#[test]
fn open_system_failure_is_forwarded_verbatim() {
    let mut bus = BusHandle::Unopened;
    assert_eq!(systemd_shim_bus_open_system(&mut bus, -111), -111);
    assert_eq!(bus, BusHandle::Unopened);
}

#[test]
fn open_system_can_be_tried_again_after_a_failure() {
    let mut bus = BusHandle::Unopened;
    assert_eq!(systemd_shim_bus_open_system(&mut bus, -2), -2);
    assert_eq!(systemd_shim_bus_open_system(&mut bus, 0), 0);
    assert_eq!(bus, BusHandle::Open);
}

#[test]
fn unref_that_returns_null_releases_the_connection() {
    let mut bus = BusHandle::Unopened;
    systemd_shim_bus_open_system(&mut bus, 0);
    assert!(!systemd_shim_bus_unref(&mut bus, true));
    assert_eq!(bus, BusHandle::Released);
}

#[test]
fn unref_that_returns_the_handle_leaves_it_open() {
    let mut bus = BusHandle::Unopened;
    systemd_shim_bus_open_system(&mut bus, 0);
    assert!(systemd_shim_bus_unref(&mut bus, false));
    assert_eq!(bus, BusHandle::Open);
    assert!(!systemd_shim_bus_unref(&mut bus, true));
    assert_eq!(bus, BusHandle::Released);
}

#[test]
fn property_query_success_hands_out_the_string() {
    let mut bus = BusHandle::Open;
    let reply = systemd_shim_bus_get_property_string(
        &mut bus,
        0,
        b"active".to_vec(),
        sd_bus_error::default(),
    );
    assert_eq!(reply, PropertyReply::Value { status: 0, text: b"active".to_vec() });
    assert_eq!(bus, BusHandle::Open);
}

#[test]
fn property_query_keeps_a_positive_status() {
    let mut bus = BusHandle::Open;
    let reply =
        systemd_shim_bus_get_property_string(&mut bus, 3, b"x".to_vec(), sd_bus_error::default());
    assert_eq!(reply, PropertyReply::Value { status: 3, text: b"x".to_vec() });
}

#[test]
fn property_query_against_unknown_destination_fails_with_a_message() {
    let mut bus = BusHandle::Unopened;
    systemd_shim_bus_open_system(&mut bus, 0);
    let reply = systemd_shim_bus_get_property_string(&mut bus, -2, Vec::new(), owned_error());
    match reply {
        PropertyReply::Failure { status, error } => {
            assert!(status < 0);
            assert_eq!(status, -2);
            assert!(error.message.is_some());
            assert_eq!(error, owned_error());
        }
        PropertyReply::Value { .. } => panic!("a negative status must report a failure"),
    }
    assert_eq!(bus, BusHandle::Open);
}

#[test]
fn property_query_failure_voids_the_string() {
    let mut bus = BusHandle::Open;
    let reply =
        systemd_shim_bus_get_property_string(&mut bus, -1, b"stale".to_vec(), owned_error());
    assert_eq!(reply, PropertyReply::Failure { status: -1, error: owned_error() });
}

#[test]
fn error_free_empties_a_descriptor_that_owns_its_strings() {
    let mut e = owned_error();
    systemd_shim_bus_error_free(&mut e);
    assert_eq!(e, sd_bus_error::default());
}

#[test]
fn error_free_on_empty_descriptor_is_a_noop() {
    let mut e = sd_bus_error::default();
    systemd_shim_bus_error_free(&mut e);
    assert_eq!(e, sd_bus_error::default());
}

#[test]
fn error_free_leaves_borrowed_strings_alone() {
    let mut e = owned_error();
    e.need_free = 0;
    systemd_shim_bus_error_free(&mut e);
    assert_eq!(e.name, owned_error().name);
    assert_eq!(e.message, owned_error().message);
    assert_eq!(e.need_free, 0);
}

#[test]
fn error_free_twice_is_the_same_as_once() {
    let mut once = owned_error();
    systemd_shim_bus_error_free(&mut once);
    let mut twice = owned_error();
    systemd_shim_bus_error_free(&mut twice);
    systemd_shim_bus_error_free(&mut twice);
    assert_eq!(once, twice);
}

#[test]
fn free_string_on_null_is_a_noop() {
    assert!(!systemd_shim_free_string::<Vec<u8>>(None));
}

#[test]
fn free_string_releases_a_string() {
    assert!(systemd_shim_free_string(Some(b"active".to_vec())));
    assert!(systemd_shim_free_string(Some(Vec::<u8>::new())));
}
