use net_bringup::bringup::{BringUpError, Ipv4Addr, ReadyInterface};
use net_bringup::page::{index_html, templated};
use net_bringup::service::{index_response, index_route, Bootstrap, Directive, Method, ServicePhase};

#[test]
fn route_registered_only_after_ready() {
    let mut b = Bootstrap::new();
    assert_eq!(b.routes_registered(), 0);
    assert_eq!(b.phase(), ServicePhase::AwaitingNetwork);
    let ready = Ok(ReadyInterface::Station { address: Ipv4Addr::new(192, 168, 1, 42) });
    match b.on_bring_up(&ready) {
        Directive::Register(route) => {
            assert_eq!(route.method, Method::Get);
            assert_eq!(route.path, "/");
        }
        other => panic!("unexpected directive {:?}", other),
    }
    assert_eq!(b.routes_registered(), 1);
    assert!(matches!(b.on_bring_up(&Ok(ReadyInterface::Hosting)), Directive::Ignore));
    assert_eq!(b.routes_registered(), 1);
    assert_eq!(b.phase(), ServicePhase::Serving);
}

#[test]
fn failed_bring_up_exits_nonzero() {
    for e in [
        BringUpError::ConfigInvalid,
        BringUpError::AssociationTimeout,
        BringUpError::AddressAcquisitionTimeout,
        BringUpError::HardwareFault,
    ] {
        let mut b = Bootstrap::new();
        match b.on_bring_up(&Err(e)) {
            Directive::Exit(code) => assert_eq!(code, 1),
            other => panic!("unexpected directive {:?}", other),
        }
        assert_eq!(b.routes_registered(), 0);
        assert_eq!(b.phase(), ServicePhase::Halted);
    }
}

#[test]
fn index_page_is_served() {
    let route = index_route();
    assert_eq!(route.method, Method::Get);
    assert_eq!(route.path, "/");
    let r = index_response();
    assert_eq!(r.status, 200);
    assert_eq!(r.content_type, "text/html");
    assert!(r.body.contains("Quint was here"));
    assert!(r.body.contains("\u{2728} Quint was here!"));
    assert!(r.body.starts_with("\n<!DOCTYPE html>"));
    assert_eq!(r.body, index_html());
}

#[test]
fn templated_wraps_content() {
    let page = templated("hello");
    assert!(page.starts_with("\n<!DOCTYPE html>\n<html>\n"));
    assert!(page.contains("<title>esp-rs web server</title>"));
    assert!(page.ends_with("    <body>\n        hello\n    </body>\n</html>\n"));
    assert_eq!(templated(""), templated("").clone());
    assert_ne!(templated("a"), templated("b"));
}
