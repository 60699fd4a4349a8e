use wlmouse::locate::{
    accepts_descriptor, find_candidate, DeviceIdentity, LocateError, LocateReply, LocateRequest,
    Located, Locator, DESCRIPTOR_MARKER, DESCRIPTOR_PREFIX_LEN,
};
use wlmouse::product::WLMouseProduct;

const VENDOR: u16 = 0x36A7;

struct Simulated {
    up: bool,
    devices: Vec<DeviceIdentity>,
    descriptors: Vec<[u8; 40]>,
    opens: bool,
    calls: Vec<LocateRequest>,
}

fn device(product_id: u16) -> DeviceIdentity {
    DeviceIdentity { vendor_id: VENDOR, product_id }
}

fn descriptor(first: u8) -> [u8; 40] {
    let mut prefix = [0u8; 40];
    prefix[0] = first;
    prefix[1] = 0x00;
    prefix[2] = 0xff;
    prefix
}

fn simulated(listed: &[(u16, u8)]) -> Simulated {
    Simulated {
        up: true,
        devices: listed.iter().map(|entry| device(entry.0)).collect(),
        descriptors: listed.iter().map(|entry| descriptor(entry.1)).collect(),
        opens: true,
        calls: Vec::new(),
    }
}

fn locate(
    transport: &mut Simulated,
    product_id: u16,
    product: WLMouseProduct,
) -> Result<Located, LocateError> {
    let mut locator = Locator::new(device(product_id), product);
    while let Some(request) = locator.request() {
        transport.calls.push(request);
        let reply = match request {
            LocateRequest::Connect => LocateReply::Connected { ok: transport.up },
            LocateRequest::Open { .. } => LocateReply::Opened { ok: transport.opens },
            LocateRequest::Enumerate => LocateReply::Devices { devices: transport.devices.clone() },
            LocateRequest::Probe { index } => {
                LocateReply::Descriptor { prefix: transport.descriptors[index] }
            }
        };
        locator.feed(reply);
    }
    locator.outcome().unwrap()
}

#[test]
fn locate_returns_the_one_matching_device_among_candidates() {
    let mut transport = simulated(&[
        (0x1111, 0x06),
        (0xA888, 0x05),
        (0xA888, 0x01),
        (0xA888, 0x06),
        (0xA888, 0x05),
    ]);
    let found = locate(&mut transport, 0xA888, WLMouseProduct::BeastX);
    assert_eq!(found, Ok(Located::Listed { index: 3 }));
    assert_eq!(
        transport.calls,
        vec![
            LocateRequest::Connect,
            LocateRequest::Enumerate,
            LocateRequest::Probe { index: 1 },
            LocateRequest::Probe { index: 2 },
            LocateRequest::Probe { index: 3 },
        ]
    );
}

#[test]
fn locate_without_matching_candidate_fails() {
    let mut transport = simulated(&[(0xA888, 0x05), (0x2222, 0x06), (0xA888, 0x00)]);
    let found = locate(&mut transport, 0xA888, WLMouseProduct::BeastX);
    assert_eq!(found, Err(LocateError::NoMatchingInterface));
    assert_eq!(
        transport.calls,
        vec![
            LocateRequest::Connect,
            LocateRequest::Enumerate,
            LocateRequest::Probe { index: 0 },
            LocateRequest::Probe { index: 2 },
        ]
    );
}

#[test]
fn locate_unknown_variant_never_calls_the_transport() {
    let mut transport = simulated(&[(0x1234, 0x06)]);
    let found = locate(&mut transport, 0x1234, WLMouseProduct::Unknown);
    assert_eq!(found, Err(LocateError::UnknownProduct));
    assert!(transport.calls.is_empty());

    let locator = Locator::new(device(0x1234), WLMouseProduct::classify(0x1234));
    assert_eq!(locator.request(), None);
    assert_eq!(locator.outcome(), Some(Err(LocateError::UnknownProduct)));
}

#[test]
fn locate_keeps_the_first_of_several_matches() {
    let mut transport = simulated(&[(0xA887, 0x06), (0xA887, 0x06), (0xA887, 0x06)]);
    let found = locate(&mut transport, 0xA887, WLMouseProduct::BeastXReceiver);
    assert_eq!(found, Ok(Located::Listed { index: 0 }));
    assert_eq!(
        transport.calls,
        vec![LocateRequest::Connect, LocateRequest::Enumerate, LocateRequest::Probe { index: 0 }]
    );
}

#[test]
fn locate_in_an_empty_list_fails() {
    let mut transport = simulated(&[]);
    let found = locate(&mut transport, 0xA888, WLMouseProduct::BeastX);
    assert_eq!(found, Err(LocateError::NoMatchingInterface));
    assert_eq!(transport.calls, vec![LocateRequest::Connect, LocateRequest::Enumerate]);
}

#[test]
fn locate_ignores_devices_with_another_product_identifier() {
    let mut transport = simulated(&[(0xA887, 0x06), (0xA884, 0x06)]);
    let found = locate(&mut transport, 0xA888, WLMouseProduct::BeastX);
    assert_eq!(found, Err(LocateError::NoMatchingInterface));
    assert_eq!(transport.calls, vec![LocateRequest::Connect, LocateRequest::Enumerate]);
}

#[test]
fn locate_compares_the_product_identifier_only() {
    let mut transport = simulated(&[(0xA888, 0x06)]);
    transport.devices[0].vendor_id = 0x0001;
    let found = locate(&mut transport, 0xA888, WLMouseProduct::BeastX);
    assert_eq!(found, Ok(Located::Listed { index: 0 }));
}

#[test]
fn locate_opens_the_feature_report_family_by_identity() {
    for (product_id, product) in
        [(0xA884, WLMouseProduct::BeastX8K), (0xA883, WLMouseProduct::BeastX8KReceiver)]
    {
        let mut transport = simulated(&[(product_id, 0x00)]);
        let found = locate(&mut transport, product_id, product);
        assert_eq!(found, Ok(Located::ByIdentity));
        assert_eq!(
            transport.calls,
            vec![LocateRequest::Connect, LocateRequest::Open { vendor_id: VENDOR, product_id }]
        );
    }
}

#[test]
fn locate_reports_a_failed_open() {
    let mut transport = simulated(&[]);
    transport.opens = false;
    let found = locate(&mut transport, 0xA884, WLMouseProduct::BeastX8K);
    assert_eq!(found, Err(LocateError::Open));
}

#[test]
fn locate_reports_an_unavailable_transport() {
    for (product_id, product) in
        [(0xA884, WLMouseProduct::BeastX8K), (0xA888, WLMouseProduct::BeastX)]
    {
        let mut transport = simulated(&[(product_id, 0x06)]);
        transport.up = false;
        let found = locate(&mut transport, product_id, product);
        assert_eq!(found, Err(LocateError::TransportInit));
        assert_eq!(transport.calls, vec![LocateRequest::Connect]);
    }
}

#[test]
fn locator_ignores_a_reply_of_the_wrong_kind() {
    let mut locator = Locator::new(device(0xA888), WLMouseProduct::BeastX);
    locator.feed(LocateReply::Opened { ok: true });
    assert_eq!(locator.request(), Some(LocateRequest::Connect));
    locator.feed(LocateReply::Descriptor { prefix: descriptor(0x06) });
    assert_eq!(locator.request(), Some(LocateRequest::Connect));
    locator.feed(LocateReply::Connected { ok: true });
    assert_eq!(locator.request(), Some(LocateRequest::Enumerate));
    locator.feed(LocateReply::Connected { ok: false });
    assert_eq!(locator.request(), Some(LocateRequest::Enumerate));
    assert_eq!(locator.outcome(), None);
}

#[test]
fn locator_stays_at_its_end() {
    let mut locator = Locator::new(device(0xA884), WLMouseProduct::BeastX8K);
    locator.feed(LocateReply::Connected { ok: true });
    locator.feed(LocateReply::Opened { ok: true });
    assert_eq!(locator.outcome(), Some(Ok(Located::ByIdentity)));
    locator.feed(LocateReply::Opened { ok: false });
    locator.feed(LocateReply::Connected { ok: false });
    locator.feed(LocateReply::Devices { devices: vec![device(0xA884)] });
    assert_eq!(locator.outcome(), Some(Ok(Located::ByIdentity)));
    assert_eq!(locator.request(), None);
}

#[test]
fn descriptor_is_accepted_by_its_first_byte() {
    assert_eq!(DESCRIPTOR_MARKER, 0x06);
    assert_eq!(DESCRIPTOR_PREFIX_LEN, 40);
    assert!(accepts_descriptor(&descriptor(0x06)));
    assert!(!accepts_descriptor(&descriptor(0x05)));
    assert!(!accepts_descriptor(&[0u8; 40]));
    let mut late = [0u8; 40];
    late[1] = 0x06;
    assert!(!accepts_descriptor(&late));
}

#[test]
fn find_candidate_gives_the_first_index_from_a_start() {
    let devices = vec![device(1), device(7), device(2), device(7)];
    assert_eq!(find_candidate(&devices, 7, 0), Some(1));
    assert_eq!(find_candidate(&devices, 7, 1), Some(1));
    assert_eq!(find_candidate(&devices, 7, 2), Some(3));
    assert_eq!(find_candidate(&devices, 7, 4), None);
    assert_eq!(find_candidate(&devices, 7, 9), None);
    assert_eq!(find_candidate(&devices, 3, 0), None);
    assert_eq!(find_candidate(&Vec::new(), 7, 0), None);
}

#[test]
fn error_messages() {
    assert_eq!(
        LocateError::NoMatchingInterface.message(),
        "no accessible/unprotected interface found"
    );
    assert_eq!(LocateError::UnknownProduct.message(), "Unknown product id");
    assert_eq!(LocateError::Open.message(), "no device at the given identifiers");
    assert_eq!(LocateError::TransportInit.message(), "HID subsystem unavailable");
}
