//! The search for the one HID interface that answers queries.
//!
//! Several interfaces of one physical mouse carry the same vendor and
//! product identifiers, and only one of them is the control interface. The
//! feature-report family is opened by its identifiers. The write/read family
//! is found by its report descriptor: every listed device with the wanted
//! product identifier is opened in the order of the list, and the first one
//! whose descriptor begins with the marker byte is kept.
//!
//! The search is a machine like the report exchange: it names a request, the
//! caller carries it out on the transport and hands the reply back.

use vstd::prelude::*;
use crate::product::{Protocol, WLMouseProduct};

verus! {

/// Number of leading bytes of a report descriptor that a probe reads.
pub const DESCRIPTOR_PREFIX_LEN: usize = 40;

/// First byte of the report descriptor of the control interface.
pub const DESCRIPTOR_MARKER: u8 = 0x06;

/// The identifiers that a device shows to the host.
#[derive(Clone, Copy, Debug, PartialEq, Eq, Structural)]
pub struct DeviceIdentity {
    pub vendor_id: u16,
    pub product_id: u16,
}

/// Why no device was found.
#[derive(Clone, Copy, Debug, PartialEq, Eq, Structural)]
pub enum LocateError {
    /// The HID subsystem is not available.
    TransportInit,
    /// The transport could not open a device with the given identifiers.
    Open,
    /// No listed device with the product identifier has the descriptor of
    /// the control interface.
    NoMatchingInterface,
    /// The product identifier is not one of the known ones.
    UnknownProduct,
}

impl LocateError {
    /// The explanation shown to a person.
    pub open spec fn message_of(self) -> Seq<char> {
        match self {
            LocateError::TransportInit => "HID subsystem unavailable"@,
            LocateError::Open => "no device at the given identifiers"@,
            LocateError::NoMatchingInterface => "no accessible/unprotected interface found"@,
            LocateError::UnknownProduct => "Unknown product id"@,
        }
    }

    /// The explanation of an error.
    pub fn message(self) -> (message: &'static str)
        ensures
            message@ == self.message_of(),
    {
        match self {
            LocateError::TransportInit => "HID subsystem unavailable",
            LocateError::Open => "no device at the given identifiers",
            LocateError::NoMatchingInterface => "no accessible/unprotected interface found",
            LocateError::UnknownProduct => "Unknown product id",
        }
    }
}

/// What the transport is asked to do next.
#[derive(Clone, Copy, Debug, PartialEq, Eq, Structural)]
pub enum LocateRequest {
    /// Bring up the HID subsystem.
    Connect,
    /// Open the device with these identifiers.
    Open { vendor_id: u16, product_id: u16 },
    /// List every device that the transport can see.
    Enumerate,
    /// Open the device at `index` of the list and read the first
    /// `DESCRIPTOR_PREFIX_LEN` bytes of its report descriptor into a
    /// zero-filled buffer.
    Probe { index: usize },
}

/// What the transport did with a request.
#[derive(Clone, Debug, PartialEq, Eq)]
pub enum LocateReply {
    /// Answers `Connect`.
    Connected { ok: bool },
    /// Answers `Open`.
    Opened { ok: bool },
    /// Answers `Enumerate` with the identifiers of the visible devices, in
    /// the transport's order.
    Devices { devices: Vec<DeviceIdentity> },
    /// Answers `Probe` with the buffer that the descriptor was read into.
    Descriptor { prefix: [u8; DESCRIPTOR_PREFIX_LEN] },
}

/// The device that the search settled on.
#[derive(Clone, Copy, Debug, PartialEq, Eq, Structural)]
pub enum Located {
    /// The device that `Open` opened.
    ByIdentity,
    /// The device that the last `Probe` opened, at `index` of the list.
    Listed { index: usize },
}

/// Where a search stands.
#[derive(Clone, Copy, Debug, PartialEq, Eq, Structural)]
pub enum Phase {
    /// The HID subsystem is to be brought up.
    Connecting,
    /// The device is to be opened by its identifiers.
    Opening,
    /// The visible devices are to be listed.
    Listing,
    /// The listed device at `index` is to be probed.
    Probing { index: usize },
    /// The search succeeded. Terminal.
    Found { device: Located },
    /// The search failed. Terminal.
    Failed { error: LocateError },
}

/// The index of the first listed device at or after `from` that has the
/// product identifier, if there is one.
pub open spec fn next_candidate(devices: Seq<DeviceIdentity>, product_id: u16, from: int) -> Option<
    int,
>
    decreases devices.len() - from,
{
    if from < 0 || from >= devices.len() {
        None
    } else if devices[from].product_id == product_id {
        Some(from)
    } else {
        next_candidate(devices, product_id, from + 1)
    }
}

/// Whether a descriptor prefix is that of the control interface.
pub open spec fn accepts(prefix: Seq<u8>) -> bool {
    prefix.len() > 0 && prefix[0] == DESCRIPTOR_MARKER
}

/// The phase that probes the next candidate at or after `from`, or the
/// failure where the list holds none.
pub open spec fn probe_from(devices: Seq<DeviceIdentity>, product_id: u16, from: int) -> Phase {
    match next_candidate(devices, product_id, from) {
        Some(index) => Phase::Probing { index: index as usize },
        None => Phase::Failed { error: LocateError::NoMatchingInterface },
    }
}

/// A search as a mathematical value.
pub struct LocatorView {
    pub identity: DeviceIdentity,
    pub product: WLMouseProduct,
    /// The devices that the transport listed; empty before it did.
    pub devices: Seq<DeviceIdentity>,
    pub phase: Phase,
}

impl LocatorView {
    /// The search before anything was asked of the transport. For an
    /// unknown product it has failed already.
    pub open spec fn start(identity: DeviceIdentity, product: WLMouseProduct) -> LocatorView {
        LocatorView {
            identity,
            product,
            devices: Seq::empty(),
            phase: match product.protocol_of() {
                Some(_) => Phase::Connecting,
                None => Phase::Failed { error: LocateError::UnknownProduct },
            },
        }
    }

    /// The request that is outstanding; none once the search has ended.
    pub open spec fn pending(self) -> Option<LocateRequest> {
        match self.phase {
            Phase::Connecting => Some(LocateRequest::Connect),
            Phase::Opening => Some(
                LocateRequest::Open {
                    vendor_id: self.identity.vendor_id,
                    product_id: self.identity.product_id,
                },
            ),
            Phase::Listing => Some(LocateRequest::Enumerate),
            Phase::Probing { index } => Some(LocateRequest::Probe { index }),
            Phase::Found { .. } | Phase::Failed { .. } => None,
        }
    }

    /// The search after the transport's reply. A reply that does not answer
    /// the outstanding request leaves the search where it was.
    pub open spec fn after(self, reply: LocateReply) -> LocatorView {
        match (self.phase, reply) {
            (Phase::Connecting, LocateReply::Connected { ok }) => LocatorView {
                phase: if !ok {
                    Phase::Failed { error: LocateError::TransportInit }
                } else {
                    match self.product.protocol_of() {
                        Some(Protocol::FeatureReport) => Phase::Opening,
                        Some(Protocol::WriteRead) => Phase::Listing,
                        None => Phase::Failed { error: LocateError::UnknownProduct },
                    }
                },
                ..self
            },
            (Phase::Opening, LocateReply::Opened { ok }) => LocatorView {
                phase: if ok {
                    Phase::Found { device: Located::ByIdentity }
                } else {
                    Phase::Failed { error: LocateError::Open }
                },
                ..self
            },
            (Phase::Listing, LocateReply::Devices { devices }) => LocatorView {
                devices: devices@,
                phase: probe_from(devices@, self.identity.product_id, 0),
                ..self
            },
            (Phase::Probing { index }, LocateReply::Descriptor { prefix }) => LocatorView {
                phase: if accepts(prefix@) {
                    Phase::Found { device: Located::Listed { index } }
                } else {
                    probe_from(self.devices, self.identity.product_id, index + 1)
                },
                ..self
            },
            _ => self,
        }
    }

    /// The device found, the reason why none was, nothing while a request
    /// is outstanding.
    pub open spec fn outcome(self) -> Option<Result<Located, LocateError>> {
        match self.phase {
            Phase::Found { device } => Some(Ok(device)),
            Phase::Failed { error } => Some(Err(error)),
            _ => None,
        }
    }

    /// The search after at most `probes` further probes, each answered with
    /// the descriptor prefix that `descriptors` holds for the probed device.
    pub open spec fn scan(
        self,
        descriptors: Seq<[u8; DESCRIPTOR_PREFIX_LEN]>,
        probes: nat,
    ) -> LocatorView
        recommends
            descriptors.len() == self.devices.len(),
        decreases probes,
    {
        match self.phase {
            Phase::Probing { index } if probes > 0 => self.after(
                LocateReply::Descriptor { prefix: descriptors[index as int] },
            ).scan(descriptors, (probes - 1) as nat),
            _ => self,
        }
    }
}

/// What `next_candidate` finds is a device of the list at or after `from`
/// that has the product identifier, and no device between `from` and it has;
/// where it finds nothing, no device at or after `from` has.
pub proof fn lemma_next_candidate(devices: Seq<DeviceIdentity>, product_id: u16, from: int)
    requires
        0 <= from,
    ensures
        match next_candidate(devices, product_id, from) {
            Some(index) => {
                &&& from <= index < devices.len()
                &&& devices[index].product_id == product_id
                &&& forall|i: int| from <= i < index ==> devices[i].product_id != product_id
            },
            None => forall|i: int| from <= i < devices.len() ==> devices[i].product_id != product_id,
        },
    decreases devices.len() - from,
{
    if from < devices.len() && devices[from].product_id != product_id {
        lemma_next_candidate(devices, product_id, from + 1);
    }
}

/// Finds the first listed device at or after `from` that has the product
/// identifier.
pub fn find_candidate(devices: &Vec<DeviceIdentity>, product_id: u16, from: usize) -> (found:
    Option<usize>)
    ensures
        match found {
            Some(index) => next_candidate(devices@, product_id, from as int) == Some(index as int),
            None => next_candidate(devices@, product_id, from as int) is None,
        },
        found matches Some(index) ==> from <= index < devices.len(),
{
    let mut index: usize = from;
    while index < devices.len()
        invariant
            from <= index,
            next_candidate(devices@, product_id, from as int) == next_candidate(
                devices@,
                product_id,
                index as int,
            ),
        decreases devices.len() - index,
    {
        if devices[index].product_id == product_id {
            return Some(index);
        }
        index += 1;
    }
    None
}

/// Tells whether a descriptor prefix is that of the control interface.
pub fn accepts_descriptor(prefix: &[u8; DESCRIPTOR_PREFIX_LEN]) -> (accepted: bool)
    ensures
        accepted == accepts(prefix@),
{
    prefix[0] == DESCRIPTOR_MARKER
}

/// One search in progress.
#[derive(Debug)]
pub struct Locator {
    identity: DeviceIdentity,
    product: WLMouseProduct,
    devices: Vec<DeviceIdentity>,
    phase: Phase,
}

impl View for Locator {
    type V = LocatorView;

    closed spec fn view(&self) -> LocatorView {
        LocatorView {
            identity: self.identity,
            product: self.product,
            devices: self.devices@,
            phase: self.phase,
        }
    }
}

impl Locator {
    /// A candidate under probe is a device of the list.
    #[verifier::type_invariant]
    spec fn probes_listed_device(self) -> bool {
        self.phase matches Phase::Probing { index } ==> index < self.devices.len()
    }

    /// Begins the search for the device with the given identifiers, which
    /// `product` says how to find. For an unknown product the search has
    /// failed before it asks anything of the transport.
    pub fn new(identity: DeviceIdentity, product: WLMouseProduct) -> (locator: Locator)
        ensures
            locator@ == LocatorView::start(identity, product),
    {
        let phase = match product.protocol() {
            Some(_) => Phase::Connecting,
            None => Phase::Failed { error: LocateError::UnknownProduct },
        };
        Locator { identity, product, devices: Vec::new(), phase }
    }

    /// The request that the transport is to carry out next; none once the
    /// search has ended.
    pub fn request(&self) -> (request: Option<LocateRequest>)
        ensures
            request == self@.pending(),
    {
        match self.phase {
            Phase::Connecting => Some(LocateRequest::Connect),
            Phase::Opening => Some(
                LocateRequest::Open {
                    vendor_id: self.identity.vendor_id,
                    product_id: self.identity.product_id,
                },
            ),
            Phase::Listing => Some(LocateRequest::Enumerate),
            Phase::Probing { index } => Some(LocateRequest::Probe { index }),
            Phase::Found { .. } | Phase::Failed { .. } => None,
        }
    }

    /// Takes the transport's reply to the outstanding request and moves on.
    pub fn feed(&mut self, reply: LocateReply)
        ensures
            final(self)@ == old(self)@.after(reply),
    {
        proof {
            use_type_invariant(&*self);
        }
        match (self.phase, reply) {
            (Phase::Connecting, LocateReply::Connected { ok }) => {
                self.phase = if !ok {
                    Phase::Failed { error: LocateError::TransportInit }
                } else {
                    match self.product.protocol() {
                        Some(Protocol::FeatureReport) => Phase::Opening,
                        Some(Protocol::WriteRead) => Phase::Listing,
                        None => Phase::Failed { error: LocateError::UnknownProduct },
                    }
                };
            },
            (Phase::Opening, LocateReply::Opened { ok }) => {
                self.phase = if ok {
                    Phase::Found { device: Located::ByIdentity }
                } else {
                    Phase::Failed { error: LocateError::Open }
                };
            },
            (Phase::Listing, LocateReply::Devices { devices }) => {
                let first = find_candidate(&devices, self.identity.product_id, 0);
                self.devices = devices;
                self.phase = match first {
                    Some(index) => Phase::Probing { index },
                    None => Phase::Failed { error: LocateError::NoMatchingInterface },
                };
            },
            (Phase::Probing { index }, LocateReply::Descriptor { prefix }) => {
                self.phase = if accepts_descriptor(&prefix) {
                    Phase::Found { device: Located::Listed { index } }
                } else {
                    match find_candidate(&self.devices, self.identity.product_id, index + 1) {
                        Some(later) => Phase::Probing { index: later },
                        None => Phase::Failed { error: LocateError::NoMatchingInterface },
                    }
                };
            },
            _ => {},
        }
    }

    /// The device found, the reason why none was, nothing while a request
    /// is outstanding.
    pub fn outcome(&self) -> (outcome: Option<Result<Located, LocateError>>)
        ensures
            outcome == self@.outcome(),
    {
        match self.phase {
            Phase::Found { device } => Some(Ok(device)),
            Phase::Failed { error } => Some(Err(error)),
            _ => None,
        }
    }
}

/// The index of the first listed device at or after `from` that has the
/// product identifier and whose descriptor prefix is that of the control
/// interface, if there is one. `descriptors` holds the prefix of each listed
/// device.
pub open spec fn first_accepted(
    devices: Seq<DeviceIdentity>,
    product_id: u16,
    descriptors: Seq<[u8; DESCRIPTOR_PREFIX_LEN]>,
    from: int,
) -> Option<int>
    recommends
        descriptors.len() == devices.len(),
    decreases devices.len() - from,
{
    if from < 0 || from >= devices.len() {
        None
    } else if devices[from].product_id == product_id && accepts(descriptors[from]@) {
        Some(from)
    } else {
        first_accepted(devices, product_id, descriptors, from + 1)
    }
}

/// Whether the listed device at `index` is one that the search keeps.
pub open spec fn is_match(
    devices: Seq<DeviceIdentity>,
    product_id: u16,
    descriptors: Seq<[u8; DESCRIPTOR_PREFIX_LEN]>,
    index: int,
) -> bool {
    0 <= index < devices.len() && devices[index].product_id == product_id && accepts(
        descriptors[index]@,
    )
}

/// What `first_accepted` finds is a match at or after `from`, and no device
/// between `from` and it is one; where it finds nothing, there is no match
/// at or after `from`.
pub proof fn lemma_first_accepted(
    devices: Seq<DeviceIdentity>,
    product_id: u16,
    descriptors: Seq<[u8; DESCRIPTOR_PREFIX_LEN]>,
    from: int,
)
    requires
        0 <= from,
    ensures
        match first_accepted(devices, product_id, descriptors, from) {
            Some(index) => {
                &&& from <= index
                &&& is_match(devices, product_id, descriptors, index)
                &&& forall|i: int|
                    from <= i < index ==> !is_match(devices, product_id, descriptors, i)
            },
            None => forall|i: int| from <= i ==> !is_match(devices, product_id, descriptors, i),
        },
    decreases devices.len() - from,
{
    if from < devices.len() && !is_match(devices, product_id, descriptors, from) {
        lemma_first_accepted(devices, product_id, descriptors, from + 1);
    }
}

/// No match lies before the next device with the product identifier, so
/// the first match from `from` on is the first match from that device on.
proof fn lemma_first_accepted_skips(
    devices: Seq<DeviceIdentity>,
    product_id: u16,
    descriptors: Seq<[u8; DESCRIPTOR_PREFIX_LEN]>,
    from: int,
)
    requires
        0 <= from,
    ensures
        match next_candidate(devices, product_id, from) {
            Some(index) => first_accepted(devices, product_id, descriptors, from)
                == first_accepted(devices, product_id, descriptors, index),
            None => first_accepted(devices, product_id, descriptors, from) is None,
        },
    decreases devices.len() - from,
{
    if from < devices.len() && devices[from].product_id != product_id {
        lemma_first_accepted_skips(devices, product_id, descriptors, from + 1);
    }
}

/// The result that the search owes for a list of devices and their
/// descriptor prefixes: the first match, or the failure where there is none.
pub open spec fn first_match(
    devices: Seq<DeviceIdentity>,
    product_id: u16,
    descriptors: Seq<[u8; DESCRIPTOR_PREFIX_LEN]>,
    from: int,
) -> Result<Located, LocateError> {
    match first_accepted(devices, product_id, descriptors, from) {
        Some(index) => Ok(Located::Listed { index: index as usize }),
        None => Err(LocateError::NoMatchingInterface),
    }
}

/// A search that stands where `probe_from` puts it for `from` ends, after as
/// many probes as there are devices left, with the first match at or after
/// `from`.
proof fn lemma_scan_keeps_first_match(
    locator: LocatorView,
    descriptors: Seq<[u8; DESCRIPTOR_PREFIX_LEN]>,
    from: int,
    probes: nat,
)
    requires
        0 <= from,
        locator.devices.len() <= usize::MAX,
        descriptors.len() == locator.devices.len(),
        locator.phase == probe_from(locator.devices, locator.identity.product_id, from),
        probes >= locator.devices.len() - from,
    ensures
        locator.scan(descriptors, probes).outcome() == Some(
            first_match(locator.devices, locator.identity.product_id, descriptors, from),
        ),
    decreases probes,
{
    let devices = locator.devices;
    let product_id = locator.identity.product_id;
    lemma_next_candidate(devices, product_id, from);
    lemma_first_accepted_skips(devices, product_id, descriptors, from);
    if let Phase::Probing { index } = locator.phase {
        let next = locator.after(LocateReply::Descriptor { prefix: descriptors[index as int] });
        if accepts(descriptors[index as int]@) {
            assert(next.scan(descriptors, (probes - 1) as nat) == next);
        } else {
            lemma_scan_keeps_first_match(next, descriptors, index + 1, (probes - 1) as nat);
        }
    }
}

/// The search of the write/read family. Once the transport is up and has
/// listed its devices, probing ends with the first listed device that has
/// the product identifier and the descriptor of the control interface, in
/// the order of the list; it fails where no listed device is such a one.
pub proof fn lemma_search_keeps_first_match(
    identity: DeviceIdentity,
    product: WLMouseProduct,
    devices: Vec<DeviceIdentity>,
    descriptors: Seq<[u8; DESCRIPTOR_PREFIX_LEN]>,
)
    requires
        product.protocol_of() == Some(Protocol::WriteRead),
        descriptors.len() == devices@.len(),
    ensures
        LocatorView::start(identity, product).after(LocateReply::Connected { ok: true }).after(
            LocateReply::Devices { devices },
        ).scan(descriptors, devices@.len()).outcome() == Some(
            first_match(devices@, identity.product_id, descriptors, 0),
        ),
{
    let listed = LocatorView::start(identity, product).after(
        LocateReply::Connected { ok: true },
    ).after(LocateReply::Devices { devices });
    assert(devices@.len() == devices.len());
    lemma_scan_keeps_first_match(listed, descriptors, 0, devices@.len());
}

/// Where exactly one listed device is a match, the search ends with that
/// device, wherever it stands among the candidates.
pub proof fn lemma_search_finds_the_only_match(
    identity: DeviceIdentity,
    product: WLMouseProduct,
    devices: Vec<DeviceIdentity>,
    descriptors: Seq<[u8; DESCRIPTOR_PREFIX_LEN]>,
    only: usize,
)
    requires
        product.protocol_of() == Some(Protocol::WriteRead),
        descriptors.len() == devices@.len(),
        forall|i: int|
            is_match(devices@, identity.product_id, descriptors, i) <==> i == only,
    ensures
        LocatorView::start(identity, product).after(LocateReply::Connected { ok: true }).after(
            LocateReply::Devices { devices },
        ).scan(descriptors, devices@.len()).outcome() == Some(
            Ok::<Located, LocateError>(Located::Listed { index: only }),
        ),
{
    lemma_search_keeps_first_match(identity, product, devices, descriptors);
    lemma_first_accepted(devices@, identity.product_id, descriptors, 0);
    assert(is_match(devices@, identity.product_id, descriptors, only as int));
}

/// Where no listed device is a match, the search fails for want of an
/// interface.
pub proof fn lemma_search_without_match_fails(
    identity: DeviceIdentity,
    product: WLMouseProduct,
    devices: Vec<DeviceIdentity>,
    descriptors: Seq<[u8; DESCRIPTOR_PREFIX_LEN]>,
)
    requires
        product.protocol_of() == Some(Protocol::WriteRead),
        descriptors.len() == devices@.len(),
        forall|i: int| !is_match(devices@, identity.product_id, descriptors, i),
    ensures
        LocatorView::start(identity, product).after(LocateReply::Connected { ok: true }).after(
            LocateReply::Devices { devices },
        ).scan(descriptors, devices@.len()).outcome() == Some(
            Err::<Located, LocateError>(LocateError::NoMatchingInterface),
        ),
{
    lemma_search_keeps_first_match(identity, product, devices, descriptors);
    lemma_first_accepted(devices@, identity.product_id, descriptors, 0);
}

/// The search for an unknown product has failed before it begins: it asks
/// nothing of the transport, and no reply changes it.
pub proof fn lemma_unknown_product_asks_nothing(identity: DeviceIdentity, reply: LocateReply)
    ensures
        LocatorView::start(identity, WLMouseProduct::Unknown).pending() is None,
        LocatorView::start(identity, WLMouseProduct::Unknown).outcome() == Some(
            Err::<Located, LocateError>(LocateError::UnknownProduct),
        ),
        LocatorView::start(identity, WLMouseProduct::Unknown).after(reply) == LocatorView::start(
            identity,
            WLMouseProduct::Unknown,
        ),
{
}

/// The search of the feature-report family. Once the transport is up, the
/// device is opened by its identifiers, and the search succeeds exactly when
/// the transport opened it.
pub proof fn lemma_search_opens_by_identity(
    identity: DeviceIdentity,
    product: WLMouseProduct,
    opened: bool,
)
    requires
        product.protocol_of() == Some(Protocol::FeatureReport),
    ensures
        LocatorView::start(identity, product).pending() == Some(LocateRequest::Connect),
        LocatorView::start(identity, product).after(LocateReply::Connected { ok: true }).pending()
            == Some(
            LocateRequest::Open { vendor_id: identity.vendor_id, product_id: identity.product_id },
        ),
        LocatorView::start(identity, product).after(LocateReply::Connected { ok: true }).after(
            LocateReply::Opened { ok: opened },
        ).outcome() == Some(
            if opened {
                Ok::<Located, LocateError>(Located::ByIdentity)
            } else {
                Err::<Located, LocateError>(LocateError::Open)
            },
        ),
{
}

/// Where the HID subsystem cannot be brought up, the search of a known
/// product fails at once.
pub proof fn lemma_search_needs_transport(identity: DeviceIdentity, product: WLMouseProduct)
    requires
        product != WLMouseProduct::Unknown,
    ensures
        LocatorView::start(identity, product).pending() == Some(LocateRequest::Connect),
        LocatorView::start(identity, product).after(LocateReply::Connected { ok: false }).outcome()
            == Some(Err::<Located, LocateError>(LocateError::TransportInit)),
{
}

} // verus!
