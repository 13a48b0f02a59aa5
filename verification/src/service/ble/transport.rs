//! The BLE transport: which sightings a scan lets through, which scan the radio belongs to, and
//! which characteristic a request means. Handles of the radio's own types pass through unread.

use vstd::prelude::*;

use crate::error::{Error, ErrorView};
use crate::outside;
use crate::outside::uuid_display;
use crate::strmap::StrMap;
use crate::text;
use crate::text::{cat3, cat5, has_prefix};

verus! {

/// A scan hit sent to the browser; `id` is the string that `connect` expects back.
#[derive(Debug)]
pub struct Device {
    pub id: String,
    pub name: Option<String>,
    pub rssi: Option<i16>,
}

/// One notification; `characteristic` is the emitting characteristic's UUID as a string.
pub struct Notification {
    pub characteristic: String,
    pub data: Vec<u8>,
}

/// What the radio tells of a peripheral that it saw.
pub struct Sighting {
    pub id: String,
    pub name: Option<String>,
    pub rssi: Option<i16>,
    pub services: Vec<u128>,
}

/// An event of the radio, with the id of the peripheral that it is about.
pub enum CentralEvent {
    DeviceDiscovered(String),
    DeviceUpdated(String),
    DeviceDisconnected(String),
    Other,
}

/// A characteristic of a connected peripheral.
pub struct CharacteristicId {
    pub service: u128,
    pub uuid: u128,
}

/// Whether a write waits for the peripheral's answer.
#[derive(Debug, PartialEq, Eq, Structural)]
pub enum WriteType {
    WithResponse,
    WithoutResponse,
}

/// What every session shares of the radio. `P` is the radio's handle of a peripheral.
pub struct Ble<P> {
    /// Every peripheral that a scan let through, by its string id: a handle can't be rebuilt from
    /// the string sent to the browser, so `connect` looks it up here.
    discovered: StrMap<P>,
    /// Scanning is radio-wide: only the latest scan may stop it.
    scan_generation: u64,
}

/// A [`Ble`] as a map and a number.
#[verifier::reject_recursive_types(P)]
pub struct BleView<P> {
    pub discovered: Map<Seq<char>, P>,
    pub scan_generation: u64,
}

impl<P> View for Ble<P> {
    type V = BleView<P>;

    closed spec fn view(&self) -> BleView<P> {
        BleView { discovered: self.discovered@, scan_generation: self.scan_generation }
    }
}

/// Whether a device's advertised services satisfy a scan filter.
pub open spec fn services_match(advertised: Seq<u128>, filter: Seq<u128>) -> bool {
    ||| filter.len() == 0
    ||| exists|i: int| 0 <= i < filter.len() && advertised.contains(#[trigger] filter[i])
}

/// Whether a device's name satisfies a scan's prefix, if the scan has one.
pub open spec fn name_matches(name: Option<Seq<char>>, prefix: Option<Seq<char>>) -> bool {
    match prefix {
        Some(prefix) => name matches Some(name) && prefix.is_prefix_of(name),
        None => true,
    }
}

/// Whether a scan lets a sighting through.
pub open spec fn let_through(sighting: Sighting, filter: Seq<u128>, prefix: Option<String>) -> bool {
    services_match(sighting.services@, filter) && name_matches(
        text::opt_text(sighting.name),
        text::opt_text(prefix),
    )
}

/// Whether `uuids` holds `uuid`.
fn lists(uuids: &[u128], uuid: u128) -> (r: bool)
    ensures
        r == uuids@.contains(uuid),
{
    let mut i: usize = 0;
    while i < uuids.len()
        invariant
            i <= uuids.len(),
            forall|j: int| 0 <= j < i ==> uuids@[j] != uuid,
        decreases uuids.len() - i,
    {
        if uuids[i] == uuid {
            assert(uuids@[i as int] == uuid);
            return true;
        }
        i += 1;
    }
    false
}

/// Whether a device's advertised `services` satisfy a scan filter: an empty filter matches
/// everything, else at least one UUID must overlap.
pub fn matches_services(advertised: &[u128], filter: &[u128]) -> (r: bool)
    ensures
        r == services_match(advertised@, filter@),
{
    if filter.len() == 0 {
        return true;
    }
    let mut i: usize = 0;
    while i < filter.len()
        invariant
            0 < filter.len(),
            i <= filter.len(),
            forall|j: int| 0 <= j < i ==> !advertised@.contains(#[trigger] filter@[j]),
        decreases filter.len() - i,
    {
        if lists(advertised, filter[i]) {
            assert(advertised@.contains(filter@[i as int]));
            return true;
        }
        i += 1;
    }
    false
}

/// Whether a device's name satisfies a scan's prefix, if the scan has one.
fn matches_prefix(name: &Option<String>, prefix: &Option<String>) -> (r: bool)
    ensures
        r == name_matches(text::opt_text(*name), text::opt_text(*prefix)),
{
    match prefix {
        Some(prefix) => match name {
            Some(name) => has_prefix(name.as_str(), prefix.as_str()),
            None => false,
        },
        None => true,
    }
}

/// The adapter to open: the first there is. None is a normal condition, such as a desktop without
/// Bluetooth.
pub fn first_adapter<A>(adapters: Vec<A>) -> (r: Option<A>)
    ensures
        r == (if adapters@.len() > 0 {
            Some(adapters@[0])
        } else {
            None
        }),
{
    let mut adapters = adapters;
    if adapters.len() == 0 {
        None
    } else {
        Some(adapters.remove(0))
    }
}

/// The peripheral that an event says was seen.
pub fn seen(event: CentralEvent) -> (id: Option<String>)
    ensures
        id == (match event {
            CentralEvent::DeviceDiscovered(id) => Some(id),
            CentralEvent::DeviceUpdated(id) => Some(id),
            _ => None,
        }),
{
    match event {
        CentralEvent::DeviceDiscovered(id) => Some(id),
        CentralEvent::DeviceUpdated(id) => Some(id),
        _ => None,
    }
}

/// The peripheral that an event says went away.
pub fn gone(event: CentralEvent) -> (id: Option<String>)
    ensures
        id == (match event {
            CentralEvent::DeviceDisconnected(id) => Some(id),
            _ => None,
        }),
{
    match event {
        CentralEvent::DeviceDisconnected(id) => Some(id),
        _ => None,
    }
}

/// What a run of the radio is made of: a scan begins, or a sighting is let through.
#[verifier::reject_recursive_types(P)]
pub enum RadioMoment<P> {
    Scan,
    Seen(Seq<char>, P),
}

/// How many scans begin in a run.
pub open spec fn scans_in<P>(run: Seq<RadioMoment<P>>) -> nat
    decreases run.len(),
{
    if run.len() == 0 {
        0
    } else {
        scans_in(run.drop_last()) + if run.last() is Scan {
            1nat
        } else {
            0nat
        }
    }
}

impl<P> BleView<P> {
    /// The radio after another scan began.
    pub open spec fn scanning_anew(self) -> BleView<P> {
        BleView { scan_generation: (self.scan_generation + 1) as u64, ..self }
    }

    /// The radio after a sighting was let through.
    pub open spec fn having_seen(self, id: Seq<char>, peripheral: P) -> BleView<P> {
        BleView { discovered: self.discovered.insert(id, peripheral), ..self }
    }

    /// The radio after a run.
    pub open spec fn after(self, run: Seq<RadioMoment<P>>) -> BleView<P>
        decreases run.len(),
    {
        if run.len() == 0 {
            self
        } else {
            let before = self.after(run.drop_last());
            match run.last() {
                RadioMoment::Scan => before.scanning_anew(),
                RadioMoment::Seen(id, peripheral) => before.having_seen(id, peripheral),
            }
        }
    }

    /// Whether the scan that began as `generation` still has the radio.
    pub open spec fn is_current(self, generation: u64) -> bool {
        self.scan_generation == generation
    }
}

impl<P> Ble<P> {
    /// A radio that has seen nothing and scanned for nothing.
    pub fn new() -> (ble: Ble<P>)
        ensures
            ble@ == (BleView { discovered: Map::<Seq<char>, P>::empty(), scan_generation: 0 }),
    {
        Ble { discovered: StrMap::new(), scan_generation: 0 }
    }

    /// The generation of the latest scan, zero before the first.
    pub fn scan_generation(&self) -> (generation: u64)
        ensures
            generation == self@.scan_generation,
    {
        self.scan_generation
    }

    /// Begins a scan and returns its generation, for [`Ble::release_scan`]. A scan that ran before
    /// is to be stopped first.
    pub fn scan(&mut self) -> (generation: u64)
        requires
            old(self)@.scan_generation < u64::MAX,
        ensures
            final(self)@ == old(self)@.scanning_anew(),
            final(self)@.is_current(generation),
    {
        self.scan_generation = self.scan_generation + 1;
        self.scan_generation
    }

    /// Whether the end of the scan `generation` is to stop the radio: not where another scan has
    /// begun since.
    pub fn release_scan(&self, generation: u64) -> (stop: bool)
        ensures
            stop == self@.is_current(generation),
    {
        self.scan_generation == generation
    }

    /// Takes a sighting in, with the radio's handle of the peripheral: one that the scan lets
    /// through is remembered for `connect` and told to the browser. One that did not resolve is
    /// skipped. The filter is checked here again, since a radio may replay devices that it has
    /// cached whatever the scan asks for.
    pub fn take_sighting(
        &mut self,
        resolved: Option<(Sighting, P)>,
        filter: &[u128],
        name_prefix: &Option<String>,
    ) -> (device: Option<Device>)
        ensures
            match resolved {
                Some((sighting, peripheral)) => if let_through(sighting, filter@, *name_prefix) {
                    &&& device matches Some(d)
                    &&& d.id@ == sighting.id@
                    &&& d.name == sighting.name
                    &&& d.rssi == sighting.rssi
                    &&& final(self)@ == old(self)@.having_seen(sighting.id@, peripheral)
                } else {
                    &&& device is None
                    &&& final(self)@ == old(self)@
                },
                None => device is None && final(self)@ == old(self)@,
            },
    {
        let (sighting, peripheral) = match resolved {
            Some(resolved) => resolved,
            None => return None,
        };
        if !matches_services(sighting.services.as_slice(), filter) {
            return None;
        }
        if !matches_prefix(&sighting.name, name_prefix) {
            return None;
        }
        let id = sighting.id.clone();
        self.discovered.insert(sighting.id, peripheral);
        Some(Device { id, name: sighting.name, rssi: sighting.rssi })
    }

    /// The peripheral to connect to, which a scan must have let through before.
    pub fn connect(&self, id: &str) -> (r: Result<&P, Error>)
        ensures
            match r {
                Ok(peripheral) => self@.discovered.contains_key(id@) && *peripheral
                    == self@.discovered[id@],
                Err(e) => !self@.discovered.contains_key(id@) && e@ == ErrorView::Ble(
                    "device "@ + id@
                        + " was not discovered via scan; connect requires a live scan result"@,
                ),
            },
    {
        match self.discovered.get(id) {
            Some(peripheral) => Ok(peripheral),
            None => Err(
                Error::Ble(
                    cat3(
                        "device ",
                        id,
                        " was not discovered via scan; connect requires a live scan result",
                    ),
                ),
            ),
        }
    }
}

/// A scan that was replaced, once or more often, no longer has the radio: to release it stops
/// nothing. One that was not replaced still has it, whatever was seen since.
pub proof fn a_stale_release_stops_nothing<P>(before: BleView<P>, run: Seq<RadioMoment<P>>)
    requires
        before.scan_generation + 1 + scans_in(run) <= u64::MAX,
    ensures
        ({
            let started = before.scanning_anew();
            started.after(run).is_current(started.scan_generation) <==> scans_in(run) == 0
        }),
{
    lemma_generations(before.scanning_anew(), run);
}

/// A scan gets a larger generation than any before it.
pub proof fn every_scan_gets_a_larger_generation<P>(before: BleView<P>, run: Seq<RadioMoment<P>>)
    requires
        before.scan_generation + 1 + scans_in(run) + 1 <= u64::MAX,
    ensures
        ({
            let started = before.scanning_anew();
            started.after(run).scanning_anew().scan_generation > started.scan_generation
        }),
{
    lemma_generations(before.scanning_anew(), run);
}

proof fn lemma_generations<P>(ble: BleView<P>, run: Seq<RadioMoment<P>>)
    requires
        ble.scan_generation + scans_in(run) <= u64::MAX,
    ensures
        ble.after(run).scan_generation == ble.scan_generation + scans_in(run),
    decreases run.len(),
{
    if run.len() > 0 {
        lemma_generations(ble, run.drop_last());
    }
}

/// A device that a scan let through stays known to `connect`, whatever is scanned for or seen
/// later.
pub proof fn a_device_that_was_told_stays_known<P>(before: BleView<P>, id: Seq<char>, peripheral: P, run: Seq<RadioMoment<P>>)
    ensures
        before.having_seen(id, peripheral).after(run).discovered.contains_key(id),
    decreases run.len(),
{
    if run.len() > 0 {
        a_device_that_was_told_stays_known(before, id, peripheral, run.drop_last());
    }
}

/// How a write goes out.
pub fn write_type(with_response: bool) -> (t: WriteType)
    ensures
        t == (if with_response {
            WriteType::WithResponse
        } else {
            WriteType::WithoutResponse
        }),
{
    if with_response {
        WriteType::WithResponse
    } else {
        WriteType::WithoutResponse
    }
}

/// The notification to pass on, given what the radio reported.
pub fn notification(uuid: u128, value: Vec<u8>) -> (n: Notification)
    ensures
        n.characteristic@ == outside::uuid_text(uuid),
        outside::uuid_value(n.characteristic@) == Ok::<u128, Seq<char>>(uuid),
        n.data == value,
{
    Notification { characteristic: uuid_display(uuid), data: value }
}

/// Finds the place of the first characteristic with the given service and UUID.
pub fn find_characteristic(
    characteristics: &[CharacteristicId],
    service: u128,
    uuid: u128,
) -> (r: Result<usize, Error>)
    ensures
        match r {
            Ok(i) => {
                &&& i < characteristics@.len()
                &&& characteristics@[i as int].service == service
                &&& characteristics@[i as int].uuid == uuid
                &&& forall|j: int|
                    0 <= j < i ==> (#[trigger] characteristics@[j]).service != service
                        || characteristics@[j].uuid != uuid
            },
            Err(e) => {
                &&& forall|j: int|
                    0 <= j < characteristics@.len() ==> (#[trigger] characteristics@[j]).service
                        != service || characteristics@[j].uuid != uuid
                &&& e@ == ErrorView::Ble(
                    "characteristic "@ + outside::uuid_text(uuid) + " on service "@
                        + outside::uuid_text(service) + " not found on this peripheral"@,
                )
            },
        },
{
    let mut i: usize = 0;
    while i < characteristics.len()
        invariant
            i <= characteristics.len(),
            forall|j: int|
                0 <= j < i ==> (#[trigger] characteristics@[j]).service != service
                    || characteristics@[j].uuid != uuid,
        decreases characteristics.len() - i,
    {
        if characteristics[i].service == service && characteristics[i].uuid == uuid {
            return Ok(i);
        }
        i += 1;
    }
    let uuid = uuid_display(uuid);
    let service = uuid_display(service);
    Err(
        Error::Ble(
            cat5(
                "characteristic ",
                uuid.as_str(),
                " on service ",
                service.as_str(),
                " not found on this peripheral",
            ),
        ),
    )
}

/// A scan lets a sighting through just where it asks for no service or for one that the device
/// advertises, and for no name or for one that the device's name begins with.
pub proof fn a_sighting_is_let_through_by_service_and_name(sighting: Sighting, filter: Seq<u128>, prefix: Option<String>)
    ensures
        let_through(sighting, filter, prefix) <==> {
            &&& filter == Seq::<u128>::empty() || exists|i: int, j: int|
                0 <= i < filter.len() && 0 <= j < sighting.services@.len() && #[trigger] filter[i] == #[trigger] sighting.services@[j]
            &&& prefix matches Some(prefix) ==> {
                &&& sighting.name matches Some(name)
                &&& exists|rest: Seq<char>| name@ == #[trigger] (prefix@ + rest)
            }
        },
{
    if filter.len() == 0 {
        assert(filter =~= Seq::<u128>::empty());
    }
    let services = sighting.services@;
    if exists|i: int| 0 <= i < filter.len() && services.contains(#[trigger] filter[i]) {
        let i = choose|i: int| 0 <= i < filter.len() && services.contains(#[trigger] filter[i]);
        let j = choose|j: int| 0 <= j < services.len() && services[j] == filter[i];
        assert(filter[i] == services[j]);
    }
    if let Some(prefix) = prefix {
        if let Some(name) = sighting.name {
            if prefix@.is_prefix_of(name@) {
                assert(name@ =~= prefix@ + name@.skip(prefix@.len() as int));
            }
            if exists|rest: Seq<char>| name@ == #[trigger] (prefix@ + rest) {
                let rest = choose|rest: Seq<char>| name@ == #[trigger] (prefix@ + rest);
                assert(name@.subrange(0, prefix@.len() as int) =~= prefix@);
            }
        }
    }
}

/// A scan that begins takes the next generation and forgets no device; a device that is seen is known
/// by its handle, and changes no other and no generation.
pub proof fn the_radio_changes_one_thing_at_a_time<P>(ble: BleView<P>, id: Seq<char>, peripheral: P, other: Seq<char>)
    requires
        ble.scan_generation < u64::MAX,
    ensures
        ble.scanning_anew().scan_generation == ble.scan_generation + 1,
        ble.scanning_anew().discovered == ble.discovered,
        ble.having_seen(id, peripheral).scan_generation == ble.scan_generation,
        ble.having_seen(id, peripheral).discovered.contains_key(id),
        ble.having_seen(id, peripheral).discovered[id] == peripheral,
        other != id ==> (ble.having_seen(id, peripheral).discovered.contains_key(other) <==> ble.discovered.contains_key(
            other,
        )),
        other != id && ble.discovered.contains_key(other) ==> ble.having_seen(id, peripheral).discovered[other]
            == ble.discovered[other],
{
}

/// A scan has the radio just while its generation is the latest.
pub proof fn the_latest_scan_has_the_radio<P>(ble: BleView<P>, generation: u64)
    ensures
        ble.is_current(generation) <==> generation == ble.scan_generation,
{
}

/// A sighting is told of and remembered just where it resolved, it advertises a service that the scan
/// asks for, if it asks for any, and its name begins as the scan asks, if it does. It is told of as it
/// was seen, and the device can then be connected to.
pub proof fn a_sighting_is_told_where_it_fits<P>(
    ble: &mut Ble<P>,
    sighting: Sighting,
    peripheral: P,
    filter: &[u128],
    name_prefix: &Option<String>,
    device: Option<Device>,
    other: Seq<char>,
)
    requires
        call_ensures(Ble::<P>::take_sighting, (ble, Some((sighting, peripheral)), filter, name_prefix), device),
    ensures
        device is Some <==> {
            &&& filter@ == Seq::<u128>::empty() || exists|i: int, j: int|
                0 <= i < filter@.len() && 0 <= j < sighting.services@.len() && #[trigger] filter@[i] == #[trigger] sighting.services@[j]
            &&& *name_prefix matches Some(prefix) ==> {
                &&& sighting.name matches Some(name)
                &&& exists|rest: Seq<char>| name@ == #[trigger] (prefix@ + rest)
            }
        },
        device matches Some(d) ==> {
            &&& d.id@ == sighting.id@
            &&& d.name == sighting.name
            &&& d.rssi == sighting.rssi
            &&& final(ble)@.discovered.contains_key(sighting.id@)
            &&& final(ble)@.discovered[sighting.id@] == peripheral
        },
        device is None ==> final(ble)@ == old(ble)@,
        final(ble)@.scan_generation == old(ble)@.scan_generation,
        other != sighting.id@ ==> final(ble)@.discovered.contains_key(other) == old(ble)@.discovered.contains_key(other),
{
    a_sighting_is_let_through_by_service_and_name(sighting, filter@, *name_prefix);
}

/// A notification is passed on with its bytes, under the writing of the UUID that it came from, which
/// reads back as that UUID.
pub proof fn a_notification_names_its_characteristic(uuid: u128, value: Vec<u8>, n: Notification)
    requires
        call_ensures(notification, (uuid, value), n),
    ensures
        outside::uuid_value(n.characteristic@) == Ok::<u128, Seq<char>>(uuid),
        n.data@ == value@,
{
}

/// A scan that is released stops the radio just where its generation is the latest, and a scan that
/// begins has the latest.
pub proof fn a_release_stops_only_the_latest_scan<P>(ble: &mut Ble<P>, generation: u64, later: &Ble<P>, stop: bool)
    requires
        call_ensures(Ble::<P>::scan, (ble,), generation),
        old(ble)@.scan_generation < u64::MAX,
        call_ensures(Ble::<P>::release_scan, (later, generation), stop),
    ensures
        generation == old(ble)@.scan_generation + 1,
        final(ble)@.scan_generation == generation,
        final(ble)@.discovered == old(ble)@.discovered,
        stop <==> later@.scan_generation == generation,
{
}

} // verus!
