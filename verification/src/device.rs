//! Devices and services as the Android debug bridge reports them.

use vstd::prelude::*;

verus! {

/// How a device stands towards the bridge.
#[derive(Debug, Clone, Copy, PartialEq, Eq, Structural)]
pub enum DeviceState {
    /// Connected and ready for commands.
    Device,
    /// Anything else: offline, unauthorized and so on.
    Other,
}

/// A device in the list of the bridge.
#[derive(Debug, PartialEq, Eq)]
pub struct AdbDevice {
    pub serial: String,
    pub state: DeviceState,
    pub display_name: String,
}

/// What a service in the local network offers.
#[derive(Debug, Clone, Copy, PartialEq, Eq, Structural)]
pub enum ServiceKind {
    /// Pairing with a phone.
    Pairing,
    /// Connecting to a phone that was paired.
    Connect,
    /// Anything else.
    Other,
}

/// A service that the bridge found in the local network.
#[derive(Debug, PartialEq, Eq)]
pub struct MdnsService {
    pub instance: String,
    pub kind: ServiceKind,
    pub address: String,
}

/// A phone that is ready to be used.
#[derive(Debug, PartialEq, Eq)]
pub struct ConnectedPhone {
    pub serial: String,
    pub display_name: String,
}

impl Clone for AdbDevice {
    fn clone(&self) -> (copy: Self)
        ensures
            copy == *self,
    {
        AdbDevice {
            serial: self.serial.clone(),
            state: self.state,
            display_name: self.display_name.clone(),
        }
    }
}

impl Clone for MdnsService {
    fn clone(&self) -> (copy: Self)
        ensures
            copy == *self,
    {
        MdnsService {
            instance: self.instance.clone(),
            kind: self.kind,
            address: self.address.clone(),
        }
    }
}

impl Clone for ConnectedPhone {
    fn clone(&self) -> (copy: Self)
        ensures
            copy == *self,
    {
        ConnectedPhone { serial: self.serial.clone(), display_name: self.display_name.clone() }
    }
}

impl MdnsService {
    pub fn is_pairing_service(&self) -> (r: bool)
        ensures
            r == (self.kind == ServiceKind::Pairing),
    {
        self.kind == ServiceKind::Pairing
    }
}

/// The same services again.
pub fn copy_services(services: &Vec<MdnsService>) -> (copy: Vec<MdnsService>)
    ensures
        copy@ == services@,
{
    let copy = services.clone();
    assert(copy@ =~= services@);
    copy
}

/// The phone that a device is.
pub open spec fn phone_of(device: AdbDevice) -> ConnectedPhone {
    ConnectedPhone { serial: device.serial, display_name: device.display_name }
}

/// The devices that are ready for commands, in the order of the list.
pub open spec fn ready_devices(devices: Seq<AdbDevice>) -> Seq<AdbDevice> {
    devices.filter(|device: AdbDevice| device.state == DeviceState::Device)
}

/// The phones that are ready, in the order of the list.
pub open spec fn ready_phones(devices: Seq<AdbDevice>) -> Seq<ConnectedPhone> {
    ready_devices(devices).map_values(|device: AdbDevice| phone_of(device))
}

/// The devices that are ready for commands.
pub fn only_ready_devices(devices: Vec<AdbDevice>) -> (ready: Vec<AdbDevice>)
    ensures
        ready@ == ready_devices(devices@),
{
    let mut ready: Vec<AdbDevice> = Vec::new();
    let mut i: usize = 0;
    let ghost p = |device: AdbDevice| device.state == DeviceState::Device;
    while i < devices.len()
        invariant
            i <= devices.len(),
            p == (|device: AdbDevice| device.state == DeviceState::Device),
            ready@ == devices@.take(i as int).filter(p),
        decreases devices.len() - i,
    {
        proof {
            reveal(Seq::filter);
            assert(devices@.take(i + 1).drop_last() =~= devices@.take(i as int));
        }
        if devices[i].state == DeviceState::Device {
            ready.push(devices[i].clone());
        }
        i = i + 1;
    }
    assert(devices@.take(i as int) =~= devices@);
    ready
}

/// How many of the devices are ready for commands.
pub fn count_ready_devices(devices: &Vec<AdbDevice>) -> (count: usize)
    ensures
        count == ready_devices(devices@).len(),
{
    let mut count: usize = 0;
    let mut i: usize = 0;
    let ghost p = |device: AdbDevice| device.state == DeviceState::Device;
    while i < devices.len()
        invariant
            i <= devices.len(),
            p == (|device: AdbDevice| device.state == DeviceState::Device),
            count <= i,
            count == devices@.take(i as int).filter(p).len(),
        decreases devices.len() - i,
    {
        proof {
            reveal(Seq::filter);
            assert(devices@.take(i + 1).drop_last() =~= devices@.take(i as int));
        }
        if devices[i].state == DeviceState::Device {
            count = count + 1;
        }
        i = i + 1;
    }
    assert(devices@.take(i as int) =~= devices@);
    count
}

/// The phone that a device is.
pub fn as_phone(device: &AdbDevice) -> (phone: ConnectedPhone)
    ensures
        phone == phone_of(*device),
{
    ConnectedPhone { serial: device.serial.clone(), display_name: device.display_name.clone() }
}

/// The phones among the devices that are ready to be used.
pub fn ready_connected_phones(devices: Vec<AdbDevice>) -> (phones: Vec<ConnectedPhone>)
    ensures
        phones@ == ready_phones(devices@),
{
    let ready = only_ready_devices(devices);
    let mut phones: Vec<ConnectedPhone> = Vec::new();
    let mut i: usize = 0;
    while i < ready.len()
        invariant
            i <= ready.len(),
            phones.len() == i,
            forall|j: int| 0 <= j < i ==> #[trigger] phones@[j] == phone_of(ready@[j]),
        decreases ready.len() - i,
    {
        phones.push(as_phone(&ready[i]));
        i = i + 1;
    }
    assert(phones@ =~= ready@.map_values(|device: AdbDevice| phone_of(device)));
    phones
}

/// The texts one after another, with a comma and a space between each two.
pub open spec fn comma_list(items: Seq<Seq<char>>) -> Seq<char>
    decreases items.len(),
{
    if items.len() == 0 {
        Seq::empty()
    } else if items.len() == 1 {
        items[0]
    } else {
        comma_list(items.drop_last()) + ", "@ + items.last()
    }
}

/// The addresses of the services.
pub open spec fn addresses(services: Seq<MdnsService>) -> Seq<Seq<char>> {
    services.map_values(|service: MdnsService| service.address@)
}

/// How a list of services is summed up for the user.
pub open spec fn summary(services: Seq<MdnsService>) -> Seq<char> {
    if services.len() == 0 {
        "none"@
    } else {
        comma_list(addresses(services))
    }
}

/// The texts one after another, with a comma and a space between each two.
pub fn join_with_commas(items: &Vec<String>) -> (list: String)
    ensures
        list@ == comma_list(items.deep_view()),
{
    let mut list = String::new();
    let mut i: usize = 0;
    let ghost all = items.deep_view();
    assert(all.take(0) =~= seq![]);
    while i < items.len()
        invariant
            i <= items.len(),
            all == items.deep_view(),
            list@ == comma_list(all.take(i as int)),
        decreases items.len() - i,
    {
        proof {
            assert(all.take(i + 1).drop_last() =~= all.take(i as int));
            assert(all.take(i + 1).last() == items@[i as int]@);
        }
        if i > 0 {
            list.append(", ");
        }
        list.append(items[i].as_str());
        proof {
            if i == 0 {
                assert(list@ =~= items@[0]@);
            }
        }
        i = i + 1;
    }
    assert(all.take(i as int) =~= all);
    list
}

/// The addresses of the services in one line, for the user.
pub fn endpoint_summary(services: &Vec<MdnsService>) -> (line: String)
    ensures
        line@ == summary(services@),
{
    if services.len() == 0 {
        return "none".to_owned();
    }
    let mut items: Vec<String> = Vec::new();
    let mut i: usize = 0;
    while i < services.len()
        invariant
            i <= services.len(),
            items.len() == i,
            forall|j: int| 0 <= j < i ==> #[trigger] items@[j] == services@[j].address,
        decreases services.len() - i,
    {
        items.push(services[i].address.clone());
        i = i + 1;
    }
    assert(items.deep_view() =~= addresses(services@));
    join_with_commas(&items)
}

proof fn lemma_ready_devices(devices: Seq<AdbDevice>, device: AdbDevice)
    ensures
        ready_devices(devices).contains(device) <==> devices.contains(device) && device.state
            == DeviceState::Device,
    decreases devices.len(),
{
    reveal(Seq::filter);
    if devices.len() > 0 {
        let front = devices.drop_last();
        lemma_ready_devices(front, device);
        assert(devices =~= front.push(devices.last()));
        assert(devices.contains(device) <==> front.contains(device) || devices.last() == device) by {
            broadcast use vstd::seq_lib::group_seq_properties;

        }
        if devices.last().state == DeviceState::Device {
            assert(ready_devices(devices) =~= ready_devices(front).push(devices.last()));
            assert(ready_devices(devices).contains(device) <==> ready_devices(front).contains(
                device,
            ) || devices.last() == device) by {
                broadcast use vstd::seq_lib::group_seq_properties;

            }
        }
    }
}

/// Every ready phone is a device of the list that is ready, and none of those is left out.
pub proof fn law_ready_phones_are_the_ready_devices(devices: Seq<AdbDevice>, phone: ConnectedPhone)
    ensures
        ready_phones(devices).contains(phone) <==> exists|device: AdbDevice| #[trigger]
            devices.contains(device) && device.state == DeviceState::Device && phone_of(device)
                == phone,
{
    let ready = ready_devices(devices);
    let phones = ready_phones(devices);
    if phones.contains(phone) {
        let k = choose|k: int| 0 <= k < phones.len() && phones[k] == phone;
        assert(ready.contains(ready[k]));
        lemma_ready_devices(devices, ready[k]);
    }
    if exists|device: AdbDevice| #[trigger]
        devices.contains(device) && device.state == DeviceState::Device && phone_of(device)
            == phone {
        let device = choose|device: AdbDevice| #[trigger]
            devices.contains(device) && device.state == DeviceState::Device && phone_of(device)
                == phone;
        lemma_ready_devices(devices, device);
        let k = choose|k: int| 0 <= k < ready.len() && ready[k] == device;
        assert(phones[k] == phone);
    }
}

/// What the ready devices and phones are, from one list to a longer one: a device at its end adds
/// itself, as the phone that it is, exactly if it is ready.
pub proof fn law_one_more_device(devices: Seq<AdbDevice>, device: AdbDevice)
    ensures
        ready_devices(seq![]).len() == 0,
        ready_phones(seq![]).len() == 0,
        device.state == DeviceState::Device ==> {
            &&& ready_devices(devices.push(device)) == ready_devices(devices).push(device)
            &&& ready_phones(devices.push(device)) == ready_phones(devices).push(
                ConnectedPhone { serial: device.serial, display_name: device.display_name },
            )
        },
        device.state != DeviceState::Device ==> {
            &&& ready_devices(devices.push(device)) == ready_devices(devices)
            &&& ready_phones(devices.push(device)) == ready_phones(devices)
        },
{
    reveal(Seq::filter);
    assert(devices.push(device).drop_last() =~= devices);
    if device.state == DeviceState::Device {
        assert(ready_phones(devices.push(device)) =~= ready_phones(devices).push(
            ConnectedPhone { serial: device.serial, display_name: device.display_name },
        ));
    }
}

/// A list of one text is that text, and two lists that are put together are parted by a comma and
/// a space.
pub proof fn law_lists_are_parted_by_commas(first: Seq<Seq<char>>, second: Seq<Seq<char>>)
    requires
        first.len() > 0,
        second.len() > 0,
    ensures
        first.len() == 1 ==> comma_list(first) == first[0],
        comma_list(first + second) == comma_list(first) + ", "@ + comma_list(second),
    decreases second.len(),
{
    let whole = first + second;
    assert(whole.last() == second.last());
    if second.len() == 1 {
        assert(whole.drop_last() =~= first);
    } else {
        law_lists_are_parted_by_commas(first, second.drop_last());
        assert(whole.drop_last() =~= first + second.drop_last());
        assert(comma_list(whole) =~= comma_list(first) + ", "@ + comma_list(second));
    }
}

/// Services are summed up by their addresses, in their order, and their absence in a word.
pub proof fn law_summary_lists_the_addresses(services: Seq<MdnsService>, texts: Seq<Seq<char>>)
    requires
        texts.len() == services.len(),
        forall|i: int| 0 <= i < texts.len() ==> #[trigger] texts[i] == services[i].address@,
    ensures
        summary(services) == if services.len() == 0 {
            "none"@
        } else {
            comma_list(texts)
        },
{
    assert(addresses(services) =~= texts);
}

} // verus!
