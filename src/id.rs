use vstd::prelude::*;

verus! {

/// Host bus number for USB.
pub const BUS_USB: u16 = 3;

/// Host bus number for Bluetooth.
pub const BUS_BLUETOOTH: u16 = 5;

/// The bus over which a HID device is connected.
#[derive(Clone, Copy, Debug, PartialEq, Eq, Structural)]
pub enum DeviceKind {
    /// An HID device connected via Bluetooth.
    Bluetooth,
    /// An HID device connected via USB.
    USB,
}

impl DeviceKind {
    pub open spec fn bus_id_spec(self) -> u16 {
        match self {
            DeviceKind::Bluetooth => BUS_BLUETOOTH,
            DeviceKind::USB => BUS_USB,
        }
    }

    /// The host's numeric identifier of this bus.
    #[verifier::when_used_as_spec(bus_id_spec)]
    pub fn bus_id(self) -> (r: u16)
        ensures
            r == self.bus_id_spec(),
            r != 0,
    {
        match self {
            DeviceKind::Bluetooth => BUS_BLUETOOTH,
            DeviceKind::USB => BUS_USB,
        }
    }
}

/// One record of the host's device-id table, field for field as the host
/// lays it out.
#[derive(Clone, Copy, Debug, PartialEq, Eq, Structural)]
pub struct RawDeviceId {
    pub bus: u16,
    pub group: u16,
    pub vendor: u32,
    pub product: u32,
    pub driver_data: u64,
}

impl RawDeviceId {
    pub open spec fn sentinel_spec() -> RawDeviceId {
        RawDeviceId { bus: 0, group: 0, vendor: 0, product: 0, driver_data: 0 }
    }

    /// The all-zero record that ends a device-id table.
    #[verifier::when_used_as_spec(sentinel_spec)]
    pub fn sentinel() -> (r: RawDeviceId)
        ensures
            r == RawDeviceId::sentinel_spec(),
    {
        RawDeviceId { bus: 0, group: 0, vendor: 0, product: 0, driver_data: 0 }
    }

    pub open spec fn matches_spec(self, bus: u16, vendor: u32, product: u32) -> bool {
        self.bus == bus && self.vendor == vendor && self.product == product
    }

    /// Whether this record names the device on `bus` with `vendor` and `product`.
    #[verifier::when_used_as_spec(matches_spec)]
    pub fn matches(self, bus: u16, vendor: u32, product: u32) -> (r: bool)
        ensures
            r == self.matches_spec(bus, vendor, product),
    {
        self.bus == bus && self.vendor == vendor && self.product == product
    }
}

/// A device identity as a driver author writes it.
#[derive(Clone, Copy, Debug, PartialEq, Eq, Structural)]
pub struct HidDeviceId {
    /// Indicates the bus used to connect to this HID device.
    pub kind: DeviceKind,
    /// The USB vendor ID of this HID device.
    pub vendor: u16,
    /// The USB product ID of this HID device.
    pub product: u16,
}

impl HidDeviceId {
    pub open spec fn to_rawid_spec(self) -> RawDeviceId {
        RawDeviceId {
            bus: self.kind.bus_id_spec(),
            group: 0,
            vendor: self.vendor as u32,
            product: self.product as u32,
            driver_data: 0,
        }
    }

    /// The host's table record for this identity.
    #[verifier::when_used_as_spec(to_rawid_spec)]
    pub fn to_rawid(self) -> (r: RawDeviceId)
        ensures
            r == self.to_rawid_spec(),
    {
        RawDeviceId {
            bus: self.kind.bus_id(),
            group: 0,
            vendor: self.vendor as u32,
            product: self.product as u32,
            driver_data: 0,
        }
    }
}

/// The host table for `entries`: one record per entry, then the sentinel.
pub open spec fn id_table_spec(entries: Seq<HidDeviceId>) -> Seq<RawDeviceId> {
    entries.map_values(|e: HidDeviceId| e.to_rawid_spec()).push(RawDeviceId::sentinel_spec())
}

/// Whether the host, walking `table` up to its sentinel, finds a record for
/// the device on `bus` with `vendor` and `product`.
pub open spec fn table_matches_spec(table: Seq<RawDeviceId>, bus: u16, vendor: u32, product: u32) -> bool {
    exists|i: int|
        0 <= i < table.len() && (forall|j: int| 0 <= j < i ==> (#[trigger] table[j]).bus != 0)
            && table[i].bus != 0 && (#[trigger] table[i]).matches_spec(bus, vendor, product)
}

/// Builds the sentinel-terminated host table from the authored entries.
pub fn build_id_table(entries: &Vec<HidDeviceId>) -> (r: Vec<RawDeviceId>)
    requires
        entries@.len() < usize::MAX,
    ensures
        r@ == id_table_spec(entries@),
{
    let mut r: Vec<RawDeviceId> = Vec::new();
    let mut k: usize = 0;
    while k < entries.len()
        invariant
            k <= entries@.len(),
            r@ == entries@.subrange(0, k as int).map_values(|e: HidDeviceId| e.to_rawid_spec()),
        decreases entries@.len() - k,
    {
        r.push(entries[k].to_rawid());
        k = k + 1;
        assert(r@ =~= entries@.subrange(0, k as int).map_values(|e: HidDeviceId| e.to_rawid_spec()));
    }
    assert(entries@.subrange(0, k as int) =~= entries@);
    r.push(RawDeviceId::sentinel());
    r
}

/// Walks `table` as the host does, up to the sentinel, looking for the device
/// on `bus` with `vendor` and `product`.
pub fn table_matches(table: &Vec<RawDeviceId>, bus: u16, vendor: u32, product: u32) -> (r: bool)
    ensures
        r == table_matches_spec(table@, bus, vendor, product),
{
    let mut k: usize = 0;
    while k < table.len()
        invariant
            k <= table@.len(),
            forall|j: int| 0 <= j < k ==> (#[trigger] table@[j]).bus != 0,
            forall|j: int| 0 <= j < k ==> !(#[trigger] table@[j]).matches_spec(bus, vendor, product),
        decreases table@.len() - k,
    {
        let rec = table[k];
        if rec.bus == 0 {
            assert forall|i: int|
                0 <= i < table@.len() && (forall|j: int| 0 <= j < i ==> (#[trigger] table@[j]).bus != 0)
                    && table@[i].bus != 0 implies !(#[trigger] table@[i]).matches_spec(bus, vendor, product) by {
                if i > k {
                    assert(table@[k as int].bus != 0);
                }
            }
            return false;
        }
        if rec.matches(bus, vendor, product) {
            return true;
        }
        k = k + 1;
    }
    false
}

/// A table built from authored entries has one record per entry and then the
/// sentinel; every authored entry is found in it, and the sentinel never
/// matches a device on a real bus.
pub proof fn lemma_id_table(entries: Seq<HidDeviceId>, i: int, bus: u16, vendor: u32, product: u32)
    requires
        0 <= i < entries.len(),
        bus != 0,
    ensures
        id_table_spec(entries).len() == entries.len() + 1,
        id_table_spec(entries).last() == RawDeviceId::sentinel_spec(),
        table_matches_spec(
            id_table_spec(entries),
            entries[i].kind.bus_id_spec(),
            entries[i].vendor as u32,
            entries[i].product as u32,
        ),
        !RawDeviceId::sentinel_spec().matches_spec(bus, vendor, product),
{
    let t = id_table_spec(entries);
    assert forall|j: int| 0 <= j < i implies (#[trigger] t[j]).bus != 0 by {
        assert(t[j] == entries[j].to_rawid_spec());
        assert(entries[j].kind.bus_id_spec() != 0);
    }
    assert(t[i] == entries[i].to_rawid_spec());
    assert(entries[i].kind.bus_id_spec() != 0);
}

} // verus!
