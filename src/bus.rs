//! The address-space router: four routing tables (memory read, memory
//! write, I/O read, I/O write) that map half-open address ranges to the
//! devices that claimed them, and synchronous read/write through them.
use vstd::prelude::*;
use crate::common::{Address, Byte, Fault};

verus! {

/// The direction of an access.
#[derive(PartialEq, Eq, Structural, Copy, Clone, Debug)]
pub enum RWEnum {
    Read,
    Write,
}

/// The half-open span `[self.0, self.1)` of addresses.
#[derive(PartialEq, Eq, Structural, Copy, Clone, Debug)]
pub struct Range(pub Address, pub Address);

impl Range {
    pub open spec fn covers(self, address: Address) -> bool {
        self.0 <= address && address < self.1
    }

    pub fn contains(&self, address: Address) -> (r: bool)
        ensures
            r == self.covers(address),
    {
        self.0 <= address && address < self.1
    }
}

/// Binds a claimed range to the device (by its index on the bus) that
/// claimed it.
#[derive(PartialEq, Eq, Structural, Copy, Clone, Debug)]
pub struct MapEntry {
    pub device: usize,
    pub range: Range,
}

/// The ranges a device claims, one list per routing table.
#[derive(Clone, Debug)]
pub struct DeviceRanges {
    pub read: Vec<Range>,
    pub write: Vec<Range>,
    pub io_read: Vec<Range>,
    pub io_write: Vec<Range>,
}

/// The messages of the request/reply protocol between the CPU, the bus and
/// the devices. Requests carry device-relative or global addresses; the
/// transport that carries the reply back is not part of the message.
#[derive(Clone, Debug)]
pub enum BusMessage {
    AddDeviceOk,
    GetRanges,
    RangesRet(Vec<Range>, Vec<Range>, Vec<Range>, Vec<Range>),
    IOGet(Address),
    MemGet(Address),
    IOPut(Address, Byte),
    MemPut(Address, Byte),
    IOWriteOk,
    IOReadOk(Byte),
    MemWriteOk,
    MemReadOk(Byte),
    Error,
}

/// A unit that owns a slice of the address space. Addresses handed to it are
/// relative to the start of the range through which it was reached, so one
/// implementation serves at any base address.
pub trait MmioDevice: Sized {
    /// The ranges the device claims in the table for space `io` and
    /// direction `dir`.
    spec fn claims(&self, io: bool, dir: RWEnum) -> Seq<Range>;

    /// What a read of `address` returns.
    spec fn read_spec(&self, io: bool, address: Address) -> Result<Byte, ()>;

    /// The device after a write it accepts, or `None` where it refuses it.
    spec fn write_spec(&self, io: bool, address: Address, data: Byte) -> Option<Self>;

    /// Reads the device-relative `address`, in I/O space where `io`.
    fn read(&self, address: Address, io: bool) -> (r: Result<Byte, ()>)
        ensures
            r == self.read_spec(io, address),
    ;

    /// Writes `data` to the device-relative `address`, in I/O space where
    /// `io`; a refused write leaves the device as it was.
    fn write(&mut self, address: Address, data: Byte, io: bool) -> (r: Result<(), ()>)
        ensures
            match old(self).write_spec(io, address, data) {
                Some(next) => r is Ok && *final(self) == next,
                None => r is Err && *final(self) == *old(self),
            },
    ;

    /// The ranges the device claims, answered in one exchange.
    fn get_ranges(&self) -> (r: DeviceRanges)
        ensures
            r.read@ == self.claims(false, RWEnum::Read),
            r.write@ == self.claims(false, RWEnum::Write),
            r.io_read@ == self.claims(true, RWEnum::Read),
            r.io_write@ == self.claims(true, RWEnum::Write),
    ;
}

/// The index of the entry that serves `address`: the last one in the table
/// whose range covers it, so that the last registration wins on overlap.
pub open spec fn route(table: Seq<MapEntry>, address: Address) -> Option<int>
    decreases table.len(),
{
    if table.len() == 0 {
        None
    } else if table.last().range.covers(address) {
        Some(table.len() - 1)
    } else {
        route(table.drop_last(), address)
    }
}

/// What `route` returns is an entry that covers the address, with no later
/// entry covering it; `None` means that no entry covers it.
pub proof fn lemma_route(table: Seq<MapEntry>, address: Address)
    ensures
        match route(table, address) {
            Some(i) => 0 <= i < table.len() && table[i].range.covers(address) && forall|j: int|
                i < j < table.len() ==> !(#[trigger] table[j]).range.covers(address),
            None => forall|j: int| 0 <= j < table.len() ==> !(#[trigger] table[j]).range.covers(address),
        },
    decreases table.len(),
{
    if table.len() > 0 && !table.last().range.covers(address) {
        lemma_route(table.drop_last(), address);
        let t = table.drop_last();
        assert forall|j: int| 0 <= j < t.len() implies t[j] == table[j] by {}
    }
}

/// Finds the entry that serves `address`.
fn find(table: &Vec<MapEntry>, address: Address) -> (r: Option<usize>)
    ensures
        match r {
            Some(i) => route(table@, address) == Some(i as int),
            None => route(table@, address) is None,
        },
{
    let mut i: usize = table.len();
    assert(table@.take(i as int) =~= table@);
    while i > 0
        invariant
            i <= table@.len(),
            route(table@, address) == route(table@.take(i as int), address),
        decreases i,
    {
        let e = table[i - 1];
        assert(table@.take(i as int).drop_last() =~= table@.take(i - 1));
        if e.range.contains(address) {
            return Some(i - 1);
        }
        i -= 1;
    }
    None
}

/// The table with every entry whose range starts at `start` taken out.
pub open spec fn without_start(table: Seq<MapEntry>, start: Address) -> Seq<MapEntry>
    decreases table.len(),
{
    if table.len() == 0 {
        table
    } else {
        let rest = without_start(table.drop_last(), start);
        if table.last().range.0 == start {
            rest
        } else {
            rest.push(table.last())
        }
    }
}

/// The table after `entry` is registered: tables are keyed by the start of
/// the range, so an entry with the same start is replaced, and the new entry
/// is the most recent.
pub open spec fn insert_entry(table: Seq<MapEntry>, entry: MapEntry) -> Seq<MapEntry> {
    without_start(table, entry.range.0).push(entry)
}

/// The table after each of `ranges`, in order, is registered for `device`.
pub open spec fn insert_all(table: Seq<MapEntry>, device: usize, ranges: Seq<Range>) -> Seq<MapEntry>
    decreases ranges.len(),
{
    if ranges.len() == 0 {
        table
    } else {
        insert_entry(
            insert_all(table, device, ranges.drop_last()),
            MapEntry { device, range: ranges.last() },
        )
    }
}

/// No two entries of the table share a start address.
pub open spec fn unique_starts(table: Seq<MapEntry>) -> bool {
    forall|i: int, j: int|
        0 <= i < j < table.len() ==> (#[trigger] table[i]).range.0 != (#[trigger] table[j]).range.0
}

/// The table is keyed by start address and names only devices below `n`.
pub open spec fn table_wf(table: Seq<MapEntry>, n: nat) -> bool {
    &&& unique_starts(table)
    &&& forall|i: int| 0 <= i < table.len() ==> (#[trigger] table[i]).device < n
}

/// Taking entries out keeps every property that all entries had, and leaves
/// none that starts at `start`.
proof fn lemma_without_start_keeps(table: Seq<MapEntry>, start: Address, p: spec_fn(MapEntry) -> bool)
    requires
        forall|i: int| 0 <= i < table.len() ==> p(#[trigger] table[i]),
    ensures
        forall|i: int|
            0 <= i < without_start(table, start).len() ==> p(#[trigger] without_start(table, start)[i])
                && without_start(table, start)[i].range.0 != start,
    decreases table.len(),
{
    if table.len() > 0 {
        let t = table.drop_last();
        assert forall|i: int| 0 <= i < t.len() implies p(#[trigger] t[i]) by {
            assert(t[i] == table[i]);
        }
        lemma_without_start_keeps(t, start, p);
        let rest = without_start(t, start);
        assert(p(table[table.len() - 1]));
        if table.last().range.0 != start {
            let w = rest.push(table.last());
            assert forall|i: int| 0 <= i < w.len() implies p(#[trigger] w[i]) && w[i].range.0 != start by {
                if i < rest.len() {
                    assert(w[i] == rest[i]);
                }
            }
        }
    }
}

proof fn lemma_without_start_unique(table: Seq<MapEntry>, start: Address)
    requires
        unique_starts(table),
    ensures
        unique_starts(without_start(table, start)),
    decreases table.len(),
{
    if table.len() > 0 {
        let t = table.drop_last();
        let last = table.last();
        assert forall|i: int, j: int| 0 <= i < j < t.len() implies (#[trigger] t[i]).range.0 != (
        #[trigger] t[j]).range.0 by {
            assert(t[i] == table[i] && t[j] == table[j]);
        }
        lemma_without_start_unique(t, start);
        let p = |e: MapEntry| e.range.0 != last.range.0;
        assert forall|i: int| 0 <= i < t.len() implies p(#[trigger] t[i]) by {
            assert(t[i] == table[i]);
            assert(table[i].range.0 != table[table.len() - 1].range.0);
        }
        lemma_without_start_keeps(t, start, p);
    }
}

/// Registering an entry for a device below `n` keeps the table well formed.
proof fn lemma_insert_entry_wf(table: Seq<MapEntry>, entry: MapEntry, n: nat)
    requires
        table_wf(table, n),
        entry.device < n,
    ensures
        table_wf(insert_entry(table, entry), n),
{
    lemma_without_start_unique(table, entry.range.0);
    let p = |e: MapEntry| e.device < n;
    lemma_without_start_keeps(table, entry.range.0, p);
}

/// A table stays well formed when the device count grows.
proof fn lemma_table_wf_grow(table: Seq<MapEntry>, n: nat, m: nat)
    requires
        table_wf(table, n),
        n <= m,
    ensures
        table_wf(table, m),
{
}

/// Registers `entry` in `table`, replacing any entry with the same start.
fn insert_entry_exec(table: &mut Vec<MapEntry>, entry: MapEntry)
    ensures
        final(table)@ == insert_entry(old(table)@, entry),
{
    let mut kept: Vec<MapEntry> = Vec::new();
    let mut i: usize = 0;
    while i < table.len()
        invariant
            i <= table@.len(),
            kept@ == without_start(table@.take(i as int), entry.range.0),
        decreases table@.len() - i,
    {
        let e = table[i];
        assert(table@.take(i + 1).drop_last() =~= table@.take(i as int));
        if e.range.0 != entry.range.0 {
            kept.push(e);
        }
        i += 1;
    }
    assert(table@.take(i as int) =~= table@);
    kept.push(entry);
    *table = kept;
}

/// Registers each of `ranges`, in order, for `device`.
fn insert_all_exec(table: &mut Vec<MapEntry>, device: usize, ranges: &Vec<Range>)
    ensures
        final(table)@ == insert_all(old(table)@, device, ranges@),
{
    let mut j: usize = 0;
    assert(ranges@.take(0) =~= Seq::<Range>::empty());
    while j < ranges.len()
        invariant
            j <= ranges@.len(),
            table@ == insert_all(old(table)@, device, ranges@.take(j as int)),
        decreases ranges@.len() - j,
    {
        assert(ranges@.take(j + 1).drop_last() =~= ranges@.take(j as int));
        insert_entry_exec(table, MapEntry { device, range: ranges[j] });
        j += 1;
    }
    assert(ranges@.take(j as int) =~= ranges@);
}

/// Registering ranges for a device below `n` keeps the table well formed.
proof fn lemma_insert_all_wf(table: Seq<MapEntry>, device: usize, ranges: Seq<Range>, n: nat)
    requires
        table_wf(table, n),
        device < n,
    ensures
        table_wf(insert_all(table, device, ranges), n),
    decreases ranges.len(),
{
    if ranges.len() > 0 {
        lemma_insert_all_wf(table, device, ranges.drop_last(), n);
        lemma_insert_entry_wf(
            insert_all(table, device, ranges.drop_last()),
            MapEntry { device, range: ranges.last() },
            n,
        );
    }
}

/// The address-space router. It owns the registered devices and serves one
/// access at a time, so each device sees at most one access in flight.
pub struct Bus<D> {
    read_ranges: Vec<MapEntry>,
    write_ranges: Vec<MapEntry>,
    io_read_ranges: Vec<MapEntry>,
    io_write_ranges: Vec<MapEntry>,
    devices: Vec<D>,
}

impl<D: MmioDevice> Bus<D> {
    /// The routing table for space `io` (memory or I/O) and direction `dir`.
    pub closed spec fn table(&self, io: bool, dir: RWEnum) -> Seq<MapEntry> {
        if io {
            if dir == RWEnum::Read {
                self.io_read_ranges@
            } else {
                self.io_write_ranges@
            }
        } else {
            if dir == RWEnum::Read {
                self.read_ranges@
            } else {
                self.write_ranges@
            }
        }
    }

    /// The registered devices, in order of registration.
    pub closed spec fn devices(&self) -> Seq<D> {
        self.devices@
    }

    /// Every table is keyed by start and names registered devices only.
    pub open spec fn wf(&self) -> bool {
        let n = self.devices().len();
        &&& table_wf(self.table(false, RWEnum::Read), n)
        &&& table_wf(self.table(false, RWEnum::Write), n)
        &&& table_wf(self.table(true, RWEnum::Read), n)
        &&& table_wf(self.table(true, RWEnum::Write), n)
    }

    /// What a read of `address` in space `io` returns: the reply of the
    /// device that serves it, asked at the device-relative offset.
    pub open spec fn read_spec(&self, address: Address, io: bool) -> Result<Byte, Fault> {
        let t = self.table(io, RWEnum::Read);
        match route(t, address) {
            None => Err(Fault::AddressFault),
            Some(i) => match self.devices()[t[i].device as int].read_spec(
                io,
                (address - t[i].range.0) as Address,
            ) {
                Ok(b) => Ok(b),
                Err(_) => Err(Fault::AddressFault),
            },
        }
    }

    /// What a write of `data` to `address` in space `io` returns.
    pub open spec fn write_result(&self, address: Address, data: Byte, io: bool) -> Result<(), Fault> {
        let t = self.table(io, RWEnum::Write);
        match route(t, address) {
            None => Err(Fault::AddressFault),
            Some(i) => match self.devices()[t[i].device as int].write_spec(
                io,
                (address - t[i].range.0) as Address,
                data,
            ) {
                Some(_) => Ok(()),
                None => Err(Fault::AddressFault),
            },
        }
    }

    /// The devices after a write of `data` to `address` in space `io`: only
    /// the device that serves the address and accepts the write changes.
    pub open spec fn write_devices(&self, address: Address, data: Byte, io: bool) -> Seq<D> {
        let t = self.table(io, RWEnum::Write);
        match route(t, address) {
            None => self.devices(),
            Some(i) => match self.devices()[t[i].device as int].write_spec(
                io,
                (address - t[i].range.0) as Address,
                data,
            ) {
                Some(next) => self.devices().update(t[i].device as int, next),
                None => self.devices(),
            },
        }
    }

    /// A bus with no device and empty routing tables.
    pub fn new() -> (bus: Bus<D>)
        ensures
            bus.wf(),
            bus.devices().len() == 0,
            bus.table(false, RWEnum::Read).len() == 0,
            bus.table(false, RWEnum::Write).len() == 0,
            bus.table(true, RWEnum::Read).len() == 0,
            bus.table(true, RWEnum::Write).len() == 0,
    {
        Bus {
            read_ranges: Vec::new(),
            write_ranges: Vec::new(),
            io_read_ranges: Vec::new(),
            io_write_ranges: Vec::new(),
            devices: Vec::new(),
        }
    }

    /// Registers `device`: asks it once for the ranges it claims, and enters
    /// one entry per range into the matching table, keyed by the range's
    /// start. Returns the handle by which the tables name the device.
    pub fn add_device(&mut self, device: D) -> (id: usize)
        requires
            old(self).wf(),
            old(self).devices().len() < usize::MAX,
        ensures
            final(self).wf(),
            id == old(self).devices().len(),
            final(self).devices() == old(self).devices().push(device),
            forall|io: bool, dir: RWEnum|
                #[trigger] final(self).table(io, dir) == insert_all(
                    old(self).table(io, dir),
                    id,
                    device.claims(io, dir),
                ),
    {
        let ranges = device.get_ranges();
        let id = self.devices.len();
        self.devices.push(device);
        let ghost n = self.devices@.len();
        proof {
            lemma_table_wf_grow(self.read_ranges@, (n - 1) as nat, n);
            lemma_table_wf_grow(self.write_ranges@, (n - 1) as nat, n);
            lemma_table_wf_grow(self.io_read_ranges@, (n - 1) as nat, n);
            lemma_table_wf_grow(self.io_write_ranges@, (n - 1) as nat, n);
            lemma_insert_all_wf(self.read_ranges@, id, ranges.read@, n);
            lemma_insert_all_wf(self.write_ranges@, id, ranges.write@, n);
            lemma_insert_all_wf(self.io_read_ranges@, id, ranges.io_read@, n);
            lemma_insert_all_wf(self.io_write_ranges@, id, ranges.io_write@, n);
        }
        insert_all_exec(&mut self.read_ranges, id, &ranges.read);
        insert_all_exec(&mut self.write_ranges, id, &ranges.write);
        insert_all_exec(&mut self.io_read_ranges, id, &ranges.io_read);
        insert_all_exec(&mut self.io_write_ranges, id, &ranges.io_write);
        id
    }

    /// Reads `address` in memory space, or in I/O space where `io_bus`.
    pub fn read(&self, address: Address, io_bus: bool) -> (r: Result<Byte, Fault>)
        requires
            self.wf(),
        ensures
            r == self.read_spec(address, io_bus),
    {
        let table = if io_bus {
            &self.io_read_ranges
        } else {
            &self.read_ranges
        };
        proof {
            lemma_route(table@, address);
        }
        match find(table, address) {
            None => Err(Fault::AddressFault),
            Some(i) => {
                let e = table[i];
                match self.devices[e.device].read(address - e.range.0, io_bus) {
                    Ok(b) => Ok(b),
                    Err(_) => Err(Fault::AddressFault),
                }
            },
        }
    }

    /// Writes `data` to `address` in memory space, or in I/O space where
    /// `io_bus`. Succeeds only where the serving device accepts the write.
    pub fn write(&mut self, address: Address, data: Byte, io_bus: bool) -> (r: Result<(), Fault>)
        requires
            old(self).wf(),
        ensures
            final(self).wf(),
            r == old(self).write_result(address, data, io_bus),
            final(self).devices() == old(self).write_devices(address, data, io_bus),
            forall|io: bool, dir: RWEnum| #[trigger] final(self).table(io, dir) == old(self).table(io, dir),
    {
        let ghost t = self.table(io_bus, RWEnum::Write);
        proof {
            lemma_route(t, address);
        }
        let found = if io_bus {
            find(&self.io_write_ranges, address)
        } else {
            find(&self.write_ranges, address)
        };
        match found {
            None => Err(Fault::AddressFault),
            Some(i) => {
                let e = if io_bus {
                    self.io_write_ranges[i]
                } else {
                    self.write_ranges[i]
                };
                assert(e == t[i as int]);
                let dev = &mut self.devices[e.device];
                match dev.write(address - e.range.0, data, io_bus) {
                    Ok(_) => Ok(()),
                    Err(_) => Err(Fault::AddressFault),
                }
            },
        }
    }

    /// The registered device with handle `id`.
    pub fn device(&self, id: usize) -> (d: &D)
        requires
            id < self.devices().len(),
        ensures
            *d == self.devices()[id as int],
    {
        &self.devices[id]
    }

    /// The number of registered devices.
    pub fn device_count(&self) -> (n: usize)
        ensures
            n == self.devices().len(),
    {
        self.devices.len()
    }

    /// Serves one request of the bus protocol, as the bus actor does for each
    /// message it takes from its inbox: a read or write request is answered
    /// with its result, any other message with nothing.
    pub fn serve(&mut self, request: BusMessage) -> (r: Option<BusMessage>)
        requires
            old(self).wf(),
        ensures
            final(self).wf(),
            forall|io: bool, dir: RWEnum| #[trigger] final(self).table(io, dir) == old(self).table(io, dir),
            match request {
                BusMessage::MemGet(a) => final(self).devices() == old(self).devices() && r == Some(
                    match old(self).read_spec(a, false) {
                        Ok(b) => BusMessage::MemReadOk(b),
                        Err(_) => BusMessage::Error,
                    },
                ),
                BusMessage::IOGet(a) => final(self).devices() == old(self).devices() && r == Some(
                    match old(self).read_spec(a, true) {
                        Ok(b) => BusMessage::IOReadOk(b),
                        Err(_) => BusMessage::Error,
                    },
                ),
                BusMessage::MemPut(a, b) => final(self).devices() == old(self).write_devices(a, b, false)
                    && r == Some(
                    if old(self).write_result(a, b, false) is Ok {
                        BusMessage::MemWriteOk
                    } else {
                        BusMessage::Error
                    },
                ),
                BusMessage::IOPut(a, b) => final(self).devices() == old(self).write_devices(a, b, true)
                    && r == Some(
                    if old(self).write_result(a, b, true) is Ok {
                        BusMessage::IOWriteOk
                    } else {
                        BusMessage::Error
                    },
                ),
                _ => final(self).devices() == old(self).devices() && r is None,
            },
    {
        match request {
            BusMessage::MemGet(a) => match self.read(a, false) {
                Ok(b) => Some(BusMessage::MemReadOk(b)),
                Err(_) => Some(BusMessage::Error),
            },
            BusMessage::IOGet(a) => match self.read(a, true) {
                Ok(b) => Some(BusMessage::IOReadOk(b)),
                Err(_) => Some(BusMessage::Error),
            },
            BusMessage::MemPut(a, b) => match self.write(a, b, false) {
                Ok(_) => Some(BusMessage::MemWriteOk),
                Err(_) => Some(BusMessage::Error),
            },
            BusMessage::IOPut(a, b) => match self.write(a, b, true) {
                Ok(_) => Some(BusMessage::IOWriteOk),
                Err(_) => Some(BusMessage::Error),
            },
            _ => None,
        }
    }
}

/// Serves one request of the bus protocol on the device side, as a device
/// actor does for each message in its inbox: accesses are answered from the
/// device, `GetRanges` with the ranges it claims, anything else with nothing.
pub fn device_reply<D: MmioDevice>(device: &mut D, request: BusMessage) -> (r: Option<BusMessage>)
    ensures
        match request {
            BusMessage::MemGet(a) => *final(device) == *old(device) && r == Some(
                match old(device).read_spec(false, a) {
                    Ok(b) => BusMessage::MemReadOk(b),
                    Err(_) => BusMessage::Error,
                },
            ),
            BusMessage::IOGet(a) => *final(device) == *old(device) && r == Some(
                match old(device).read_spec(true, a) {
                    Ok(b) => BusMessage::IOReadOk(b),
                    Err(_) => BusMessage::Error,
                },
            ),
            BusMessage::MemPut(a, b) => match old(device).write_spec(false, a, b) {
                Some(next) => *final(device) == next && r == Some(BusMessage::MemWriteOk),
                None => *final(device) == *old(device) && r == Some(BusMessage::Error),
            },
            BusMessage::IOPut(a, b) => match old(device).write_spec(true, a, b) {
                Some(next) => *final(device) == next && r == Some(BusMessage::IOWriteOk),
                None => *final(device) == *old(device) && r == Some(BusMessage::Error),
            },
            BusMessage::GetRanges => *final(device) == *old(device) && match r {
                Some(BusMessage::RangesRet(a, b, c, d)) => a@ == old(device).claims(false, RWEnum::Read)
                    && b@ == old(device).claims(false, RWEnum::Write) && c@ == old(device).claims(
                    true,
                    RWEnum::Read,
                ) && d@ == old(device).claims(true, RWEnum::Write),
                _ => false,
            },
            _ => *final(device) == *old(device) && r is None,
        },
{
    match request {
        BusMessage::MemGet(a) => match device.read(a, false) {
            Ok(b) => Some(BusMessage::MemReadOk(b)),
            Err(_) => Some(BusMessage::Error),
        },
        BusMessage::IOGet(a) => match device.read(a, true) {
            Ok(b) => Some(BusMessage::IOReadOk(b)),
            Err(_) => Some(BusMessage::Error),
        },
        BusMessage::MemPut(a, b) => match device.write(a, b, false) {
            Ok(_) => Some(BusMessage::MemWriteOk),
            Err(_) => Some(BusMessage::Error),
        },
        BusMessage::IOPut(a, b) => match device.write(a, b, true) {
            Ok(_) => Some(BusMessage::IOWriteOk),
            Err(_) => Some(BusMessage::Error),
        },
        BusMessage::GetRanges => {
            let ranges = device.get_ranges();
            Some(BusMessage::RangesRet(ranges.read, ranges.write, ranges.io_read, ranges.io_write))
        },
        _ => None,
    }
}

/// Checks the bus's answer to a registration: only `AddDeviceOk` means that
/// the device was added.
pub fn check_add_device(msg: &BusMessage) -> (r: Result<(), Fault>)
    ensures
        r is Ok <==> *msg is AddDeviceOk,
        r is Err ==> r == Err::<(), Fault>(Fault::ProtocolViolation),
{
    match msg {
        BusMessage::AddDeviceOk => Ok(()),
        _ => Err(Fault::ProtocolViolation),
    }
}

/// No two entries of the table cover a common address.
pub open spec fn disjoint(table: Seq<MapEntry>) -> bool {
    forall|i: int, j: int, a: Address|
        #![trigger table[i].range.covers(a), table[j].range.covers(a)]
        0 <= i < table.len() && 0 <= j < table.len() && i != j ==> !(table[i].range.covers(a)
            && table[j].range.covers(a))
}

/// In a table whose ranges do not overlap, each entry serves every address
/// its range covers.
pub proof fn lemma_disjoint_route(table: Seq<MapEntry>, i: int, address: Address)
    requires
        disjoint(table),
        0 <= i < table.len(),
        table[i].range.covers(address),
    ensures
        route(table, address) == Some(i),
{
    lemma_route(table, address);
}

/// Range translation: where the ranges of a read table do not overlap, a read
/// of any address inside a registered range returns exactly what that
/// range's device returns for the device-relative offset `address - start`.
pub proof fn lemma_read_translates<D: MmioDevice>(bus: Bus<D>, io: bool, i: int, address: Address)
    requires
        bus.wf(),
        disjoint(bus.table(io, RWEnum::Read)),
        0 <= i < bus.table(io, RWEnum::Read).len(),
        bus.table(io, RWEnum::Read)[i].range.covers(address),
    ensures
        ({
            let e = bus.table(io, RWEnum::Read)[i];
            bus.read_spec(address, io) == match bus.devices()[e.device as int].read_spec(
                io,
                (address - e.range.0) as Address,
            ) {
                Ok(b) => Ok(b),
                Err(_) => Err::<Byte, Fault>(Fault::AddressFault),
            }
        }),
{
    lemma_disjoint_route(bus.table(io, RWEnum::Read), i, address);
}

/// Address miss: where no registered range covers `address`, both a read and
/// a write of it fail with an address fault, and the write changes nothing.
pub proof fn lemma_address_miss<D: MmioDevice>(bus: Bus<D>, address: Address, data: Byte, io: bool)
    requires
        forall|i: int|
            0 <= i < bus.table(io, RWEnum::Read).len() ==> !(#[trigger] bus.table(
                io,
                RWEnum::Read,
            )[i]).range.covers(address),
        forall|i: int|
            0 <= i < bus.table(io, RWEnum::Write).len() ==> !(#[trigger] bus.table(
                io,
                RWEnum::Write,
            )[i]).range.covers(address),
    ensures
        bus.read_spec(address, io) == Err::<Byte, Fault>(Fault::AddressFault),
        bus.write_result(address, data, io) == Err::<(), Fault>(Fault::AddressFault),
        bus.write_devices(address, data, io) == bus.devices(),
{
    lemma_route(bus.table(io, RWEnum::Read), address);
    lemma_route(bus.table(io, RWEnum::Write), address);
}

} // verus!
