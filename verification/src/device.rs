use vstd::prelude::*;

verus! {

/// One flashable firmware artifact of a device.
#[derive(Debug)]
pub struct DeviceFirmware {
    pub version: String,
    pub date: String,
    pub active: bool,
    pub legal: bool,
    pub filename: String,
    pub filefmt: String,
}

impl Clone for DeviceFirmware {
    fn clone(&self) -> (r: Self)
        ensures
            r == *self,
    {
        DeviceFirmware {
            version: self.version.clone(),
            date: self.date.clone(),
            active: self.active,
            legal: self.legal,
            filename: self.filename.clone(),
            filefmt: self.filefmt.clone(),
        }
    }
}

/// A hardware profile: identification data, the flashing-tool parameters,
/// and the firmware entries available for it.
#[derive(Debug)]
pub struct Device {
    pub name: String,
    pub id: String,
    pub partno: String,
    pub progid: String,
    pub baudrate: u64,
    pub memtype: String,
    pub op: String,
    pub active: bool,
    pub firmwares: Vec<DeviceFirmware>,
}

impl Clone for Device {
    fn clone(&self) -> (r: Self)
        ensures
            r.name == self.name,
            r.id == self.id,
            r.partno == self.partno,
            r.progid == self.progid,
            r.baudrate == self.baudrate,
            r.memtype == self.memtype,
            r.op == self.op,
            r.active == self.active,
            r.firmwares@ == self.firmwares@,
    {
        let mut firmwares: Vec<DeviceFirmware> = Vec::new();
        let mut i: usize = 0;
        while i < self.firmwares.len()
            invariant
                i <= self.firmwares@.len(),
                firmwares@.len() == i,
                forall|j: int| 0 <= j < i ==> firmwares@[j] == self.firmwares@[j],
            decreases self.firmwares@.len() - i,
        {
            firmwares.push(self.firmwares[i].clone());
            i += 1;
        }
        proof {
            assert(firmwares@ =~= self.firmwares@);
        }
        Device {
            name: self.name.clone(),
            id: self.id.clone(),
            partno: self.partno.clone(),
            progid: self.progid.clone(),
            baudrate: self.baudrate,
            memtype: self.memtype.clone(),
            op: self.op.clone(),
            active: self.active,
            firmwares,
        }
    }
}

/// Index of the first firmware entry at position `i` or later whose version
/// label equals `v`; the flags of an entry play no part.
pub open spec fn firmware_match_from(fws: Seq<DeviceFirmware>, v: Seq<char>, i: int) -> Option<int>
    decreases fws.len() - i,
{
    if i < 0 || i >= fws.len() {
        None
    } else if fws[i].version@ == v {
        Some(i)
    } else {
        firmware_match_from(fws, v, i + 1)
    }
}

/// Index of the first device at position `i` or later whose identifier
/// equals `id`.
pub open spec fn device_match_from(devices: Seq<Device>, id: Seq<char>, i: int) -> Option<int>
    decreases devices.len() - i,
{
    if i < 0 || i >= devices.len() {
        None
    } else if devices[i].id@ == id {
        Some(i)
    } else {
        device_match_from(devices, id, i + 1)
    }
}

impl Device {
    /// Exact-version firmware lookup. Selection goes by the version string
    /// alone: entries flagged inactive or not legal are still returned, since
    /// those flags only gate the default listing.
    pub fn find_firmware<'a>(&'a self, version: &String) -> (r: Option<&'a DeviceFirmware>)
        ensures
            match r {
                Some(f) => {
                    &&& firmware_match_from(self.firmwares@, version@, 0) matches Some(i)
                    &&& 0 <= i < self.firmwares@.len()
                    &&& *f == self.firmwares@[i]
                },
                None => firmware_match_from(self.firmwares@, version@, 0) is None,
            },
    {
        let mut i: usize = 0;
        while i < self.firmwares.len()
            invariant
                i <= self.firmwares@.len(),
                firmware_match_from(self.firmwares@, version@, 0) == firmware_match_from(
                    self.firmwares@,
                    version@,
                    i as int,
                ),
            decreases self.firmwares@.len() - i,
        {
            if self.firmwares[i].version == *version {
                return Some(&self.firmwares[i]);
            }
            i += 1;
        }
        None
    }

    /// The firmware entries offered by default: exactly those flagged active,
    /// in their original order.
    pub fn list_visible_firmwares(&self) -> (r: Vec<DeviceFirmware>)
        ensures
            r@ == self.firmwares@.filter(|f: DeviceFirmware| f.active),
    {
        let mut visible: Vec<DeviceFirmware> = Vec::new();
        let mut i: usize = 0;
        proof {
            reveal(Seq::filter);
            assert(visible@ =~= self.firmwares@.take(0).filter(|f: DeviceFirmware| f.active));
        }
        while i < self.firmwares.len()
            invariant
                i <= self.firmwares@.len(),
                visible@ == self.firmwares@.take(i as int).filter(|f: DeviceFirmware| f.active),
            decreases self.firmwares@.len() - i,
        {
            proof {
                reveal(Seq::filter);
                assert(self.firmwares@.take(i + 1).drop_last() =~= self.firmwares@.take(i as int));
                assert(self.firmwares@.take(i + 1).last() == self.firmwares@[i as int]);
            }
            if self.firmwares[i].active {
                visible.push(self.firmwares[i].clone());
            }
            i += 1;
        }
        proof {
            assert(self.firmwares@.take(self.firmwares@.len() as int) =~= self.firmwares@);
        }
        visible
    }
}

/// First device in `devices` whose identifier equals `id`.
pub fn find_device<'a>(devices: &'a Vec<Device>, id: &String) -> (r: Option<&'a Device>)
    ensures
        match r {
            Some(d) => {
                &&& device_match_from(devices@, id@, 0) matches Some(i)
                &&& 0 <= i < devices@.len()
                &&& *d == devices@[i]
            },
            None => device_match_from(devices@, id@, 0) is None,
        },
{
    let mut i: usize = 0;
    while i < devices.len()
        invariant
            i <= devices@.len(),
            device_match_from(devices@, id@, 0) == device_match_from(devices@, id@, i as int),
        decreases devices@.len() - i,
    {
        if devices[i].id == *id {
            return Some(&devices[i]);
        }
        i += 1;
    }
    None
}

/// Law: an exact-version lookup is decided by the version labels alone.
/// Two firmware lists that agree on every version label — whatever their
/// active and legal flags, dates or file data — select the same position,
/// so flipping an entry's flags can never exclude it from explicit selection.
pub proof fn lemma_lookup_ignores_flags(
    a: Seq<DeviceFirmware>,
    b: Seq<DeviceFirmware>,
    v: Seq<char>,
    i: int,
)
    requires
        a.len() == b.len(),
        forall|j: int| 0 <= j < a.len() ==> a[j].version@ == b[j].version@,
        0 <= i <= a.len(),
    ensures
        firmware_match_from(a, v, i) == firmware_match_from(b, v, i),
    decreases a.len() - i,
{
    if i < a.len() {
        lemma_lookup_ignores_flags(a, b, v, i + 1);
    }
}

/// Law: a firmware whose version label is present is always found.
/// In particular an entry flagged inactive or not legal is still selectable
/// by its exact version.
pub proof fn lemma_present_version_is_found(fws: Seq<DeviceFirmware>, v: Seq<char>, i: int)
    requires
        0 <= i <= fws.len(),
        exists|k: int| i <= k < fws.len() && fws[k].version@ == v,
    ensures
        firmware_match_from(fws, v, i) matches Some(j) && i <= j < fws.len() && fws[j].version@
            == v,
    decreases fws.len() - i,
{
    if fws[i].version@ != v {
        let k = choose|k: int| i <= k < fws.len() && fws[k].version@ == v;
        assert(i + 1 <= k < fws.len() && fws[k].version@ == v);
        lemma_present_version_is_found(fws, v, i + 1);
    }
}

} // verus!
