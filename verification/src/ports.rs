use vstd::prelude::*;

verus! {

/// Bus vendor id of the target device (primary identification).
pub const B0XX_VID: u16 = 9025;

/// Bus product id of the target device (primary identification).
pub const B0XX_PID: u16 = 32822;

/// USB metadata reported for a serial port, when the transport is USB-based.
#[derive(Debug)]
pub struct UsbPortMeta {
    pub vid: u16,
    pub pid: u16,
    pub product: Option<String>,
}

/// A snapshot of one serial endpoint. The port name is the sole identity
/// key used for diffing; the USB metadata only feeds the identification
/// heuristic.
#[derive(Debug)]
pub struct PortDescriptor {
    pub port_name: String,
    pub usb: Option<UsbPortMeta>,
}

impl Clone for UsbPortMeta {
    fn clone(&self) -> (r: Self)
        ensures
            r == *self,
    {
        UsbPortMeta {
            vid: self.vid,
            pid: self.pid,
            product: match &self.product {
                Some(p) => Some(p.clone()),
                None => None,
            },
        }
    }
}

impl Clone for PortDescriptor {
    fn clone(&self) -> (r: Self)
        ensures
            r == *self,
    {
        PortDescriptor {
            port_name: self.port_name.clone(),
            usb: match &self.usb {
                Some(u) => Some(u.clone()),
                None => None,
            },
        }
    }
}

/// The identification heuristic, per port: either the numeric bus ids match
/// the known constants, or the product string equals the known device name.
pub open spec fn is_device_port(p: PortDescriptor) -> bool {
    match p.usb {
        Some(u) => u.vid == B0XX_VID && u.pid == B0XX_PID || (u.product matches Some(s)
            && s@ == "Arduino_Leonardo"@),
        None => false,
    }
}

/// Index of the first port at position `i` or later that satisfies the
/// identification heuristic.
pub open spec fn locate_from(ports: Seq<PortDescriptor>, i: int) -> Option<int>
    decreases ports.len() - i,
{
    if i < 0 || i >= ports.len() {
        None
    } else if is_device_port(ports[i]) {
        Some(i)
    } else {
        locate_from(ports, i + 1)
    }
}

/// The views of a list of strings.
pub open spec fn seq_views(v: Seq<String>) -> Seq<Seq<char>> {
    v.map_values(|s: String| s@)
}

/// The names of a list of ports.
pub open spec fn port_names(ports: Seq<PortDescriptor>) -> Seq<Seq<char>> {
    ports.map_values(|p: PortDescriptor| p.port_name@)
}

/// Whether `n` occurs among `names`.
pub open spec fn name_in(names: Seq<Seq<char>>, n: Seq<char>) -> bool {
    exists|i: int| 0 <= i < names.len() && names[i] == n
}

/// Index of the first port at position `i` or later whose name does not
/// occur in `before`.
pub open spec fn first_new_from(
    before: Seq<Seq<char>>,
    after: Seq<PortDescriptor>,
    i: int,
) -> Option<int>
    decreases after.len() - i,
{
    if i < 0 || i >= after.len() {
        None
    } else if !name_in(before, after[i].port_name@) {
        Some(i)
    } else {
        first_new_from(before, after, i + 1)
    }
}

/// The Device Locator: first port satisfying the identification heuristic,
/// evaluated per port in enumeration order, short-circuiting on the first
/// match.
pub fn locate_device_port(ports: &Vec<PortDescriptor>) -> (r: Option<usize>)
    ensures
        match r {
            Some(i) => i < ports@.len() && locate_from(ports@, 0) == Some(i as int),
            None => locate_from(ports@, 0) is None,
        },
{
    let leonardo: String = String::from_str("Arduino_Leonardo");
    let mut i: usize = 0;
    while i < ports.len()
        invariant
            i <= ports@.len(),
            leonardo@ == "Arduino_Leonardo"@,
            locate_from(ports@, 0) == locate_from(ports@, i as int),
        decreases ports@.len() - i,
    {
        let matched: bool = match &ports[i].usb {
            Some(u) => {
                if u.vid == B0XX_VID && u.pid == B0XX_PID {
                    true
                } else {
                    match &u.product {
                        Some(p) => *p == leonardo,
                        None => false,
                    }
                }
            },
            None => false,
        };
        if matched {
            return Some(i);
        }
        i += 1;
    }
    None
}

/// Whether `n` is one of `names`.
pub fn contains_name(names: &Vec<String>, n: &String) -> (r: bool)
    ensures
        r == name_in(seq_views(names@), n@),
{
    let mut i: usize = 0;
    while i < names.len()
        invariant
            i <= names@.len(),
            forall|j: int| 0 <= j < i ==> names@[j]@ != n@,
        decreases names@.len() - i,
    {
        if names[i] == *n {
            proof {
                assert(seq_views(names@)[i as int] == n@);
            }
            return true;
        }
        i += 1;
    }
    proof {
        assert(forall|j: int| 0 <= j < names@.len() ==> seq_views(names@)[j] == names@[j]@);
    }
    false
}

/// The names of `ports`, in enumeration order.
pub fn collect_port_names(ports: &Vec<PortDescriptor>) -> (r: Vec<String>)
    ensures
        seq_views(r@) == port_names(ports@),
{
    let mut names: Vec<String> = Vec::new();
    let mut i: usize = 0;
    while i < ports.len()
        invariant
            i <= ports@.len(),
            names@.len() == i,
            forall|j: int| 0 <= j < i ==> names@[j]@ == ports@[j].port_name@,
        decreases ports@.len() - i,
    {
        names.push(ports[i].port_name.clone());
        i += 1;
    }
    proof {
        assert(seq_views(names@) =~= port_names(ports@));
    }
    names
}

/// The port diff: first port of `after` whose name was not in `before`,
/// in enumeration order.
pub fn first_new_port(before: &Vec<String>, after: &Vec<PortDescriptor>) -> (r: Option<usize>)
    ensures
        match r {
            Some(i) => i < after@.len() && first_new_from(seq_views(before@), after@, 0) == Some(
                i as int,
            ),
            None => first_new_from(seq_views(before@), after@, 0) is None,
        },
{
    let mut i: usize = 0;
    while i < after.len()
        invariant
            i <= after@.len(),
            first_new_from(seq_views(before@), after@, 0) == first_new_from(
                seq_views(before@),
                after@,
                i as int,
            ),
        decreases after@.len() - i,
    {
        if !contains_name(before, &after[i].port_name) {
            return Some(i);
        }
        i += 1;
    }
    None
}

/// What `first_new_from` finds, spelled out: a first index that is new, with
/// everything before it already known; or nothing new at all.
pub proof fn lemma_first_new_characterization(
    before: Seq<Seq<char>>,
    after: Seq<PortDescriptor>,
    i: int,
)
    requires
        0 <= i <= after.len(),
    ensures
        match first_new_from(before, after, i) {
            Some(j) => {
                &&& i <= j < after.len()
                &&& !name_in(before, after[j].port_name@)
                &&& forall|k: int| i <= k < j ==> name_in(before, after[k].port_name@)
            },
            None => forall|k: int| i <= k < after.len() ==> name_in(before, after[k].port_name@),
        },
    decreases after.len() - i,
{
    if i < after.len() && name_in(before, after[i].port_name@) {
        lemma_first_new_characterization(before, after, i + 1);
    }
}

/// Law: if the after-snapshot holds exactly one name `x` that the
/// before-snapshot lacks, the diff resolves to a port named `x`.
pub proof fn lemma_single_new_name_resolves(
    before: Seq<Seq<char>>,
    after: Seq<PortDescriptor>,
    x: Seq<char>,
)
    requires
        !name_in(before, x),
        exists|k: int| 0 <= k < after.len() && after[k].port_name@ == x,
        forall|k: int|
            0 <= k < after.len() ==> name_in(before, after[k].port_name@) || after[k].port_name@
                == x,
    ensures
        first_new_from(before, after, 0) matches Some(j) && 0 <= j < after.len()
            && after[j].port_name@ == x,
{
    lemma_first_new_characterization(before, after, 0);
    if first_new_from(before, after, 0) is None {
        let k = choose|k: int| 0 <= k < after.len() && after[k].port_name@ == x;
        assert(name_in(before, after[k].port_name@));
        assert(false);
    }
}

/// Law: if every name of the after-snapshot already stood in the
/// before-snapshot, the diff finds nothing.
pub proof fn lemma_no_new_name_no_port(before: Seq<Seq<char>>, after: Seq<PortDescriptor>)
    requires
        forall|k: int| 0 <= k < after.len() ==> name_in(before, after[k].port_name@),
    ensures
        first_new_from(before, after, 0) is None,
{
    lemma_first_new_characterization(before, after, 0);
}

} // verus!
