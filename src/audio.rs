//! Choosing the capture device.
use vstd::prelude::*;

verus! {

/// An input device as listed to the user.
#[derive(Clone, Debug, PartialEq, Eq)]
pub struct AudioDevice {
    pub name: String,
    pub is_default: bool,
}

/// `d` lists the device named `name`, flagged when it is the default.
pub open spec fn device_listed(d: AudioDevice, name: String, default_name: Option<String>) -> bool {
    &&& d.name == name
    &&& d.is_default == (default_name is Some && default_name->Some_0@ == name@)
}

/// Lists the devices whose names could be read, flagging the host default.
pub fn mark_default_devices(names: Vec<String>, default_name: &Option<String>) -> (r: Vec<AudioDevice>)
    ensures
        r@.len() == names@.len(),
        forall|i: int| 0 <= i < r@.len() ==> #[trigger] device_listed(r@[i], names@[i], *default_name),
{
    let mut out: Vec<AudioDevice> = Vec::new();
    let mut i: usize = 0;
    while i < names.len()
        invariant
            i <= names@.len(),
            out@.len() == i,
            forall|k: int|
                0 <= k < i ==> #[trigger] device_listed(out@[k], names@[k], *default_name),
        decreases names@.len() - i,
    {
        let ghost before = out@;
        let name = names[i].clone();
        let is_default = match default_name {
            Some(d) => *d == name,
            None => false,
        };
        out.push(AudioDevice { name, is_default });
        assert(forall|k: int| 0 <= k < i ==> out@[k] == before[k]);
        assert(device_listed(out@[i as int], names@[i as int], *default_name));
        i = i + 1;
    }
    out
}

/// Which device to capture from.
#[derive(Clone, Copy, Debug, PartialEq, Eq, Structural)]
pub enum DeviceChoice {
    /// The listed device at this position.
    Named(usize),
    /// The host default; `warn` when a requested device was not found.
    Default { warn: bool },
}

/// Position `j` lists a device named `q`.
pub open spec fn names_match(names: Seq<Option<String>>, j: int, q: String) -> bool {
    names[j] is Some && names[j]->Some_0@ == q@
}

/// The first listed device (`None` where its name cannot be read) whose
/// name is the requested one, or the host default when none is requested
/// or none matches.
pub fn choose_device(names: &Vec<Option<String>>, requested: &Option<String>) -> (r: DeviceChoice)
    ensures
        match *requested {
            None => r == DeviceChoice::Default { warn: false },
            Some(q) => match r {
                DeviceChoice::Named(i) => i < names@.len() && names_match(names@, i as int, q)
                    && forall|j: int| 0 <= j < i ==> !names_match(names@, j, q),
                DeviceChoice::Default { warn } => warn && forall|j: int|
                    0 <= j < names@.len() ==> !names_match(names@, j, q),
            },
        },
{
    match requested {
        None => DeviceChoice::Default { warn: false },
        Some(q) => {
            let mut i: usize = 0;
            while i < names.len()
                invariant
                    i <= names@.len(),
                    *requested == Some(*q),
                    forall|j: int| 0 <= j < i ==> !names_match(names@, j, *q),
                decreases names@.len() - i,
            {
                match &names[i] {
                    Some(n) => {
                        if *n == *q {
                            return DeviceChoice::Named(i);
                        }
                    },
                    None => {},
                }
                i = i + 1;
            }
            DeviceChoice::Default { warn: true }
        },
    }
}

} // verus!
