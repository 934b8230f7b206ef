use vstd::prelude::*;

verus! {

/// `p` is a prefix of `s`.
pub open spec fn has_prefix(s: Seq<char>, p: Seq<char>) -> bool {
    p.len() <= s.len() && s.take(p.len() as int) == p
}

/// `p` occurs somewhere in `s`.
pub open spec fn has_infix(s: Seq<char>, p: Seq<char>) -> bool {
    exists|i: int| 0 <= i && i + p.len() <= s.len() && #[trigger] s.subrange(i, i + p.len()) == p
}

/// The characters of a string.
fn chars_of(s: &str) -> (v: Vec<char>)
    ensures
        v@ == s@,
{
    let n = s.unicode_len();
    let mut v: Vec<char> = Vec::new();
    let mut i: usize = 0;
    while i < n
        invariant
            n == s@.len(),
            i <= n,
            v@ == s@.take(i as int),
        decreases n - i,
    {
        v.push(s.get_char(i));
        i = i + 1;
        assert(v@ =~= s@.take(i as int));
    }
    assert(s@.take(n as int) =~= s@);
    v
}

/// Whether `p` occurs in `s` starting at `at`.
fn occurs_at(s: &Vec<char>, p: &Vec<char>, at: usize) -> (r: bool)
    requires
        at + p@.len() <= s@.len(),
    ensures
        r == (s@.subrange(at as int, at + p@.len()) == p@),
{
    let n = s.len();
    let mut j: usize = 0;
    while j < p.len()
        invariant
            n == s@.len(),
            at + p@.len() <= s@.len(),
            j <= p@.len(),
            forall|k: int| 0 <= k < j ==> s@[at + k] == p@[k],
        decreases p@.len() - j,
    {
        if s[at + j] != p[j] {
            assert(s@.subrange(at as int, at + p@.len())[j as int] != p@[j as int]);
            return false;
        }
        j = j + 1;
    }
    assert(s@.subrange(at as int, at + p@.len()) =~= p@);
    true
}

/// Whether `p` occurs somewhere in `s`.
fn contains_chars(s: &Vec<char>, p: &Vec<char>) -> (r: bool)
    ensures
        r == has_infix(s@, p@),
{
    if p.len() > s.len() {
        return false;
    }
    let last = s.len() - p.len();
    let mut i: usize = 0;
    while i < last
        invariant
            last == s@.len() - p@.len(),
            p@.len() <= s@.len(),
            i <= last,
            forall|k: int| 0 <= k < i ==> #[trigger] s@.subrange(k, k + p@.len()) != p@,
        decreases last - i,
    {
        if occurs_at(s, p, i) {
            return true;
        }
        i = i + 1;
    }
    occurs_at(s, p, last)
}

/// Whether the file name of an input node is that of an event device (`event*`).
pub fn is_event_node(file_name: &str) -> (r: bool)
    ensures
        r == has_prefix(file_name@, "event"@),
{
    let name = chars_of(file_name);
    let prefix = chars_of("event");
    if prefix.len() > name.len() {
        return false;
    }
    occurs_at(&name, &prefix, 0)
}

/// What an input device of the tablet is.
#[derive(Clone, Copy, Debug, PartialEq, Eq, Structural)]
pub enum DeviceRole {
    /// The pen digitiser.
    Pen,
    /// The keyboard that carries the express keys.
    Keyboard,
    /// Any other device.
    Other,
}

/// The role of a device from its name: a WH851 device named for its pen, or
/// else for its keyboard.
pub open spec fn role_of(name: Seq<char>) -> DeviceRole {
    if has_infix(name, "WH851"@) && has_infix(name, "Pen"@) {
        DeviceRole::Pen
    } else if has_infix(name, "WH851"@) && has_infix(name, "Keyboard"@) {
        DeviceRole::Keyboard
    } else {
        DeviceRole::Other
    }
}

/// Tells from its name what a device of the tablet is.
pub fn classify_device(name: &str) -> (role: DeviceRole)
    ensures
        role == role_of(name@),
{
    let chars = chars_of(name);
    let model = chars_of("WH851");
    if contains_chars(&chars, &model) && contains_chars(&chars, &chars_of("Pen")) {
        DeviceRole::Pen
    } else if contains_chars(&chars, &model) && contains_chars(&chars, &chars_of("Keyboard")) {
        DeviceRole::Keyboard
    } else {
        DeviceRole::Other
    }
}

/// The tablet's input nodes found so far while going through the system's devices.
pub struct DeviceScan {
    /// Path of the pen node.
    pub pen: Option<String>,
    /// Path of the keyboard node.
    pub keyboard: Option<String>,
}

impl DeviceScan {
    /// The scan after seeing the device at `path` named `name`: a later
    /// device of the same role replaces an earlier one.
    pub open spec fn observed(self, path: String, name: Seq<char>) -> DeviceScan {
        match role_of(name) {
            DeviceRole::Pen => DeviceScan { pen: Some(path), ..self },
            DeviceRole::Keyboard => DeviceScan { keyboard: Some(path), ..self },
            DeviceRole::Other => self,
        }
    }

    /// The scan after seeing each device of `devices` (path and name) in turn.
    pub open spec fn observed_all(self, devices: Seq<(String, Seq<char>)>) -> DeviceScan
        decreases devices.len(),
    {
        if devices.len() == 0 {
            self
        } else {
            self.observed_all(devices.drop_last()).observed(devices.last().0, devices.last().1)
        }
    }

    /// The scan before any device.
    pub open spec fn empty() -> DeviceScan {
        DeviceScan { pen: None, keyboard: None }
    }

    /// A scan that has found nothing.
    pub fn new() -> (scan: DeviceScan)
        ensures
            scan == DeviceScan::empty(),
    {
        DeviceScan { pen: None, keyboard: None }
    }

    /// Records the device at `path` named `name`.
    pub fn observe(&mut self, path: String, name: &str)
        ensures
            *final(self) == old(self).observed(path, name@),
    {
        match classify_device(name) {
            DeviceRole::Pen => self.pen = Some(path),
            DeviceRole::Keyboard => self.keyboard = Some(path),
            DeviceRole::Other => {},
        }
    }

    /// Whether the pen or the keyboard node has been found.
    pub fn found_any(&self) -> (r: bool)
        ensures
            r == (self.pen is Some || self.keyboard is Some),
    {
        self.pen.is_some() || self.keyboard.is_some()
    }
}

/// The path of the last device of `devices` that has role `role`.
pub open spec fn last_with_role(devices: Seq<(String, Seq<char>)>, role: DeviceRole) -> Option<String>
    decreases devices.len(),
{
    if devices.len() == 0 {
        None
    } else if role_of(devices.last().1) == role {
        Some(devices.last().0)
    } else {
        last_with_role(devices.drop_last(), role)
    }
}

/// Going through the devices from an empty scan, the pen node found is the
/// last device named as the WH851 pen, and the keyboard node the last one
/// named as its keyboard.
pub proof fn lemma_scan_keeps_last(devices: Seq<(String, Seq<char>)>)
    ensures
        DeviceScan::empty().observed_all(devices).pen == last_with_role(devices, DeviceRole::Pen),
        DeviceScan::empty().observed_all(devices).keyboard == last_with_role(devices, DeviceRole::Keyboard),
    decreases devices.len(),
{
    if devices.len() > 0 {
        lemma_scan_keeps_last(devices.drop_last());
    }
}

/// A device is never both the pen and the keyboard: a name that names the
/// pen is taken as the pen.
pub proof fn lemma_pen_takes_precedence(name: Seq<char>)
    requires
        has_infix(name, "WH851"@),
        has_infix(name, "Pen"@),
    ensures
        role_of(name) == DeviceRole::Pen,
{
}

} // verus!
