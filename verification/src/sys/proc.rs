//! The input-device list of `/proc/bus/input/devices` and the search for the
//! touchpad in it.
use crate::text::{
    chars_of, contains, lemma_find_bounds, lemma_find_reaches, seq_contains, seq_find, parse_i32, same_text, seq_lines, seq_parse_i32, seq_split, seq_split_once,
    seq_starts_with, seq_strip_prefix, seq_trim, seq_trim_char, seq_words, split, split_once,
    starts_with, string_of, strip_prefix, subrange, texts, trim, trim_char, lines, words,
};
use vstd::prelude::*;

verus! {

#[verifier::external_type_specification]
#[verifier::external_body]
pub struct ExRegex(regex::Regex);

/// Group 1 of the first match of the regular expression `.*i2c-(\d+)/.*` in
/// `sysfs`, as `regex::Regex::captures` finds it, if there is a match.
pub uninterp spec fn sysfs_bus_capture(sysfs: Seq<char>) -> Option<Seq<char>>;

/// The compiled regular expression `.*i2c-(\d+)/.*` that picks the I2C bus
/// number out of a `Sysfs=` path. Only [`BusIdPattern::new`] builds one, so its
/// expression is always that one.
struct BusIdPattern {
    re: regex::Regex,
}

impl BusIdPattern {
    /// Compiles `.*i2c-(\d+)/.*` with `regex::Regex::new`; the expression is
    /// valid, so the compilation does not fail. Nothing is stated of the result.
    #[verifier::external_body]
    fn new() -> (p: BusIdPattern) {
        BusIdPattern { re: regex::Regex::new(r".*i2c-(\d+)/.*").unwrap() }
    }

    /// `regex::Regex::captures` on `text`, then capture group 1 as a string.
    /// Claimed: the result is [`sysfs_bus_capture`] of the text, which holds
    /// because the pattern is always `.*i2c-(\d+)/.*` (see [`BusIdPattern::new`]).
    #[verifier::external_body]
    fn capture(&self, text: &str) -> (r: Option<String>)
        ensures
            r matches Some(c) ==> sysfs_bus_capture(text@) == Some(c@),
            r is None ==> sysfs_bus_capture(text@) is None,
    {
        self.re.captures(text).and_then(|c| c.get(1)).map(|m| m.as_str().to_string())
    }
}

/// The fields of one device entry, as plain values.
pub struct DeviceFields {
    pub bus: i32,
    pub name: Seq<char>,
    pub event: Seq<char>,
}

/// The bus number of a `Sysfs=` value, given what the bus-id expression
/// captured in it: the captured digits (the whole value when nothing was
/// captured) read as an `i32`, `-1` when they are not a number.
pub open spec fn bus_of(val: Seq<char>, capture: Option<Seq<char>>) -> i32 {
    let id = match capture {
        Some(c) => c,
        None => val,
    };
    match seq_parse_i32(id) {
        Some(n) => n,
        None => -1i32,
    }
}

/// The bus number that a `Sysfs=` value gives: the digits after the last
/// `i2c-` that the path names, as the bus-id expression captures them.
pub open spec fn sysfs_bus(val: Seq<char>) -> i32 {
    bus_of(val, sysfs_bus_capture(val))
}

/// The bus after the words of an `S:` line: the last word with the prefix
/// `Sysfs=` sets it, other words leave it.
pub open spec fn sysfs_words_bus(bus: i32, ws: Seq<Seq<char>>) -> i32
    decreases ws.len(),
{
    if ws.len() == 0 {
        bus
    } else {
        match seq_strip_prefix(ws.last(), "Sysfs="@) {
            Some(v) => sysfs_bus(v),
            None => sysfs_words_bus(bus, ws.drop_last()),
        }
    }
}

/// The first word at or after index `i` that starts with `event`.
pub open spec fn first_event_word(ws: Seq<Seq<char>>, i: int) -> Option<Seq<char>>
    decreases ws.len() - i,
{
    if i < 0 || i >= ws.len() {
        None
    } else if seq_starts_with(ws[i], "event"@) {
        Some(ws[i])
    } else {
        first_event_word(ws, i + 1)
    }
}

/// The name on an `N:` line: without a `Name=` prefix and without the quotes
/// around it.
pub open spec fn name_value(rest: Seq<char>) -> Seq<char> {
    let t = match seq_strip_prefix(rest, "Name="@) {
        Some(t) => t,
        None => rest,
    };
    seq_trim_char(t, '"')
}

/// The handler list of an `H:` line: the rest without its `Handlers=` prefix.
pub open spec fn handler_list(rest: Seq<char>) -> Seq<char> {
    match seq_strip_prefix(rest, "Handlers="@) {
        Some(t) => t,
        None => rest,
    }
}

/// One line of a device block applied to the fields read so far. A line is a
/// one-letter key, `": "` and the rest; `S:` sets the bus, `N:` the name, `H:`
/// the event handler (the first handler of the list whose name starts with
/// `event`); any other line changes nothing.
pub open spec fn apply_line(d: DeviceFields, line: Seq<char>) -> DeviceFields {
    let (key, rest) = seq_split_once(line, ": "@);
    match rest {
        None => d,
        Some(rest) => {
            if key == "S"@ {
                DeviceFields { bus: sysfs_words_bus(d.bus, seq_words(rest)), name: d.name, event: d.event }
            } else if key == "N"@ {
                DeviceFields { bus: d.bus, name: name_value(rest), event: d.event }
            } else if key == "H"@ {
                match first_event_word(seq_words(handler_list(rest)), 0) {
                    Some(e) => DeviceFields { bus: d.bus, name: d.name, event: e },
                    None => d,
                }
            } else {
                d
            }
        },
    }
}

/// The lines of a block applied in order.
pub open spec fn apply_lines(d: DeviceFields, lines: Seq<Seq<char>>) -> DeviceFields
    decreases lines.len(),
{
    if lines.len() == 0 {
        d
    } else {
        apply_line(apply_lines(d, lines.drop_last()), lines.last())
    }
}

/// The fields that one block gives: bus `-1`, empty name and handler, then
/// the lines of the trimmed block.
pub open spec fn parse_block(block: Seq<char>) -> DeviceFields {
    apply_lines(
        DeviceFields { bus: -1i32, name: Seq::empty(), event: Seq::empty() },
        seq_lines(seq_trim(block)),
    )
}

/// The devices of a list of blocks, in order; a block with an empty name
/// gives none.
pub open spec fn parse_blocks(blocks: Seq<Seq<char>>) -> Seq<DeviceFields>
    decreases blocks.len(),
{
    if blocks.len() == 0 {
        Seq::empty()
    } else {
        let d = parse_block(blocks.last());
        if d.name.len() > 0 {
            parse_blocks(blocks.drop_last()).push(d)
        } else {
            parse_blocks(blocks.drop_last())
        }
    }
}

/// The devices listed in the text of `/proc/bus/input/devices`, whose entries
/// are separated by blank lines.
pub open spec fn parse_devices(content: Seq<char>) -> Seq<DeviceFields> {
    parse_blocks(seq_split(content, "\n\n"@))
}

/// Represents a single input device entry parsed from `/proc/bus/input/devices`.
///
/// | Field   | Prefix | Example value       |
/// |---------|--------|---------------------|
/// | `name`  | `N:`   | `"ASUS NumberPad"`  |
/// | `event` | `H:`   | `eventN`            |
/// | `bus`   | `S:`   | `3`                 |
pub struct ProcDevice {
    /// I2C bus number taken from the `Sysfs=` path of the `S:` line, `-1` if none.
    pub bus: i32,
    /// Human-readable device name from the `N:` line, quotes stripped.
    pub name: String,
    /// The first `event*` handler of the `H:` line.
    pub event: String,
}

impl View for ProcDevice {
    type V = DeviceFields;

    open spec fn view(&self) -> DeviceFields {
        DeviceFields { bus: self.bus, name: self.name@, event: self.event@ }
    }
}

impl Clone for ProcDevice {
    fn clone(&self) -> (r: Self)
        ensures
            r@ == self@,
    {
        ProcDevice { bus: self.bus, name: self.name.clone(), event: self.event.clone() }
    }
}

/// The plain-value views of a list of devices.
pub open spec fn device_views(v: Seq<ProcDevice>) -> Seq<DeviceFields> {
    v.map_values(|d: ProcDevice| d@)
}

/// The draft of one device while its block is read.
struct Draft {
    bus: i32,
    name: Vec<char>,
    event: Vec<char>,
}

impl Draft {
    spec fn fields(&self) -> DeviceFields {
        DeviceFields { bus: self.bus, name: self.name@, event: self.event@ }
    }
}

/// [`sysfs_bus`] of a `Sysfs=` value.
fn sysfs_value_bus(pattern: &BusIdPattern, val: &Vec<char>) -> (r: i32)
    ensures
        r == sysfs_bus(val@),
{
    let text = string_of(val.as_slice());
    match pattern.capture(text.as_str()) {
        Some(c) => bus_from_capture(text.as_str(), Some(c.as_str())),
        None => bus_from_capture(text.as_str(), None),
    }
}

/// The bus number of the `Sysfs=` value `value`, given the digits that the
/// bus-id expression captured in it (see [`bus_of`]).
pub fn bus_from_capture(value: &str, capture: Option<&str>) -> (r: i32)
    ensures
        r == bus_of(
            value@,
            match capture {
                Some(c) => Some(c@),
                None => None,
            },
        ),
{
    let id: Vec<char> = match capture {
        Some(c) => chars_of(c),
        None => chars_of(value),
    };
    match parse_i32(&id) {
        Some(n) => n,
        None => -1,
    }
}

/// Applies one line of a block to the draft.
fn read_line(pattern: &BusIdPattern, d: &mut Draft, line: &Vec<char>)
    ensures
        final(d).fields() == apply_line(old(d).fields(), line@),
{
    let sep = chars_of(": ");
    let (key, rest) = split_once(line, &sep);
    let rest = match rest {
        None => {
            return;
        },
        Some(r) => r,
    };
    if same_text(&key, &chars_of("S")) {
        let ws = words(&rest);
        let sysfs = chars_of("Sysfs=");
        let n: usize = ws.len();
        let ghost b0 = d.bus;
        assert(ws@.take(0) =~= Seq::<Vec<char>>::empty());
        assert(texts(ws@).take(0) =~= Seq::<Seq<char>>::empty());
        for i in 0..n
            invariant
                n == ws@.len(),
                sysfs@ == "Sysfs="@,
                d.bus == sysfs_words_bus(b0, texts(ws@).take(i as int)),
                d.name@ == old(d).name@,
                d.event@ == old(d).event@,
        {
            assert(texts(ws@).take(i + 1).drop_last() =~= texts(ws@).take(i as int));
            assert(texts(ws@).take(i + 1).last() == ws@[i as int]@);
            if let Some(v) = strip_prefix(&ws[i], &sysfs) {
                d.bus = sysfs_value_bus(pattern, &v);
            }
        }
        assert(texts(ws@).take(n as int) =~= texts(ws@));
    } else if same_text(&key, &chars_of("N")) {
        let t = match strip_prefix(&rest, &chars_of("Name=")) {
            Some(t) => t,
            None => rest,
        };
        d.name = trim_char(&t, '"');
    } else if same_text(&key, &chars_of("H")) {
        let list = match strip_prefix(&rest, &chars_of("Handlers=")) {
            Some(t) => t,
            None => subrange(&rest, 0, rest.len()),
        };
        assert(list@ =~= handler_list(rest@));
        let ws = words(&list);
        let ev = chars_of("event");
        let n: usize = ws.len();
        let mut i: usize = 0;
        while i < n
            invariant
                n == ws@.len(),
                ev@ == "event"@,
                i <= n,
                seq_split_once(line@, ": "@) == (key@, Some(rest@)),
                key@ != "S"@,
                key@ != "N"@,
                key@ == "H"@,
                texts(ws@) == seq_words(handler_list(rest@)),
                first_event_word(texts(ws@), 0) == first_event_word(texts(ws@), i as int),
                d.fields() == old(d).fields(),
            decreases n - i,
        {
            assert(texts(ws@)[i as int] == ws@[i as int]@);
            if starts_with(&ws[i], &ev) {
                d.event = subrange(&ws[i], 0, ws[i].len());
                assert(d.event@ =~= texts(ws@)[i as int]);
                assert(first_event_word(texts(ws@), i as int) == Some(d.event@));
                return;
            }
            i = i + 1;
        }
    }
}

/// Reads one block into a device's fields.
fn read_block(pattern: &BusIdPattern, block: &Vec<char>) -> (d: Draft)
    ensures
        d.fields() == parse_block(block@),
{
    let t = trim(block);
    let ls = lines(&t);
    let mut d = Draft { bus: -1, name: Vec::new(), event: Vec::new() };
    let n: usize = ls.len();
    let ghost d0 = d.fields();
    assert(texts(ls@).take(0) =~= Seq::<Seq<char>>::empty());
    for i in 0..n
        invariant
            n == ls@.len(),
            d0 == (DeviceFields { bus: -1i32, name: Seq::empty(), event: Seq::empty() }),
            d.fields() == apply_lines(d0, texts(ls@).take(i as int)),
    {
        assert(texts(ls@).take(i + 1).drop_last() =~= texts(ls@).take(i as int));
        assert(texts(ls@).take(i + 1).last() == ls@[i as int]@);
        read_line(pattern, &mut d, &ls[i]);
    }
    assert(texts(ls@).take(n as int) =~= texts(ls@));
    assert(d0 =~= DeviceFields { bus: -1i32, name: Seq::empty(), event: Seq::empty() });
    d
}

/// The name of a touchpad that the driver handles: it starts with `ASUE` or
/// `ELAN` and contains `Touchpad`.
pub open spec fn is_touchpad_name(name: Seq<char>) -> bool {
    (seq_starts_with(name, "ASUE"@) || seq_starts_with(name, "ELAN"@)) && seq_contains(
        name,
        "Touchpad"@,
    )
}

/// The index of the first touchpad at or after `i` in a device list.
pub open spec fn first_touchpad(devs: Seq<DeviceFields>, i: int) -> Option<int>
    decreases devs.len() - i,
{
    if i < 0 || i >= devs.len() {
        None
    } else if is_touchpad_name(devs[i].name) {
        Some(i)
    } else {
        first_touchpad(devs, i + 1)
    }
}

/// Every device that parsing yields has a non-empty name.
pub proof fn law_parsed_devices_have_names(blocks: Seq<Seq<char>>)
    ensures
        forall|k: int| 0 <= k < parse_blocks(blocks).len() ==> (#[trigger] parse_blocks(blocks)[k]).name.len() > 0,
    decreases blocks.len(),
{
    if blocks.len() > 0 {
        law_parsed_devices_have_names(blocks.drop_last());
        let prev = parse_blocks(blocks.drop_last());
        let d = parse_block(blocks.last());
        if d.name.len() > 0 {
            assert forall|k: int| 0 <= k < prev.push(d).len() implies (#[trigger] prev.push(d)[k]).name.len() > 0 by {
                if k < prev.len() {
                    assert(prev.push(d)[k] == prev[k]);
                }
            }
        }
    }
}

/// A device name is taken for a touchpad exactly when its first four
/// characters are `ASUE` or `ELAN` and the whole word `Touchpad` (eight
/// characters) occurs somewhere in it; so `ELAN… Touchscreen` is not one.
pub proof fn law_touchpad_name(name: Seq<char>)
    ensures
        is_touchpad_name(name) <==> ({
            &&& name.len() >= 4
            &&& (name.subrange(0, 4) == "ASUE"@ || name.subrange(0, 4) == "ELAN"@)
            &&& exists|i: int, j: int|
                0 <= i && j == i + 8 && j <= name.len() && #[trigger] name.subrange(i, j)
                    == "Touchpad"@
        }),
{
    reveal_strlit("ASUE");
    reveal_strlit("ELAN");
    reveal_strlit("Touchpad");
    let t = "Touchpad"@;
    lemma_find_bounds(name, t, 0);
    if let Some(k) = seq_find(name, t, 0) {
        assert(name.subrange(k, k + 8) == t);
    }
    if exists|i: int, j: int|
        0 <= i && j == i + 8 && j <= name.len() && #[trigger] name.subrange(i, j) == t {
        let (i, j) = choose|i: int, j: int|
            0 <= i && j == i + 8 && j <= name.len() && #[trigger] name.subrange(i, j) == t;
        lemma_find_reaches(name, t, 0, i);
    }
}

/// The touchpad that the search picks is a touchpad, and no device before it is.
pub proof fn law_first_touchpad(devs: Seq<DeviceFields>, i: int)
    requires
        0 <= i,
    ensures
        first_touchpad(devs, i) matches Some(k) ==> i <= k < devs.len() && is_touchpad_name(devs[k].name)
            && forall|j: int| i <= j < k ==> !is_touchpad_name(devs[j].name),
        first_touchpad(devs, i) is None ==> forall|j: int| i <= j < devs.len() ==> !is_touchpad_name(devs[j].name),
    decreases devs.len() - i,
{
    if i < devs.len() && !is_touchpad_name(devs[i].name) {
        law_first_touchpad(devs, i + 1);
    }
}

/// What one attempt at finding the touchpad decides.
pub enum DetectStep {
    /// The touchpad, the first matching device of the list.
    Found(ProcDevice),
    /// On the last attempt, the first touchpad of the list still has no I2C
    /// bus number (bus `-1`).
    BusUnresolved,
    /// The device list was empty: the proc file could not be read as a list.
    ParseFailed,
    /// No touchpad, and this was the last attempt (or no attempt was left).
    NotFound,
    /// No touchpad yet, or one whose bus is not resolved yet: wait the retry
    /// delay, then try again with this many attempts left.
    Retry { remaining: u32 },
}

/// Whether a device name is that of a supported touchpad.
pub fn is_touchpad(name: &str) -> (b: bool)
    ensures
        b == is_touchpad_name(name@),
{
    let n = chars_of(name);
    (starts_with(&n, &chars_of("ASUE")) || starts_with(&n, &chars_of("ELAN"))) && contains(
        &n,
        &chars_of("Touchpad"),
    )
}

/// One attempt of the touchpad search, with `remaining` attempts left
/// (this one included) and the devices that this attempt read. With no
/// attempt left the search has failed.
pub fn detect_step(remaining: u32, devices: &Vec<ProcDevice>) -> (r: DetectStep)
    ensures
        remaining == 0 ==> r is NotFound,
        remaining > 0 && devices@.len() == 0 ==> r is ParseFailed,
        remaining > 0 && devices@.len() > 0 ==> match first_touchpad(device_views(devices@), 0) {
            Some(i) => if devices@[i].bus == -1 {
                if remaining == 1 {
                    r is BusUnresolved
                } else {
                    r == DetectStep::Retry { remaining: (remaining - 1) as u32 }
                }
            } else {
                r matches DetectStep::Found(d) && d@ == devices@[i]@
            },
            None => if remaining == 1 {
                r is NotFound
            } else {
                r == DetectStep::Retry { remaining: (remaining - 1) as u32 }
            },
        },
{
    if remaining == 0 {
        return DetectStep::NotFound;
    }
    let n: usize = devices.len();
    if n == 0 {
        return DetectStep::ParseFailed;
    }
    let ghost views = device_views(devices@);
    let mut i: usize = 0;
    while i < n
        invariant
            n == devices@.len(),
            remaining > 0,
            views == device_views(devices@),
            i <= n,
            first_touchpad(views, 0) == first_touchpad(views, i as int),
        decreases n - i,
    {
        assert(views[i as int] == devices@[i as int]@);
        if is_touchpad(devices[i].name.as_str()) {
            if devices[i].bus == -1 {
                if remaining == 1 {
                    return DetectStep::BusUnresolved;
                }
                return DetectStep::Retry { remaining: remaining - 1 };
            }
            return DetectStep::Found(devices[i].clone());
        }
        i = i + 1;
    }
    if remaining == 1 {
        DetectStep::NotFound
    } else {
        DetectStep::Retry { remaining: remaining - 1 }
    }
}

/// Reader and parser for the Linux `/proc/bus/input/devices` file.
pub struct Proc {
    /// Path to the proc file. Defaults to `/proc/bus/input/devices`.
    path: String,
}

impl View for Proc {
    type V = Seq<char>;

    closed spec fn view(&self) -> Seq<char> {
        self.path@
    }
}

impl Proc {
    /// Creates a new `Proc` instance pointing to `/proc/bus/input/devices`.
    pub fn new() -> (p: Self)
        ensures
            p@ == "/proc/bus/input/devices"@,
    {
        Proc { path: String::from_str("/proc/bus/input/devices") }
    }

    /// Returns the path to the proc file used by this instance.
    pub fn get_path(&self) -> (r: &str)
        ensures
            r@ == self@,
    {
        self.path.as_str()
    }

    /// Parses the text of `/proc/bus/input/devices` and returns the devices it
    /// lists, in order.
    ///
    /// The text is made up of blank-line-separated blocks, one per device.
    /// Each trimmed block is read line by line according to its prefix:
    /// `N:` (name, quotes stripped), `S:` (bus number from the `Sysfs=` path),
    /// `H:` (first `event*` handler). Blocks with an empty name are skipped.
    pub fn parse(&self, content: &str) -> (r: Vec<ProcDevice>)
        ensures
            device_views(r@) == parse_devices(content@),
    {
        let pattern = BusIdPattern::new();
        let text = chars_of(content);
        proof {
            reveal_strlit("\n\n");
        }
        let blocks = split(&text, &chars_of("\n\n"));
        let mut devices: Vec<ProcDevice> = Vec::new();
        let n: usize = blocks.len();
        assert(texts(blocks@).take(0) =~= Seq::<Seq<char>>::empty());
        assert(device_views(devices@) =~= Seq::<DeviceFields>::empty());
        for i in 0..n
            invariant
                n == blocks@.len(),
                device_views(devices@) == parse_blocks(texts(blocks@).take(i as int)),
        {
            assert(texts(blocks@).take(i + 1).drop_last() =~= texts(blocks@).take(i as int));
            assert(texts(blocks@).take(i + 1).last() == blocks@[i as int]@);
            let d = read_block(&pattern, &blocks[i]);
            if d.name.len() > 0 {
                let ghost before = device_views(devices@);
                let dev = ProcDevice {
                    bus: d.bus,
                    name: string_of(d.name.as_slice()),
                    event: string_of(d.event.as_slice()),
                };
                devices.push(dev);
                assert(device_views(devices@) =~= before.push(d.fields()));
            }
        }
        assert(texts(blocks@).take(n as int) =~= texts(blocks@));
        devices
    }
}

} // verus!
