//! Capture devices: the entries shown for them, and the device that a
//! selector names.
//!
//! The platform reports its endpoints as `EndpointInfo` values; the rules
//! here number them, name them and write the entry of each. The number of a
//! device is its place among the endpoints that the platform counts, whether
//! or not each of them could be handed out. An entry starts with the index of
//! the device and a colon, and a selector is read back by that index.

use vstd::prelude::*;
use vstd::string::StringExecFns;
use crate::error::CaptureError;
use crate::utils::text::{
    char_is_whitespace, chars_of, decimal, decimal_string, is_digit, leading_whitespace,
    lemma_decimal_reads_back, lemma_digits_parse, lemma_length_before_prefix, length_before,
    parse_index, parsed_index, trailing_whitespace, trimmed,
};

verus! {

/// What a device captures.
#[derive(Debug, Clone, Copy, PartialEq, Eq, Structural)]
pub enum DeviceKind {
    /// What is played on an output device.
    OutputLoopback,
    /// A microphone.
    Input,
}

/// A device that can be captured from. Index 0 is the system default.
#[derive(Debug, Clone)]
pub struct CaptureDevice {
    pub index: usize,
    pub label: String,
    pub kind: DeviceKind,
}

/// What the platform reports of one endpoint.
#[derive(Debug, Clone)]
pub struct EndpointInfo {
    /// The description meant for people.
    pub description: Option<String>,
    /// The name that the platform knows the endpoint by.
    pub name: Option<String>,
    /// The endpoint is the monitor of an output, not a microphone.
    pub is_monitor: bool,
    /// The platform counted the endpoint but could not hand it out: it keeps
    /// its number and is not listed.
    pub unavailable: bool,
}

/// The endpoints that the platform reports: outputs and sources.
#[derive(Debug, Clone)]
pub struct Enumeration {
    pub sinks: Vec<EndpointInfo>,
    pub sources: Vec<EndpointInfo>,
}

/// The role that the entry of a device shows.
pub open spec fn role_of(kind: DeviceKind, index: nat) -> Seq<char> {
    match kind {
        DeviceKind::OutputLoopback => if index == 0 {
            "Default Speaker"@
        } else {
            "Speaker"@
        },
        DeviceKind::Input => "Microphone"@,
    }
}

/// The word that stands for a device of a kind that has no name.
pub open spec fn word_of(kind: DeviceKind) -> Seq<char> {
    match kind {
        DeviceKind::OutputLoopback => "Speaker"@,
        DeviceKind::Input => "Microphone"@,
    }
}

/// The label of an endpoint: its description, else its name, else the word
/// of its kind and its index.
pub open spec fn label_of(info: EndpointInfo, kind: DeviceKind, index: nat) -> Seq<char> {
    match info.description {
        Some(description) => description@,
        None => match info.name {
            Some(name) => name@,
            None => word_of(kind) + " "@ + decimal(index),
        },
    }
}

/// An entry without a role: the index, a colon, a space, the label.
pub open spec fn short_entry(index: nat, label: Seq<char>) -> Seq<char> {
    decimal(index) + ": "@ + label
}

/// An entry with a role: the index, a colon, a space, the label, and the
/// role in round brackets.
pub open spec fn full_entry(index: nat, label: Seq<char>, role: Seq<char>) -> Seq<char> {
    short_entry(index, label) + " ("@ + role + ")"@
}

/// The endpoint takes a number among the devices of a kind: every output
/// does, and every source that is no monitor.
pub open spec fn takes_number(info: EndpointInfo, kind: DeviceKind) -> bool {
    kind == DeviceKind::OutputLoopback || !info.is_monitor
}

/// The number of endpoints among `infos` that take a number.
pub open spec fn numbers_taken(infos: Seq<EndpointInfo>, kind: DeviceKind) -> nat
    decreases infos.len(),
{
    if infos.len() == 0 {
        0
    } else if takes_number(infos.last(), kind) {
        numbers_taken(infos.drop_last(), kind) + 1
    } else {
        numbers_taken(infos.drop_last(), kind)
    }
}

/// The endpoint is listed under `number`: it takes a number, the platform
/// could hand it out, and the number is one that an index can hold.
pub open spec fn is_listed(info: EndpointInfo, kind: DeviceKind, number: nat) -> bool {
    takes_number(info, kind) && !info.unavailable && number <= usize::MAX
}

/// The devices of a kind among `infos`, numbered from `first` on in the
/// order of the endpoints. An endpoint that the platform could not hand out
/// keeps its number, so that the number of a device is its place among the
/// endpoints that the platform counts.
pub open spec fn devices_among(infos: Seq<EndpointInfo>, kind: DeviceKind, first: nat) -> Seq<
    (nat, Seq<char>, DeviceKind),
>
    decreases infos.len(),
{
    if infos.len() == 0 {
        Seq::empty()
    } else {
        let before = devices_among(infos.drop_last(), kind, first);
        let number = first + numbers_taken(infos.drop_last(), kind);
        if is_listed(infos.last(), kind, number) {
            before.push((number, label_of(infos.last(), kind, number), kind))
        } else {
            before
        }
    }
}

/// The devices that an enumeration gives: the default output as number 0,
/// the outputs from number 1 on, then the sources that are no monitors.
pub open spec fn devices_of(
    default_label: Seq<char>,
    sinks: Seq<EndpointInfo>,
    sources: Seq<EndpointInfo>,
) -> Seq<(nat, Seq<char>, DeviceKind)> {
    seq![(0nat, default_label, DeviceKind::OutputLoopback)] + devices_among(
        sinks,
        DeviceKind::OutputLoopback,
        1,
    ) + devices_among(
        sources,
        DeviceKind::Input,
        1 + numbers_taken(sinks, DeviceKind::OutputLoopback),
    )
}

/// The index, label and kind of each device of a list.
pub open spec fn described(devices: Seq<CaptureDevice>) -> Seq<(nat, Seq<char>, DeviceKind)> {
    Seq::new(devices.len(), |i: int| (devices[i].index as nat, devices[i].label@, devices[i].kind))
}

/// The characters of each string of a list.
pub open spec fn texts_of(entries: Seq<String>) -> Seq<Seq<char>> {
    Seq::new(entries.len(), |i: int| entries[i]@)
}

impl EndpointInfo {
    /// The label of the endpoint as a device of the given kind and index.
    pub fn label(&self, kind: DeviceKind, index: usize) -> (label: String)
        ensures
            label@ == label_of(*self, kind, index as nat),
    {
        match &self.description {
            Some(description) => description.clone(),
            None => match &self.name {
                Some(name) => name.clone(),
                None => {
                    let word = match kind {
                        DeviceKind::OutputLoopback => "Speaker",
                        DeviceKind::Input => "Microphone",
                    };
                    word.to_owned().concat(" ").concat(decimal_string(index as u64).as_str())
                },
            },
        }
    }
}

impl CaptureDevice {
    /// The role that the entry of the device shows.
    pub fn role(&self) -> (role: &'static str)
        ensures
            role@ == role_of(self.kind, self.index as nat),
    {
        match self.kind {
            DeviceKind::OutputLoopback => if self.index == 0 {
                "Default Speaker"
            } else {
                "Speaker"
            },
            DeviceKind::Input => "Microphone",
        }
    }

    /// The entry of the device: `<index>: <label> (<role>)`.
    pub fn entry(&self) -> (entry: String)
        ensures
            entry@ == full_entry(
                self.index as nat,
                self.label@,
                role_of(self.kind, self.index as nat),
            ),
    {
        decimal_string(self.index as u64).concat(": ").concat(self.label.as_str()).concat(
            " (",
        ).concat(self.role()).concat(")")
    }

    /// The entry of the device without its role: `<index>: <label>`.
    pub fn short_entry(&self) -> (entry: String)
        ensures
            entry@ == short_entry(self.index as nat, self.label@),
    {
        decimal_string(self.index as u64).concat(": ").concat(self.label.as_str())
    }
}

/// The devices of a kind among `infos`, numbered from `first` on, and the
/// number that follows the last one taken.
pub fn number_devices(infos: &Vec<EndpointInfo>, kind: DeviceKind, first: u128) -> (r: (
    Vec<CaptureDevice>,
    u128,
))
    requires
        first <= usize::MAX + 1,
    ensures
        described(r.0@) == devices_among(infos@, kind, first as nat),
        r.1 == first + numbers_taken(infos@, kind),
        r.1 <= first + infos.len(),
{
    let mut devices: Vec<CaptureDevice> = Vec::new();
    let mut number: u128 = first;
    let mut i: usize = 0;
    proof {
        assert(infos@.take(0).len() == 0);
        assert(described(devices@) =~= devices_among(infos@.take(0), kind, first as nat));
    }
    while i < infos.len()
        invariant
            i <= infos.len(),
            first <= usize::MAX + 1,
            number == first + numbers_taken(infos@.take(i as int), kind),
            number <= first + i,
            described(devices@) == devices_among(infos@.take(i as int), kind, first as nat),
        decreases infos.len() - i,
    {
        proof {
            let next = infos@.take(i + 1);
            assert(next.drop_last() =~= infos@.take(i as int));
            assert(next.last() == infos@[i as int]);
        }
        let info = &infos[i];
        let takes = match kind {
            DeviceKind::OutputLoopback => true,
            DeviceKind::Input => !info.is_monitor,
        };
        if takes {
            if !info.unavailable && number <= usize::MAX as u128 {
                let index = number as usize;
                let label = info.label(kind, index);
                let ghost before = described(devices@);
                devices.push(CaptureDevice { index, label, kind });
                proof {
                    assert(described(devices@) =~= before.push(
                        (number as nat, label_of(infos@[i as int], kind, number as nat), kind),
                    ));
                }
            }
            number = number + 1;
        }
        i = i + 1;
    }
    proof {
        assert(infos@.take(infos.len() as int) =~= infos@);
    }
    (devices, number)
}

/// The devices that an enumeration gives, the default output first.
pub fn enumerate_devices(default_label: &str, enumeration: &Enumeration) -> (devices: Vec<
    CaptureDevice,
>)
    ensures
        described(devices@) == devices_of(
            default_label@,
            enumeration.sinks@,
            enumeration.sources@,
        ),
        devices.len() >= 1,
        devices[0].index == 0,
        devices[0].label@ == default_label@,
        devices[0].kind == DeviceKind::OutputLoopback,
{
    let mut devices: Vec<CaptureDevice> = Vec::new();
    devices.push(
        CaptureDevice { index: 0, label: default_label.to_owned(), kind: DeviceKind::OutputLoopback },
    );
    let ghost first = described(devices@);
    let (mut outputs, next) = number_devices(&enumeration.sinks, DeviceKind::OutputLoopback, 1);
    let ghost listed_outputs = described(outputs@);
    devices.append(&mut outputs);
    let ghost with_outputs = described(devices@);
    let (mut inputs, _) = number_devices(&enumeration.sources, DeviceKind::Input, next);
    let ghost listed_inputs = described(inputs@);
    devices.append(&mut inputs);
    proof {
        assert(first =~= seq![(0nat, default_label@, DeviceKind::OutputLoopback)]);
        assert(with_outputs =~= first + listed_outputs);
        assert(described(devices@) =~= with_outputs + listed_inputs);
    }
    devices
}

/// The entries of a list of devices, each with its role.
pub open spec fn entries_of(devices: Seq<(nat, Seq<char>, DeviceKind)>) -> Seq<Seq<char>> {
    Seq::new(
        devices.len(),
        |i: int| full_entry(devices[i].0, devices[i].1, role_of(devices[i].2, devices[i].0)),
    )
}

/// The entries of a list of devices, without roles.
pub open spec fn short_entries_of(devices: Seq<(nat, Seq<char>, DeviceKind)>) -> Seq<Seq<char>> {
    Seq::new(devices.len(), |i: int| short_entry(devices[i].0, devices[i].1))
}

/// The entries of all devices: those of the enumeration, or the default
/// device alone where the enumeration failed.
pub open spec fn device_entries(
    default_label: Seq<char>,
    enumeration: Result<Enumeration, CaptureError>,
) -> Seq<Seq<char>> {
    match enumeration {
        Ok(found) => entries_of(devices_of(default_label, found.sinks@, found.sources@)),
        Err(_) => seq![full_entry(0, default_label, "Default Speaker"@)],
    }
}

/// The entries of the outputs, without roles: `default_entry`, then the
/// sinks from number 1 on.
pub open spec fn speaker_entries(default_entry: Seq<char>, sinks: Seq<EndpointInfo>) -> Seq<
    Seq<char>,
> {
    seq![default_entry] + short_entries_of(devices_among(sinks, DeviceKind::OutputLoopback, 1))
}

/// The entries of the microphones, without roles: the sources that are no
/// monitors, from number 0 on.
pub open spec fn microphone_entries(sources: Seq<EndpointInfo>) -> Seq<Seq<char>> {
    short_entries_of(devices_among(sources, DeviceKind::Input, 0))
}

/// The entry of each device of a list, with its role or without.
pub fn entries_for(devices: &Vec<CaptureDevice>, with_role: bool) -> (entries: Vec<String>)
    ensures
        texts_of(entries@) == (if with_role {
            entries_of(described(devices@))
        } else {
            short_entries_of(described(devices@))
        }),
{
    let mut entries: Vec<String> = Vec::new();
    let mut i: usize = 0;
    while i < devices.len()
        invariant
            i <= devices.len(),
            entries.len() == i,
            forall|k: int|
                0 <= k < i ==> (#[trigger] entries[k])@ == (if with_role {
                    full_entry(
                        devices[k].index as nat,
                        devices[k].label@,
                        role_of(devices[k].kind, devices[k].index as nat),
                    )
                } else {
                    short_entry(devices[k].index as nat, devices[k].label@)
                }),
        decreases devices.len() - i,
    {
        let entry = if with_role {
            devices[i].entry()
        } else {
            devices[i].short_entry()
        };
        entries.push(entry);
        i = i + 1;
    }
    proof {
        if with_role {
            assert(texts_of(entries@) =~= entries_of(described(devices@)));
        } else {
            assert(texts_of(entries@) =~= short_entries_of(described(devices@)));
        }
    }
    entries
}

/// The entry of every device, each as `<index>: <label> (<role>)`. The list
/// always starts with the default device, number 0: where the enumeration
/// failed, that entry is the whole list.
pub fn list_devices(default_label: &str, enumeration: Result<Enumeration, CaptureError>) -> (entries:
    Vec<String>)
    ensures
        texts_of(entries@) == device_entries(default_label@, enumeration),
        entries.len() >= 1,
        entries[0]@ == full_entry(0, default_label@, "Default Speaker"@),
{
    match enumeration {
        Ok(found) => {
            let devices = enumerate_devices(default_label, &found);
            let entries = entries_for(&devices, true);
            proof {
                let listed = entries_of(described(devices@));
                assert(texts_of(entries@).len() == listed.len());
                assert(texts_of(entries@)[0] == listed[0]);
            }
            entries
        },
        Err(_) => {
            let placeholder = CaptureDevice {
                index: 0,
                label: default_label.to_owned(),
                kind: DeviceKind::OutputLoopback,
            };
            let mut entries: Vec<String> = Vec::new();
            entries.push(placeholder.entry());
            proof {
                assert(texts_of(entries@) =~= seq![
                    full_entry(0, default_label@, "Default Speaker"@),
                ]);
            }
            entries
        },
    }
}

/// The entries of the outputs, each as `<index>: <label>`, after
/// `default_entry` for the default device. A failed enumeration is handed
/// on.
pub fn list_speaker_devices(default_entry: &str, enumeration: Result<Enumeration, CaptureError>) -> (r:
    Result<Vec<String>, CaptureError>)
    ensures
        match enumeration {
            Ok(found) => r is Ok && texts_of(r->Ok_0@) == speaker_entries(
                default_entry@,
                found.sinks@,
            ),
            Err(e) => r == Err::<Vec<String>, CaptureError>(e),
        },
{
    match enumeration {
        Ok(found) => {
            let (outputs, _) = number_devices(&found.sinks, DeviceKind::OutputLoopback, 1);
            let mut listed = entries_for(&outputs, false);
            let ghost rest = texts_of(listed@);
            let mut entries: Vec<String> = Vec::new();
            entries.push(default_entry.to_owned());
            entries.append(&mut listed);
            proof {
                assert(texts_of(entries@) =~= seq![default_entry@] + rest);
            }
            Ok(entries)
        },
        Err(e) => Err(e),
    }
}

/// The entries of the microphones, each as `<index>: <label>`, numbered
/// from 0. Monitors of outputs are left out. A failed enumeration is handed
/// on.
pub fn list_microphone_devices(enumeration: Result<Enumeration, CaptureError>) -> (r: Result<
    Vec<String>,
    CaptureError,
>)
    ensures
        match enumeration {
            Ok(found) => r is Ok && texts_of(r->Ok_0@) == microphone_entries(found.sources@),
            Err(e) => r == Err::<Vec<String>, CaptureError>(e),
        },
{
    match enumeration {
        Ok(found) => {
            let (inputs, _) = number_devices(&found.sources, DeviceKind::Input, 0);
            Ok(entries_for(&inputs, false))
        },
        Err(e) => Err(e),
    }
}

/// The index that a selector names: the number before its first colon,
/// white space around it set aside. A selector without such a number, and no
/// selector, name the default device, number 0.
pub open spec fn selected_index(selector: Option<String>) -> usize {
    match selector {
        Some(text) => match parsed_index(trimmed(text@.take(length_before(text@, ':') as int))) {
            Some(index) => index,
            None => 0,
        },
        None => 0,
    }
}

/// An entry selects its device: a selector that starts as an entry does,
/// with the index and a colon, names that index.
pub proof fn lemma_entry_selects_its_device(index: usize, rest: Seq<char>, selector: String)
    requires
        selector@ == decimal(index as nat) + ":"@ + rest,
    ensures
        selected_index(Some(selector)) == index,
{
    let digits = decimal(index as nat);
    reveal_strlit(":");
    let tail = ":"@ + rest;
    assert(tail[0] == ':');
    assert(selector@ =~= digits + tail);
    lemma_decimal_reads_back(index as nat);
    assert forall|k: int| 0 <= k < digits.len() implies #[trigger] digits[k] != ':' by {
        assert(is_digit(digits[k]));
    }
    lemma_length_before_prefix(digits, tail, ':');
    assert(selector@.take(digits.len() as int) =~= digits);
    lemma_digits_parse(digits);
}

/// The entries of `CaptureDevice::entry` and `CaptureDevice::short_entry`
/// select their device.
pub proof fn lemma_listed_entry_selects_its_device(
    index: usize,
    label: Seq<char>,
    role: Seq<char>,
    full: String,
    short: String,
)
    requires
        full@ == full_entry(index as nat, label, role),
        short@ == short_entry(index as nat, label),
    ensures
        selected_index(Some(full)) == index,
        selected_index(Some(short)) == index,
{
    reveal_strlit(": ");
    reveal_strlit(":");
    reveal_strlit(" ");
    let digits = decimal(index as nat);
    assert(": "@ =~= ":"@ + " "@);
    assert(short@ =~= digits + ":"@ + (" "@ + label));
    assert(full@ =~= digits + ":"@ + (" "@ + label + " ("@ + role + ")"@));
    lemma_entry_selects_its_device(index, " "@ + label, short);
    lemma_entry_selects_its_device(index, " "@ + label + " ("@ + role + ")"@, full);
}

/// The index of the device that a selector names.
pub fn resolve_device_index(selector: &Option<String>) -> (index: usize)
    ensures
        index == selected_index(*selector),
{
    match selector {
        None => 0,
        Some(text) => {
            let chars = chars_of(text.as_str());
            let ghost s = chars@;
            let mut k: usize = 0;
            proof {
                assert(s.skip(0) =~= s);
            }
            while k < chars.len() && chars[k] != ':'
                invariant
                    k <= chars.len(),
                    s == chars@,
                    length_before(s, ':') == k + length_before(s.skip(k as int), ':'),
                decreases chars.len() - k,
            {
                proof {
                    assert(s.skip(k as int).drop_first() =~= s.skip(k + 1));
                }
                k = k + 1;
            }
            let ghost prefix = s.take(k as int);
            proof {
                assert(length_before(s.skip(k as int), ':') == 0);
                assert(prefix.skip(0) =~= prefix);
            }
            let mut a: usize = 0;
            while a < k && char_is_whitespace(chars[a])
                invariant
                    a <= k <= chars.len(),
                    s == chars@,
                    prefix == s.take(k as int),
                    leading_whitespace(prefix) == a + leading_whitespace(prefix.skip(a as int)),
                decreases k - a,
            {
                proof {
                    assert(prefix.skip(a as int).drop_first() =~= prefix.skip(a + 1));
                }
                a = a + 1;
            }
            let ghost rest = prefix.skip(a as int);
            proof {
                assert(leading_whitespace(rest) == 0);
                assert(rest.take(k - a) =~= rest);
            }
            let mut e: usize = k;
            while e > a && char_is_whitespace(chars[e - 1])
                invariant
                    a <= e <= k <= chars.len(),
                    s == chars@,
                    prefix == s.take(k as int),
                    rest == prefix.skip(a as int),
                    trailing_whitespace(rest) == (k - e) + trailing_whitespace(rest.take(e - a)),
                decreases e,
            {
                proof {
                    assert(rest.take(e - a).drop_last() =~= rest.take(e - a - 1));
                    assert(rest.take(e - a).last() == chars@[e - 1]);
                }
                e = e - 1;
            }
            proof {
                let kept = rest.take(e - a);
                if e > a {
                    assert(kept.last() == chars@[e - 1]);
                }
                assert(trailing_whitespace(kept) == 0);
                assert(trimmed(prefix) =~= kept);
                assert(kept =~= chars@.subrange(a as int, e as int));
            }
            match parse_index(&chars, a, e) {
                Some(index) => index,
                None => 0,
            }
        },
    }
}

} // verus!
