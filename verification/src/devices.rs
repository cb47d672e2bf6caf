//! Device enumeration: which of the host's endpoints are ordinary inputs and
//! which are monitor sources that carry the system's own output.

use vstd::prelude::*;
use vstd::string::StringExecFns;
use crate::text::{contains_token, has_token};

verus! {

/// The direction an endpoint is offered under.
#[derive(Clone, Copy, Debug, PartialEq, Eq, Structural)]
pub enum DeviceType {
    /// Something that records: a microphone, a line input.
    Input,
    /// A source of the audio that the system is playing.
    Output,
}

/// An addressable audio endpoint.
#[derive(Clone, Debug, PartialEq, Eq)]
pub struct AudioDevice {
    pub name: String,
    pub device_type: DeviceType,
}

/// What an `AudioDevice` stands for in contracts.
pub struct AudioDeviceView {
    pub name: Seq<char>,
    pub device_type: DeviceType,
}

impl View for AudioDevice {
    type V = AudioDeviceView;

    open spec fn view(&self) -> AudioDeviceView {
        AudioDeviceView { name: self.name@, device_type: self.device_type }
    }
}

impl AudioDevice {
    pub fn new(name: String, device_type: DeviceType) -> (device: AudioDevice)
        ensures
            device@ == (AudioDeviceView { name: name@, device_type }),
    {
        AudioDevice { name, device_type }
    }
}

/// The answer of the host audio subsystem when asked for its devices in one
/// direction.
#[derive(Clone, Debug, PartialEq, Eq)]
pub enum DeviceQuery {
    /// The subsystem could not be reached. The text is its own account of why.
    Failed(String),
    /// The devices in the order the host gave them. A device that would not
    /// tell its name is `None`.
    Found(Vec<Option<String>>),
}

impl DeviceQuery {
    /// The devices found, each with its name if it gave one; none where the
    /// subsystem could not be reached.
    pub open spec fn found(&self) -> Seq<Option<Seq<char>>> {
        match self {
            DeviceQuery::Failed(_) => Seq::empty(),
            DeviceQuery::Found(devices) => devices.deep_view(),
        }
    }
}

/// A name marks a monitor source when it holds `monitor` in any letter case.
pub open spec fn is_monitor_name(name: Seq<char>) -> bool {
    contains_token(name, "monitor"@)
}

/// The label a monitor source is listed under.
pub open spec fn monitor_label(name: Seq<char>) -> Seq<char> {
    if contains_token(name, "analog"@) {
        "Built-in Audio (System Audio)"@
    } else {
        name + " (System Audio)"@
    }
}

/// The ordinary input that an enumerated device gives, if it gives one.
pub open spec fn regular_input(device: Option<Seq<char>>) -> Option<AudioDeviceView> {
    match device {
        Some(name) if !is_monitor_name(name) => Some(
            AudioDeviceView { name, device_type: DeviceType::Input },
        ),
        _ => None,
    }
}

/// The system-audio source that an enumerated device gives, if it gives one.
pub open spec fn monitor_source(device: Option<Seq<char>>) -> Option<AudioDeviceView> {
    match device {
        Some(name) if is_monitor_name(name) => Some(
            AudioDeviceView { name: monitor_label(name), device_type: DeviceType::Output },
        ),
        _ => None,
    }
}

/// The ordinary inputs among `found`, in the order found.
pub open spec fn regular_inputs(found: Seq<Option<Seq<char>>>) -> Seq<AudioDeviceView> {
    found.filter_map(|d: Option<Seq<char>>| regular_input(d))
}

/// The system-audio sources among `found`, in the order found.
pub open spec fn monitor_sources(found: Seq<Option<Seq<char>>>) -> Seq<AudioDeviceView> {
    found.filter_map(|d: Option<Seq<char>>| monitor_source(d))
}

/// The device list for a set of enumerated inputs: every ordinary input, then
/// every system-audio source.
pub open spec fn configured_devices(found: Seq<Option<Seq<char>>>) -> Seq<AudioDeviceView> {
    regular_inputs(found) + monitor_sources(found)
}

/// The views of a list of devices.
pub open spec fn device_views(devices: Seq<AudioDevice>) -> Seq<AudioDeviceView> {
    devices.map_values(|d: AudioDevice| d@)
}

/// Whether `name` marks a monitor source.
pub fn is_monitor(name: &str) -> (yes: bool)
    ensures
        yes == is_monitor_name(name@),
{
    has_token(name, "monitor")
}

/// The label under which the monitor source `name` is listed.
pub fn label_monitor(name: &str) -> (label: String)
    ensures
        label@ == monitor_label(name@),
{
    if has_token(name, "analog") {
        String::from_str("Built-in Audio (System Audio)")
    } else {
        String::from_str(name).concat(" (System Audio)")
    }
}

/// Sorts the host's input devices into ordinary inputs and system-audio
/// sources.
///
/// A failed enumeration gives an empty list, and a device without a name is
/// passed over.
pub fn configure_linux_audio(inputs: &DeviceQuery) -> (devices: Vec<AudioDevice>)
    ensures
        device_views(devices@) == configured_devices(inputs.found()),
{
    let mut devices: Vec<AudioDevice> = Vec::new();
    let mut monitors: Vec<AudioDevice> = Vec::new();
    match inputs {
        DeviceQuery::Failed(_) => {
            assert(device_views(devices@) =~= configured_devices(inputs.found()));
        },
        DeviceQuery::Found(found) => {
            let ghost all = found.deep_view();
            let mut i: usize = 0;
            while i < found.len()
                invariant
                    i <= found.len(),
                    all == found.deep_view(),
                    device_views(devices@) == regular_inputs(all.take(i as int)),
                    device_views(monitors@) == monitor_sources(all.take(i as int)),
                decreases found.len() - i,
            {
                proof {
                    all.lemma_filter_map_take_succ(|d: Option<Seq<char>>| regular_input(d), i as int);
                    all.lemma_filter_map_take_succ(|d: Option<Seq<char>>| monitor_source(d), i as int);
                }
                match &found[i] {
                    Some(name) => {
                        assert(all[i as int] == Some(name@));
                        if is_monitor(name.as_str()) {
                            let label = label_monitor(name.as_str());
                            let ghost before = monitors@;
                            monitors.push(AudioDevice::new(label, DeviceType::Output));
                            assert(device_views(monitors@) =~= device_views(before).push(
                                monitors@.last()@,
                            ));
                        } else {
                            let ghost before = devices@;
                            devices.push(AudioDevice::new(name.clone(), DeviceType::Input));
                            assert(device_views(devices@) =~= device_views(before).push(
                                devices@.last()@,
                            ));
                        }
                    },
                    None => {
                        assert(all[i as int] == None::<Seq<char>>);
                    },
                }
                i += 1;
            }
            assert(all.take(found.len() as int) =~= all);
            let ghost regular = devices@;
            let ghost sources = monitors@;
            devices.append(&mut monitors);
            assert(device_views(devices@) =~= device_views(regular) + device_views(sources));
        },
    }
    devices
}

/// Every entry of `regular_inputs` is an input, and every entry of
/// `monitor_sources` is a system-audio source.
proof fn lemma_directions(found: Seq<Option<Seq<char>>>)
    ensures
        forall|i: int|
            0 <= i < regular_inputs(found).len() ==> (#[trigger] regular_inputs(
                found,
            )[i]).device_type == DeviceType::Input,
        forall|i: int|
            0 <= i < monitor_sources(found).len() ==> (#[trigger] monitor_sources(
                found,
            )[i]).device_type == DeviceType::Output,
    decreases found.len(),
{
    if found.len() > 0 {
        lemma_directions(found.drop_last());
    }
}

/// In a configured device list the ordinary inputs come first: once a
/// system-audio source has been listed, only system-audio sources follow.
pub proof fn lemma_inputs_before_sources(found: Seq<Option<Seq<char>>>, i: int, j: int)
    requires
        0 <= i <= j < configured_devices(found).len(),
        configured_devices(found)[i].device_type == DeviceType::Output,
    ensures
        configured_devices(found)[j].device_type == DeviceType::Output,
{
    lemma_directions(found);
}

/// A configured device list holds exactly one entry for each device that gave
/// a name: none is dropped and none is listed twice.
pub proof fn lemma_configured_count(found: Seq<Option<Seq<char>>>)
    ensures
        configured_devices(found).len() == found.filter(|d: Option<Seq<char>>| d is Some).len(),
    decreases found.len(),
{
    reveal(Seq::filter);
    if found.len() > 0 {
        lemma_configured_count(found.drop_last());
    }
}

} // verus!
