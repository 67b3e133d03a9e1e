//! The device's wire format: three-byte messages in, LED commands out.

use vstd::prelude::*;
use vstd::std_specs::convert::FromSpecImpl;

verus! {

/// Name under which this program registers with the MIDI subsystem.
pub const CLIENT_NAME: &'static str = "midi thing";

/// Port name that the device advertises.
pub const MIDI_NAME: &'static str = "Launchpad MK2:Launchpad MK2 MIDI 1 20:0";

/// Label of this program's own input port.
pub const IN_PORT_NAME: &'static str = "port_in_midi_thing";

/// Label of this program's own output port.
pub const OUT_PORT_NAME: &'static str = "port_out_midi_thing";

/// Status byte of the main grid, inbound and outbound.
pub const LED_SECTION: u8 = 0b10010000;

/// Status byte of the control row, inbound and outbound.
pub const CONTROL_SECTION: u8 = 176;

/// Largest value a MIDI data byte can carry.
pub const MAX_DATA_BYTE: u8 = 127;

/// The hues that an LED can show.
#[derive(Debug, Clone, Copy, PartialEq, Eq, Structural)]
pub enum Colors {
    Off,
    Green,
    Blue,
    Red,
    Purple,
}

/// The three levels at which an LED can show a hue.
#[derive(Debug, Clone, Copy, PartialEq, Eq, Structural)]
pub enum Brightness {
    Low,
    Medium,
    High,
}

/// Brightness tier of a magnitude on the 0 to 10 scale: up to 3 is low, from 7
/// on is high, between them medium. The scale is that of a tenth of a
/// percentage, not that of a colour code.
pub open spec fn brightness_tier(x: u8) -> Brightness {
    if x <= 3 {
        Brightness::Low
    } else if x >= 7 {
        Brightness::High
    } else {
        Brightness::Medium
    }
}

impl From<u8> for Brightness {
    fn from(x: u8) -> (tier: Brightness)
        ensures
            tier == brightness_tier(x),
    {
        if x <= 3 {
            return Brightness::Low;
        }
        if x >= 7 {
            return Brightness::High;
        }
        Brightness::Medium
    }
}

impl FromSpecImpl<u8> for Brightness {
    open spec fn obeys_from_spec() -> bool {
        true
    }

    open spec fn from_spec(x: u8) -> Brightness {
        brightness_tier(x)
    }
}

/// A hue at a brightness.
#[derive(Debug, Clone, Copy, PartialEq, Eq, Structural)]
pub struct Color {
    pub color: Colors,
    pub brightness: Brightness,
}

impl Color {
    pub fn new(color: Colors, brightness: Brightness) -> (made: Self)
        ensures
            made.color == color,
            made.brightness == brightness,
    {
        Color { color: color, brightness: brightness }
    }
}

/// The velocity byte that lights an LED in a hue at a brightness.
pub open spec fn color_code(color: Colors, brightness: Brightness) -> u8 {
    match color {
        Colors::Blue => match brightness {
            Brightness::High => 41,
            Brightness::Low => 42,
            Brightness::Medium => 40,
        },
        Colors::Green => match brightness {
            Brightness::High => 17,
            Brightness::Low => 16,
            Brightness::Medium => 18,
        },
        Colors::Off => 0,
        Colors::Purple => match brightness {
            Brightness::High => 49,
            Brightness::Low => 50,
            Brightness::Medium => 48,
        },
        Colors::Red => match brightness {
            Brightness::High => 5,
            Brightness::Low => 6,
            Brightness::Medium => 60,
        },
    }
}

impl From<Color> for u8 {
    fn from(color: Color) -> (code: u8)
        ensures
            code == color_code(color.color, color.brightness),
            code <= MAX_DATA_BYTE,
            color.color == Colors::Off ==> code == 0,
    {
        match color.color {
            Colors::Blue => match color.brightness {
                Brightness::High => 41,
                Brightness::Low => 42,
                Brightness::Medium => 40,
            },
            Colors::Green => match color.brightness {
                Brightness::High => 17,
                Brightness::Low => 16,
                Brightness::Medium => 18,
            },
            Colors::Off => match color.brightness {
                Brightness::High => 0,
                Brightness::Low => 0,
                Brightness::Medium => 0,
            },
            Colors::Purple => match color.brightness {
                Brightness::High => 49,
                Brightness::Low => 50,
                Brightness::Medium => 48,
            },
            Colors::Red => match color.brightness {
                Brightness::High => 5,
                Brightness::Low => 6,
                Brightness::Medium => 60,
            },
        }
    }
}

impl FromSpecImpl<Color> for u8 {
    open spec fn obeys_from_spec() -> bool {
        true
    }

    open spec fn from_spec(color: Color) -> u8 {
        color_code(color.color, color.brightness)
    }
}

/// Every hue at every brightness has a code that fits a data byte, and the
/// code of `Off` is 0 whatever the brightness.
pub proof fn lemma_color_code_total(color: Colors, brightness: Brightness)
    ensures
        color_code(color, brightness) <= MAX_DATA_BYTE,
        color == Colors::Off ==> color_code(color, brightness) == 0,
        color != Colors::Off ==> color_code(color, brightness) != 0,
{
}

/// A command for one LED, of the control row or of the main grid, by its
/// key.
#[allow(non_camel_case_types)]
#[derive(Debug, Clone, Copy, PartialEq, Eq, Structural)]
pub enum MidiControlMessage {
    CONTROL_LED_ON(u8, Color),
    CONTROL_LED_OFF(u8),
    LED_ON(u8, Color),
    LED_OFF(u8),
}

impl MidiControlMessage {
    /// The three bytes that go to the device: the section's status byte, the
    /// key, and the colour code, which is 0 for a command that switches off.
    pub open spec fn wire(self) -> Seq<u8> {
        match self {
            MidiControlMessage::CONTROL_LED_OFF(note) => seq![CONTROL_SECTION, note, 0u8],
            MidiControlMessage::CONTROL_LED_ON(note, color) => seq![
                CONTROL_SECTION,
                note,
                color_code(color.color, color.brightness),
            ],
            MidiControlMessage::LED_ON(note, color) => seq![
                LED_SECTION,
                note,
                color_code(color.color, color.brightness),
            ],
            MidiControlMessage::LED_OFF(note) => seq![LED_SECTION, note, 0u8],
        }
    }

    /// Encodes the command for the output connection.
    pub fn to_bytes(&self) -> (bytes: [u8; 3])
        ensures
            bytes@ == self.wire(),
    {
        let bytes: [u8; 3] = match *self {
            MidiControlMessage::CONTROL_LED_OFF(note) => [CONTROL_SECTION, note, 0],
            MidiControlMessage::CONTROL_LED_ON(note, color) => [
                CONTROL_SECTION,
                note,
                u8::from(color),
            ],
            MidiControlMessage::LED_ON(note, color) => [LED_SECTION, note, u8::from(color)],
            MidiControlMessage::LED_OFF(note) => [LED_SECTION, note, 0],
        };
        assert(bytes@ =~= self.wire());
        bytes
    }
}

/// A message from the device: its time on the device's clock and its three
/// bytes, which are status, key and velocity.
#[derive(Debug, Clone, Copy)]
pub struct MidiIncomingMessage {
    pub time: u64,
    pub data: [u8; 3],
}

/// Velocity of a message that reports a button going up.
pub const BUTTON_UP_VELOCITY: u8 = 0;

/// The zone of buttons that a message comes from, by its status byte.
#[derive(Debug, Clone, Copy, PartialEq, Eq, Structural)]
pub enum Section {
    Control,
    Main,
    /// A status byte of neither zone.
    Other,
}

/// What a message is, before anything asks whether its key is bound.
#[derive(Debug, Clone, Copy, PartialEq, Eq, Structural)]
pub enum Classification {
    /// A button went up: nothing acts on it.
    Ignored,
    /// A button went down.
    Classified { section: Section, key: u8 },
}

/// The zone that a status byte names.
pub open spec fn section_of(status: u8) -> Section {
    if status == CONTROL_SECTION {
        Section::Control
    } else if status == LED_SECTION {
        Section::Main
    } else {
        Section::Other
    }
}

/// The classification of a message by its three bytes: ignored exactly when
/// the velocity is 0, whatever the zone.
pub open spec fn classification_of(data: Seq<u8>) -> Classification {
    if data[2] == BUTTON_UP_VELOCITY {
        Classification::Ignored
    } else {
        Classification::Classified { section: section_of(data[0]), key: data[1] }
    }
}

/// Separates zone, key and press from release.
pub fn classify(message: &MidiIncomingMessage) -> (class: Classification)
    ensures
        class == classification_of(message.data@),
        class is Ignored <==> message.data[2] == BUTTON_UP_VELOCITY,
{
    if message.data[2] == BUTTON_UP_VELOCITY {
        return Classification::Ignored;
    }
    let status: u8 = message.data[0];
    let section = if status == CONTROL_SECTION {
        Section::Control
    } else if status == LED_SECTION {
        Section::Main
    } else {
        Section::Other
    };
    Classification::Classified { section, key: message.data[1] }
}

/// Why no transport to the device came about.
#[derive(Debug, Clone, Copy, PartialEq, Eq, Structural)]
pub enum ConnectionError {
    /// The MIDI subsystem did not initialise.
    Unavailable,
    /// No input port, or no output port, advertises the device's name.
    NotFound,
    /// A port was found and refused the connection.
    Refused,
}

/// Whether a port advertises exactly the device's name. A port whose name
/// could not be read advertises none.
pub open spec fn port_is(name: Option<String>, device_name: Seq<char>) -> bool {
    name matches Some(n) && n@ == device_name
}

/// Whether `index` is the first port that advertises the device's name.
pub open spec fn is_first_port(
    names: Seq<Option<String>>,
    device_name: Seq<char>,
    index: int,
) -> bool {
    &&& 0 <= index < names.len()
    &&& port_is(names[index], device_name)
    &&& forall|j: int| 0 <= j < index ==> !port_is(#[trigger] names[j], device_name)
}

/// Whether no port advertises the device's name.
pub open spec fn no_port(names: Seq<Option<String>>, device_name: Seq<char>) -> bool {
    forall|j: int| 0 <= j < names.len() ==> !port_is(#[trigger] names[j], device_name)
}

/// The first port, in the order of enumeration, whose name is the device's.
pub fn find_port(names: &Vec<Option<String>>, device_name: &str) -> (found: Option<usize>)
    ensures
        match found {
            Some(index) => is_first_port(names@, device_name@, index as int),
            None => no_port(names@, device_name@),
        },
{
    let wanted: String = device_name.to_owned();
    let mut i: usize = 0;
    while i < names.len()
        invariant
            i <= names.len(),
            wanted@ == device_name@,
            forall|j: int| 0 <= j < i ==> !port_is(#[trigger] names@[j], device_name@),
        decreases names.len() - i,
    {
        let matches: bool = match &names[i] {
            Some(port_name) => *port_name == wanted,
            None => false,
        };
        if matches {
            return Some(i);
        }
        i += 1;
    }
    None
}

/// The input port and the output port to connect: the first of each that
/// advertises the device's name. Fails with `NotFound` exactly when either
/// enumeration holds no such port.
pub fn select_ports(
    input_names: &Vec<Option<String>>,
    output_names: &Vec<Option<String>>,
    device_name: &str,
) -> (chosen: Result<(usize, usize), ConnectionError>)
    ensures
        match chosen {
            Ok((input, output)) => {
                &&& is_first_port(input_names@, device_name@, input as int)
                &&& is_first_port(output_names@, device_name@, output as int)
            },
            Err(error) => {
                &&& error == ConnectionError::NotFound
                &&& no_port(input_names@, device_name@) || no_port(output_names@, device_name@)
            },
        },
{
    let input_port = find_port(input_names, device_name);
    let output_port = find_port(output_names, device_name);
    if input_port.is_none() {
        return Err(ConnectionError::NotFound);
    }
    if output_port.is_none() {
        return Err(ConnectionError::NotFound);
    }
    Ok((input_port.unwrap(), output_port.unwrap()))
}

} // verus!
