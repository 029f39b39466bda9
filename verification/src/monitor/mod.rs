//! Monitors and the data by which they identify themselves.

pub mod edid;
pub mod registry;

use vstd::prelude::*;
use vstd::utf8::encode_utf8;

verus! {

/// A monitor, as the system lists it: the directory of its connector, the
/// graphics card that drives it, and the port it is plugged into.
#[derive(Debug)]
pub struct Monitor {
    /// Path to the sysfs entry of this monitor.
    sysfs_path: String,
    /// Graphics card.
    card: String,
    /// Port name of the monitor.
    port_name: String,
}

/// A `Monitor` as plain values.
pub struct MonitorView {
    pub sysfs_path: Seq<char>,
    pub card: Seq<char>,
    pub port_name: Seq<char>,
}

impl View for Monitor {
    type V = MonitorView;

    closed spec fn view(&self) -> MonitorView {
        MonitorView {
            sysfs_path: self.sysfs_path@,
            card: self.card@,
            port_name: self.port_name@,
        }
    }
}

/// The name of the port in the name of a connector's directory. Such a
/// directory is named after the card and the port, as in `card0-HDMI-A-1`:
/// the port's name is what is left when as many characters are taken from
/// the front as the card's name has bytes, and one more for the hyphen. A
/// name too short for that leaves nothing.
pub open spec fn port_name_of(card: Seq<char>, connector: Seq<char>) -> Seq<char> {
    let skipped = encode_utf8(card).len() + 1;
    if skipped <= connector.len() {
        connector.skip(skipped as int)
    } else {
        Seq::empty()
    }
}

impl Monitor {
    /// Describes the monitor whose sysfs entry is `sysfs_path`, given the two
    /// names that end this path: `card`, the name of the directory above the
    /// entry, and `connector`, the name of the entry itself.
    pub fn from_sysfs(sysfs_path: &str, card: &str, connector: &str) -> (monitor: Monitor)
        ensures
            monitor@ == (MonitorView {
                sysfs_path: sysfs_path@,
                card: card@,
                port_name: port_name_of(card@, connector@),
            }),
    {
        let length: usize = connector.unicode_len();
        let card_length: usize = card.as_bytes().len();
        let from: usize = if card_length < length {
            card_length + 1
        } else {
            length
        };
        let port_name: String = connector.substring_char(from, length).to_owned();
        assert(port_name@ =~= port_name_of(card@, connector@));
        Monitor { sysfs_path: sysfs_path.to_owned(), card: card.to_owned(), port_name }
    }

    /// Path to the sysfs entry of this monitor.
    pub fn sysfs_path(&self) -> (path: &str)
        ensures
            path@ == self@.sysfs_path,
    {
        self.sysfs_path.as_str()
    }

    /// The graphics card that drives this monitor.
    pub fn card(&self) -> (card: &str)
        ensures
            card@ == self@.card,
    {
        self.card.as_str()
    }

    /// The port that this monitor is plugged into.
    pub fn port_name(&self) -> (port_name: &str)
        ensures
            port_name@ == self@.port_name,
    {
        self.port_name.as_str()
    }
}

} // verus!
