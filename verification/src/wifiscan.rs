//! Wifi scanning interface, and the pure parsing of scan tool output.
//!
//! The scans themselves run platform commands and stay with the caller; the
//! functions here turn the captured output into SSID lists and interface
//! facts, and are verified against spec functions over the text.

use vstd::prelude::*;
use vstd::string::StrSliceExecFns;

use crate::strutil::{
    contains_str, find_char, lemma_find_props, spec_contains, spec_find, spec_split,
    spec_starts_with, spec_trim, spec_trim_start, split_char, starts_with, str_eq, trim,
    trim_start,
};

verus! {

/// Wireless network interface.
#[derive(Debug)]
pub struct WiFi {
    /// Wifi interface name.
    pub interface: String,
}

impl WiFi {
    /// Create a `WiFi` handle for the named interface.
    pub fn new(interface: &str) -> (r: Self)
        ensures
            r.interface@ == interface@,
    {
        WiFi { interface: interface.to_owned() }
    }
}

/// Error specific to the `WiFi` struct.
#[derive(Debug)]
pub enum WifiError {
    /// The wifi is currently disabled.
    WifiDisabled,
    /// The wifi interface failed to switch on.
    InterfaceFailedToOn,
    /// An input/output error while running the platform scan command; the
    /// payload describes it.
    IoError(String),
}

/// Wifi interface for an operating system.
/// This provides basic functionalities for a wifi interface; the
/// implementations run the platform scan commands and live with the caller.
pub trait WifiInterface {
    /// Check if the wifi interface on the host machine is enabled.
    fn is_wifi_enabled(&self) -> Result<bool, WifiError>;

    /// Return the visible SSIDs.
    fn visible_ssid(&self) -> Result<Vec<String>, WifiError>;
}

// ---------------------------------------------------------------------------
// netsh output parsing
// ---------------------------------------------------------------------------

/// The text after the first colon of `s`, or empty when there is none.
pub open spec fn spec_after_colon(s: Seq<char>) -> Seq<char> {
    match spec_find(s, ':') {
        Some(i) => s.skip(i + 1),
        None => Seq::empty(),
    }
}

/// The SSIDs a netsh network listing names: for each line starting with
/// `SSID`, the text after the first colon, trimmed.
pub open spec fn spec_netsh_ssids(lines: Seq<Seq<char>>) -> Seq<Seq<char>>
    decreases lines.len(),
{
    if lines.len() == 0 {
        Seq::empty()
    } else {
        (if spec_starts_with(lines[0], "SSID"@) {
            seq![spec_trim(spec_after_colon(lines[0]))]
        } else {
            Seq::<Seq<char>>::empty()
        }) + spec_netsh_ssids(lines.drop_first())
    }
}

/// The text after the first colon, or empty when there is none.
fn after_colon(s: &str) -> (r: String)
    ensures
        r@ == spec_after_colon(s@),
{
    let n = s.unicode_len();
    match find_char(s, ':') {
        Some(i) => {
            proof {
                lemma_find_props(s@, ':');
            }
            let r = s.substring_char(i + 1, n).to_owned();
            assert(r@ =~= s@.skip(i + 1));
            r
        },
        None => String::new(),
    }
}

/// Extract the SSIDs from the output of `netsh wlan show networks`: one for
/// each line starting with `SSID`, the trimmed text after its first colon.
pub fn extract_netsh_ssid(netsh_output: &str) -> (r: Vec<String>)
    ensures
        r.deep_view() == spec_netsh_ssids(spec_split(netsh_output@, '\n')),
{
    let lines = split_char(netsh_output, '\n');
    let ghost all = lines.deep_view();
    let n = lines.len();
    let mut res: Vec<String> = Vec::new();
    let mut i: usize = 0;
    assert(all.skip(0) =~= all);
    while i < n
        invariant
            i <= n,
            n == all.len(),
            all == lines.deep_view(),
            res.deep_view() + spec_netsh_ssids(all.skip(i as int)) == spec_netsh_ssids(all),
        decreases n - i,
    {
        assert(lines.deep_view()[i as int] == lines@[i as int]@);
        let ghost pre = res.deep_view();
        assert(all.skip(i as int)[0] == all[i as int]);
        assert(all.skip(i as int).drop_first() =~= all.skip(i as int + 1));
        if starts_with(lines[i].as_str(), "SSID") {
            let piece = trim(after_colon(lines[i].as_str()).as_str());
            res.push(piece);
            assert(res.deep_view() =~= pre + seq![spec_trim(spec_after_colon(all[i as int]))]);
            assert(res.deep_view() + spec_netsh_ssids(all.skip(i as int + 1)) =~= spec_netsh_ssids(
                all,
            ));
        } else {
            assert(res.deep_view() + spec_netsh_ssids(all.skip(i as int + 1)) =~= spec_netsh_ssids(
                all,
            ));
        }
        i += 1;
    }
    assert(all.skip(n as int) =~= Seq::<Seq<char>>::empty());
    assert(res.deep_view() =~= res.deep_view() + spec_netsh_ssids(all.skip(n as int)));
    res
}

// ---------------------------------------------------------------------------
// ifconfig output parsing
// ---------------------------------------------------------------------------

/// A line opening the description of an interface: not indented, and
/// holding `: flags=`.
pub open spec fn spec_is_iface_header(line: Seq<char>) -> bool {
    &&& !spec_starts_with(line, "\t"@)
    &&& !spec_starts_with(line, " "@)
    &&& spec_contains(line, ": flags="@)
}

/// The interface name of a header line: the text before its first colon.
pub open spec fn spec_iface_name(line: Seq<char>) -> Seq<char> {
    match spec_find(line, ':') {
        Some(i) => line.take(i),
        None => line,
    }
}

/// An interface is active ethernet when it is not the loopback `lo0`, not
/// the wifi interface, was flagged `UP`, and had an `inet` address.
pub open spec fn spec_iface_active(
    name: Seq<char>,
    is_up: bool,
    has_inet: bool,
    wifi: Seq<char>,
) -> bool {
    &&& name.len() > 0
    &&& name != "lo0"@
    &&& name != wifi
    &&& is_up
    &&& has_inet
}

/// The scan over the remaining lines, carrying the interface being read:
/// a header line first settles the previous interface and then starts a new
/// one, an indented `inet` line marks an address, and the last interface is
/// settled at the end.
pub open spec fn spec_ethernet_scan(
    lines: Seq<Seq<char>>,
    name: Seq<char>,
    is_up: bool,
    has_inet: bool,
    wifi: Seq<char>,
) -> bool
    decreases lines.len(),
{
    if lines.len() == 0 {
        spec_iface_active(name, is_up, has_inet, wifi)
    } else {
        let line = lines[0];
        if spec_is_iface_header(line) {
            spec_iface_active(name, is_up, has_inet, wifi) || spec_ethernet_scan(
                lines.drop_first(),
                spec_iface_name(line),
                spec_contains(line, "UP"@),
                false,
                wifi,
            )
        } else if spec_starts_with(spec_trim_start(line), "inet "@) {
            spec_ethernet_scan(lines.drop_first(), name, is_up, true, wifi)
        } else {
            spec_ethernet_scan(lines.drop_first(), name, is_up, has_inet, wifi)
        }
    }
}

/// Check if any active ethernet interface exists in `ifconfig` output.
///
/// An interface is considered active ethernet when it is NOT `lo0`, NOT the
/// wifi interface, has `UP` in its flags, and has an `inet` address.
pub fn has_active_ethernet(ifconfig_output: &str, wifi_interface: &str) -> (r: bool)
    ensures
        r == spec_ethernet_scan(
            spec_split(ifconfig_output@, '\n'),
            Seq::empty(),
            false,
            false,
            wifi_interface@,
        ),
{
    let lines = split_char(ifconfig_output, '\n');
    let ghost all = lines.deep_view();
    let n = lines.len();
    let mut current_iface = String::new();
    let mut is_up = false;
    let mut has_inet = false;
    let mut i: usize = 0;
    assert(all.skip(0) =~= all);
    assert(current_iface@ =~= Seq::<char>::empty());
    while i < n
        invariant
            i <= n,
            n == all.len(),
            all == lines.deep_view(),
            all == spec_split(ifconfig_output@, '\n'),
            spec_ethernet_scan(all, Seq::empty(), false, false, wifi_interface@)
                == spec_ethernet_scan(
                all.skip(i as int),
                current_iface@,
                is_up,
                has_inet,
                wifi_interface@,
            ),
        decreases n - i,
    {
        assert(lines.deep_view()[i as int] == lines@[i as int]@);
        assert(all.skip(i as int)[0] == all[i as int]);
        assert(all.skip(i as int).drop_first() =~= all.skip(i as int + 1));
        let line = &lines[i];
        let is_header = !starts_with(line.as_str(), "\t") && !starts_with(line.as_str(), " ")
            && contains_str(line.as_str(), ": flags=");
        if is_header {
            // Check the previous interface before moving to the next.
            if current_iface.unicode_len() > 0 && !str_eq(current_iface.as_str(), "lo0") && !str_eq(
                current_iface.as_str(),
                wifi_interface,
            ) && is_up && has_inet {
                assert(spec_iface_active(current_iface@, is_up, has_inet, wifi_interface@));
                assert(spec_is_iface_header(all[i as int]));
                assert(spec_ethernet_scan(
                    all.skip(i as int),
                    current_iface@,
                    is_up,
                    has_inet,
                    wifi_interface@,
                ));
                assert(spec_ethernet_scan(all, Seq::empty(), false, false, wifi_interface@));
                return true;
            }
            // Parse the new interface name.
            let name_end = match find_char(line.as_str(), ':') {
                Some(p) => {
                    proof {
                        lemma_find_props(line@, ':');
                    }
                    p
                },
                None => line.unicode_len(),
            };
            current_iface = line.as_str().substring_char(0, name_end).to_owned();
            assert(current_iface@ =~= spec_iface_name(all[i as int]));
            is_up = contains_str(line.as_str(), "UP");
            has_inet = false;
        } else if starts_with(trim_start(line.as_str()).as_str(), "inet ") {
            has_inet = true;
        }
        i += 1;
    }
    // Check the last interface.
    assert(all.skip(n as int) =~= Seq::<Seq<char>>::empty());
    current_iface.unicode_len() > 0 && !str_eq(current_iface.as_str(), "lo0") && !str_eq(
        current_iface.as_str(),
        wifi_interface,
    ) && is_up && has_inet
}

} // verus!
