//! Configuration values the engine works with: the kind of secret, the
//! status triplets, and the verbosity level.

use vstd::prelude::*;
use vstd::string::StringExecFns;

use crate::state::Location;
use crate::status::MMStatus;
use crate::strutil::{eq_nocase, spec_eq_nocase, spec_split2, split_double_colon};

verus! {

/// Kind of secret used to talk to the server.
///
/// With [`SecretType::Password`], the secret is used to obtain a session
/// token through the login API.  With [`SecretType::Token`], the secret is a
/// private access token directly usable to access the API.
#[derive(Debug, PartialEq, Eq, Structural, Clone, Copy)]
pub enum SecretType {
    Token,
    Password,
}

/// Status that shall be sent when a wifi with `wifi_string` is being seen.
#[derive(Debug)]
pub struct WifiStatusConfig {
    /// Wifi SSID substring associated to this custom status.
    pub wifi_string: String,
    /// Emoji name that will be set as part of the custom status.
    pub emoji: String,
    /// Custom status text description.
    pub text: String,
}

impl PartialEq for WifiStatusConfig {
    fn eq(&self, other: &WifiStatusConfig) -> (r: bool) {
        crate::strutil::str_eq(self.wifi_string.as_str(), other.wifi_string.as_str())
            && crate::strutil::str_eq(self.emoji.as_str(), other.emoji.as_str())
            && crate::strutil::str_eq(self.text.as_str(), other.text.as_str())
    }
}

impl vstd::std_specs::cmp::PartialEqSpecImpl for WifiStatusConfig {
    open spec fn obeys_eq_spec() -> bool {
        true
    }

    open spec fn eq_spec(&self, other: &WifiStatusConfig) -> bool {
        self.wifi_string@ == other.wifi_string@ && self.emoji@ == other.emoji@ && self.text@
            == other.text@
    }
}

impl WifiStatusConfig {
    /// Parse a triplet of the form `wifi_substring::emoji::text`: exactly
    /// two `::` separators, whose three pieces become the wifi substring,
    /// the emoji name and the status text, in that order.  Anything else is
    /// an error.
    pub fn from_str(s: &str) -> (r: Result<WifiStatusConfig, String>)
        ensures
            r is Ok <==> spec_split2(s@).len() == 3,
            r matches Ok(c) ==> {
                &&& c.wifi_string@ == spec_split2(s@)[0]
                &&& c.emoji@ == spec_split2(s@)[1]
                &&& c.text@ == spec_split2(s@)[2]
            },
    {
        let parts = split_double_colon(s);
        if parts.len() != 3 {
            let mut msg = String::from_str(
                "Expect status argument to contain two and only two :: separator (in '",
            );
            msg.append(s);
            msg.append("')");
            return Err(msg);
        }
        assert(parts.deep_view()[0] == parts@[0]@);
        assert(parts.deep_view()[1] == parts@[1]@);
        assert(parts.deep_view()[2] == parts@[2]@);
        let mut parts = parts;
        let text = parts.pop().unwrap();
        let emoji = parts.pop().unwrap();
        let wifi_string = parts.pop().unwrap();
        Ok(WifiStatusConfig { wifi_string, emoji, text })
    }
}

// Courtesy of the structopt_flags crate.
/// The verbosity parameter: a level raised by repeated "verbose" flags and
/// lowered by repeated "quiet" flags.
#[derive(Debug, Clone)]
pub struct QuietVerbose {
    /// The number of times verbosity was raised, up to 3.
    pub verbosity_level: u8,
    /// The number of times verbosity was lowered: once for errors only,
    /// twice for complete silence.
    pub quiet_level: u8,
}

impl Default for QuietVerbose {
    /// The default verbosity: informational.
    fn default() -> (r: Self)
        ensures
            r.verbosity_level == 1,
            r.quiet_level == 0,
    {
        QuietVerbose { verbosity_level: 1, quiet_level: 0 }
    }
}

/// The level filter name for given counts of verbose and quiet flags: the
/// quiet count (capped at 2) is subtracted from the verbose count (capped
/// at 3), and the difference picks the level from `Off` up to `Trace`.
pub open spec fn spec_level_filter(verbosity_level: int, quiet_level: int) -> Seq<char> {
    let quiet = if quiet_level > 1 {
        2int
    } else {
        quiet_level
    };
    let verbose = if verbosity_level > 2 {
        3int
    } else {
        verbosity_level
    };
    let diff = verbose - quiet;
    if diff == -2 {
        "Off"@
    } else if diff == -1 {
        "Error"@
    } else if diff == 0 {
        "Warn"@
    } else if diff == 1 {
        "Info"@
    } else if diff == 2 {
        "Debug"@
    } else {
        "Trace"@
    }
}

impl QuietVerbose {
    /// Returns the string associated to the current verbose level.
    pub fn get_level_filter(&self) -> (r: &'static str)
        ensures
            r@ == spec_level_filter(self.verbosity_level as int, self.quiet_level as int),
    {
        let quiet: u8 = if self.quiet_level > 1 {
            2
        } else {
            self.quiet_level
        };
        let verbose: u8 = if self.verbosity_level > 2 {
            3
        } else {
            self.verbosity_level
        };
        let diff: i8 = verbose as i8 - quiet as i8;
        if diff == -2 {
            "Off"
        } else if diff == -1 {
            "Error"
        } else if diff == 0 {
            "Warn"
        } else if diff == 1 {
            "Info"
        } else if diff == 2 {
            "Debug"
        } else {
            "Trace"
        }
    }

    /// The verbosity encoded by a level name, compared ignoring ASCII case:
    /// `off`, `error`, `warn`, `info` and `debug` each name their level, and
    /// anything else is the most verbose one.
    pub fn from_level_str(s: &str) -> (r: QuietVerbose)
        ensures
            r == spec_from_level_str(s@),
    {
        if eq_nocase(s, "off") {
            QuietVerbose { verbosity_level: 0, quiet_level: 2 }
        } else if eq_nocase(s, "error") {
            QuietVerbose { verbosity_level: 0, quiet_level: 1 }
        } else if eq_nocase(s, "warn") {
            QuietVerbose { verbosity_level: 0, quiet_level: 0 }
        } else if eq_nocase(s, "info") {
            QuietVerbose { verbosity_level: 1, quiet_level: 0 }
        } else if eq_nocase(s, "debug") {
            QuietVerbose { verbosity_level: 2, quiet_level: 0 }
        } else {
            QuietVerbose { verbosity_level: 3, quiet_level: 0 }
        }
    }
}

/// The verbosity encoded by a level name, compared ignoring ASCII case.
pub open spec fn spec_from_level_str(s: Seq<char>) -> QuietVerbose {
    if spec_eq_nocase(s, "off"@) {
        QuietVerbose { verbosity_level: 0, quiet_level: 2 }
    } else if spec_eq_nocase(s, "error"@) {
        QuietVerbose { verbosity_level: 0, quiet_level: 1 }
    } else if spec_eq_nocase(s, "warn"@) {
        QuietVerbose { verbosity_level: 0, quiet_level: 0 }
    } else if spec_eq_nocase(s, "info"@) {
        QuietVerbose { verbosity_level: 1, quiet_level: 0 }
    } else if spec_eq_nocase(s, "debug"@) {
        QuietVerbose { verbosity_level: 2, quiet_level: 0 }
    } else {
        QuietVerbose { verbosity_level: 3, quiet_level: 0 }
    }
}

/// The status entry one configuration triplet describes, if it is well
/// formed: the location keyed by the wifi substring, and a status carrying
/// the text and emoji.
pub open spec fn spec_status_triplet_ok(s: Seq<char>) -> bool {
    spec_split2(s).len() == 3
}

/// The key, emoji and text a well-formed triplet names.
pub open spec fn spec_triplet(s: Seq<char>) -> (Seq<char>, Seq<char>, Seq<char>) {
    (spec_split2(s)[0], spec_split2(s)[1], spec_split2(s)[2])
}

/// Insert one (key, emoji, text) entry into a keyed list: a later entry for
/// an already present key overwrites it in place, anything else is appended.
pub open spec fn spec_upsert(
    list: Seq<(Seq<char>, Seq<char>, Seq<char>)>,
    e: (Seq<char>, Seq<char>, Seq<char>),
) -> Seq<(Seq<char>, Seq<char>, Seq<char>)>
    decreases list.len(),
{
    if list.len() == 0 {
        seq![e]
    } else if list[0].0 == e.0 {
        seq![e] + list.drop_first()
    } else {
        seq![list[0]] + spec_upsert(list.drop_first(), e)
    }
}

/// The keyed status list the triplets describe, built left to right with a
/// later duplicate wifi substring overwriting the earlier entry, as a map
/// insertion would.
pub open spec fn spec_prepared(status: Seq<Seq<char>>) -> Seq<(Seq<char>, Seq<char>, Seq<char>)>
    decreases status.len(),
{
    if status.len() == 0 {
        Seq::empty()
    } else {
        spec_upsert(spec_prepared(status.drop_last()), spec_triplet(status.last()))
    }
}

/// The (key, emoji, text) values an entry list carries, entry by entry.
pub open spec fn spec_entries_view(list: Seq<(Location, MMStatus)>) -> Seq<
    (Seq<char>, Seq<char>, Seq<char>),
> {
    Seq::new(
        list.len(),
        |k: int|
            (
                match list[k].0@ {
                    crate::state::LocationView::Known(w) => w,
                    crate::state::LocationView::Unknown => Seq::empty(),
                },
                list[k].1.emoji@,
                list[k].1.text@,
            ),
    )
}

proof fn lemma_upsert_at(
    list: Seq<(Seq<char>, Seq<char>, Seq<char>)>,
    e: (Seq<char>, Seq<char>, Seq<char>),
    k: int,
)
    requires
        0 <= k < list.len(),
        list[k].0 == e.0,
        forall|j: int| 0 <= j < k ==> (#[trigger] list[j]).0 != e.0,
    ensures
        spec_upsert(list, e) == list.update(k, e),
    decreases k,
{
    if k == 0 {
        assert(spec_upsert(list, e) =~= list.update(0, e));
    } else {
        lemma_upsert_at(list.drop_first(), e, k - 1);
        assert(list.drop_first().update(k - 1, e) =~= list.update(k, e).drop_first());
        assert(spec_upsert(list, e) =~= list.update(k, e));
    }
}

proof fn lemma_upsert_none(
    list: Seq<(Seq<char>, Seq<char>, Seq<char>)>,
    e: (Seq<char>, Seq<char>, Seq<char>),
)
    requires
        forall|j: int| 0 <= j < list.len() ==> (#[trigger] list[j]).0 != e.0,
    ensures
        spec_upsert(list, e) == list.push(e),
    decreases list.len(),
{
    if list.len() == 0 {
        assert(spec_upsert(list, e) =~= list.push(e));
    } else {
        lemma_upsert_none(list.drop_first(), e);
        assert(spec_upsert(list, e) =~= list.push(e));
    }
}

/// The first entry holding the given wifi substring key, if any.
fn find_entry_key(res: &Vec<(Location, MMStatus)>, key: &str) -> (r: Option<usize>)
    requires
        forall|k: int| 0 <= k < res@.len() ==> (#[trigger] res@[k]).0@ is Known,
    ensures
        r matches Some(k) ==> k < res@.len() && spec_entries_view(res@)[k as int].0 == key@
            && (forall|j: int| 0 <= j < k ==> (#[trigger] spec_entries_view(res@)[j]).0 != key@),
        r is None ==> forall|j: int| 0 <= j < res@.len() ==> (#[trigger] spec_entries_view(
            res@,
        )[j]).0 != key@,
{
    let m = res.len();
    let mut k: usize = 0;
    while k < m
        invariant
            k <= m,
            m == res@.len(),
            forall|j: int| 0 <= j < res@.len() ==> (#[trigger] res@[j]).0@ is Known,
            forall|j: int| 0 <= j < k ==> (#[trigger] spec_entries_view(res@)[j]).0 != key@,
        decreases m - k,
    {
        let hit = match &res[k].0 {
            Location::Known(w) => crate::strutil::str_eq(w.as_str(), key),
            Location::Unknown => false,
        };
        if hit {
            assert(spec_entries_view(res@)[k as int].0 == key@);
            return Some(k);
        }
        assert(spec_entries_view(res@)[k as int].0 != key@);
        k += 1;
    }
    None
}

/// Prepare the keyed list of custom statuses ready to be sent, one entry
/// per distinct wifi substring.  The entries follow the triplets left to
/// right, a later duplicate substring overwriting the earlier entry (see
/// [`spec_prepared`]).  Fails exactly when some triplet is not of the form
/// `wifi_substring::emoji::text`.
pub fn prepare_status(status: &Vec<String>) -> (r: Result<Vec<(Location, MMStatus)>, String>)
    ensures
        r is Ok <==> (forall|i: int| 0 <= i < status@.len() ==> spec_status_triplet_ok(
            #[trigger] status.deep_view()[i],
        )),
        r matches Ok(list) ==> {
            &&& spec_entries_view(list@) == spec_prepared(status.deep_view())
            &&& forall|k: int| 0 <= k < list@.len() ==> (#[trigger] list@[k]).0@ is Known
            &&& forall|k: int| 0 <= k < list@.len() ==> (#[trigger] list@[k]).1.duration is None
                && list@[k].1.expires_at is None
        },
{
    let ghost inputs = status.deep_view();
    let n = status.len();
    let mut res: Vec<(Location, MMStatus)> = Vec::new();
    let mut i: usize = 0;
    assert(inputs.take(0) =~= Seq::<Seq<char>>::empty());
    assert(spec_entries_view(res@) =~= spec_prepared(inputs.take(0)));
    while i < n
        invariant
            i <= n,
            n == inputs.len(),
            inputs == status.deep_view(),
            forall|j: int| 0 <= j < i ==> spec_status_triplet_ok(#[trigger] inputs[j]),
            spec_entries_view(res@) == spec_prepared(inputs.take(i as int)),
            forall|k: int| 0 <= k < res@.len() ==> (#[trigger] res@[k]).0@ is Known,
            forall|k: int| 0 <= k < res@.len() ==> (#[trigger] res@[k]).1.duration is None
                && res@[k].1.expires_at is None,
        decreases n - i,
    {
        assert(inputs[i as int] == status@[i as int]@);
        let sc = match WifiStatusConfig::from_str(status[i].as_str()) {
            Ok(sc) => sc,
            Err(e) => {
                return Err(e);
            },
        };
        let ghost e = spec_triplet(inputs[i as int]);
        let ghost pre = spec_entries_view(res@);
        // Upsert: a duplicate wifi substring overwrites the earlier entry.
        let slot = find_entry_key(&res, sc.wifi_string.as_str());
        let entry = (Location::Known(sc.wifi_string), MMStatus::new(sc.text, sc.emoji));
        assert(entry.0@ == crate::state::LocationView::Known(e.0));
        match slot {
            Some(k) => {
                proof {
                    lemma_upsert_at(pre, e, k as int);
                }
                res.remove(k);
                res.insert(k, entry);
                assert(spec_entries_view(res@) =~= spec_upsert(pre, e));
            },
            None => {
                proof {
                    lemma_upsert_none(pre, e);
                }
                res.push(entry);
                assert(spec_entries_view(res@) =~= spec_upsert(pre, e));
            },
        }
        assert(inputs.take(i + 1).drop_last() =~= inputs.take(i as int));
        assert(inputs.take(i + 1).last() == inputs[i as int]);
        i += 1;
    }
    assert(inputs.take(n as int) =~= inputs);
    Ok(res)
}

} // verus!
