//! Detection of microphone use, and the do-not-disturb decision it drives.
//!
//! Reading the sound devices is platform work that stays with the caller;
//! this module parses the captured text of a device status file and decides,
//! from the list of applications holding the microphone, whether the remote
//! presence must move to do-not-disturb, back to online, or stay.

use vstd::prelude::*;
use vstd::string::{StrSliceExecFns, StringExecFns};

use crate::strutil::{
    all_dec_digits, dec_val, find_char, lemma_find_props, spec_find, spec_split,
    spec_starts_with, spec_trim, split_char, starts_with, str_eq, trim,
};

verus! {

/// `s` with every colon removed.
pub open spec fn spec_strip_colons(s: Seq<char>) -> Seq<char>
    decreases s.len(),
{
    if s.len() == 0 {
        Seq::empty()
    } else {
        (if s[0] == ':' {
            Seq::<char>::empty()
        } else {
            seq![s[0]]
        }) + spec_strip_colons(s.drop_first())
    }
}

fn strip_colons(s: &str) -> (r: String)
    ensures
        r@ == spec_strip_colons(s@),
{
    let n = s.unicode_len();
    let mut out = String::new();
    let mut i: usize = 0;
    assert(s@.skip(0) =~= s@);
    while i < n
        invariant
            i <= n,
            n == s@.len(),
            out@ + spec_strip_colons(s@.skip(i as int)) == spec_strip_colons(s@),
        decreases n - i,
    {
        assert(s@.skip(i as int)[0] == s@[i as int]);
        assert(s@.skip(i as int).drop_first() =~= s@.skip(i as int + 1));
        let c = s.get_char(i);
        if c != ':' {
            out.append(s.substring_char(i, i + 1));
            assert(s@.subrange(i as int, i as int + 1) =~= seq![s@[i as int]]);
        }
        i += 1;
    }
    assert(s@.skip(n as int) =~= Seq::<char>::empty());
    assert(out@ =~= out@ + spec_strip_colons(s@.skip(n as int)));
    out
}

/// What one line of an audio device status file contributes to the process
/// id text: for a line starting with `owner_pid`, the text after its first
/// colon with any further colons removed and the ends trimmed; nothing
/// otherwise.
pub open spec fn spec_pid_piece(line: Seq<char>) -> Seq<char> {
    if spec_starts_with(line, "owner_pid"@) {
        match spec_find(line, ':') {
            Some(i) => spec_trim(spec_strip_colons(line.skip(i + 1))),
            None => spec_trim(Seq::empty()),
        }
    } else {
        Seq::empty()
    }
}

/// The pieces of all lines, concatenated.
pub open spec fn spec_pid_text(lines: Seq<Seq<char>>) -> Seq<char>
    decreases lines.len(),
{
    if lines.len() == 0 {
        Seq::empty()
    } else {
        spec_pid_piece(lines[0]) + spec_pid_text(lines.drop_first())
    }
}

/// What the collected pid text parses to: a plain decimal process id, if the
/// text is nonempty, all digits, and within range.
pub open spec fn spec_parse_pid(s: Seq<char>) -> Option<i32> {
    if s.len() > 0 && all_dec_digits(s) && dec_val(s) <= i32::MAX {
        Some(dec_val(s) as i32)
    } else {
        None
    }
}

/// Extract the owning process id from the text of an audio device status
/// file: the `owner_pid` lines contribute the text after their colon, and
/// the collected text must be one decimal number.
pub fn pid_from_status_file(lines: &str) -> (r: Result<i32, String>)
    ensures
        r matches Ok(pid) ==> spec_parse_pid(spec_pid_text(spec_split(lines@, '\n'))) == Some(pid),
        r is Err ==> spec_parse_pid(spec_pid_text(spec_split(lines@, '\n'))) is None,
{
    let split = split_char(lines, '\n');
    let ghost all = split.deep_view();
    let n = split.len();
    let mut pid_text = String::new();
    let mut i: usize = 0;
    assert(all.skip(0) =~= all);
    while i < n
        invariant
            i <= n,
            n == all.len(),
            all == split.deep_view(),
            pid_text@ + spec_pid_text(all.skip(i as int)) == spec_pid_text(all),
        decreases n - i,
    {
        assert(split.deep_view()[i as int] == split@[i as int]@);
        assert(all.skip(i as int)[0] == all[i as int]);
        assert(all.skip(i as int).drop_first() =~= all.skip(i as int + 1));
        let line = &split[i];
        if starts_with(line.as_str(), "owner_pid") {
            let tail = match find_char(line.as_str(), ':') {
                Some(p) => {
                    proof {
                        lemma_find_props(line@, ':');
                    }
                    let ln = line.as_str().unicode_len();
                    assert(p < ln);
                    let t = line.as_str().substring_char(p + 1, ln);
                    assert(t@ =~= line@.skip(p + 1));
                    t.to_owned()
                },
                None => String::new(),
            };
            let piece = trim(strip_colons(tail.as_str()).as_str());
            pid_text.append(piece.as_str());
        }
        i += 1;
    }
    assert(all.skip(n as int) =~= Seq::<Seq<char>>::empty());
    assert(pid_text@ =~= pid_text@ + spec_pid_text(all.skip(n as int)));
    match crate::strutil::parse_u64_dec(pid_text.as_str()) {
        Some(v) => {
            if v <= i32::MAX as u64 {
                Ok(v as i32)
            } else {
                Err(String::from_str("process id out of range"))
            }
        },
        None => Err(String::from_str("no process id found")),
    }
}

/// What the do-not-disturb reconciliation asks for.
#[derive(Debug, PartialEq, Eq, Structural, Clone, Copy)]
pub enum DndAction {
    /// A watched application took the microphone: set do-not-disturb.
    SetDnd,
    /// The last watched application released it: set back to online.
    SetOnline,
    /// Nothing changed: send nothing.
    Keep,
}

/// Some application in `names` is one of the `watched` ones.
pub open spec fn spec_watched_found(names: Seq<Seq<char>>, watched: Seq<Seq<char>>) -> bool {
    exists|i: int, j: int|
        0 <= i < names.len() && 0 <= j < watched.len() && #[trigger] names[i] == #[trigger] watched[j]
}

/// Store of the microphone-usage state.
#[derive(Debug)]
pub struct MicUsage {
    /// Whether a watched application held the microphone at the last check.
    pub used: bool,
}

impl Default for MicUsage {
    /// The starting state: the microphone is unused.
    fn default() -> (r: Self)
        ensures
            !r.used,
    {
        MicUsage::new()
    }
}

impl MicUsage {
    /// Create a new MicUsage struct with the microphone unused.
    pub fn new() -> (r: Self)
        ensures
            !r.used,
    {
        MicUsage { used: false }
    }

    /// Decide the presence move for the applications now holding the
    /// microphone: do-not-disturb exactly when a watched application holds
    /// it, back to online exactly when none does but one did at the last
    /// check, and nothing otherwise.  The caller performs the send the
    /// action asks for.
    pub fn update_dnd_status(&mut self, mic_users: &Vec<String>, watched: &Vec<String>) -> (r:
        DndAction)
        ensures
            spec_watched_found(mic_users.deep_view(), watched.deep_view()) ==> r
                == DndAction::SetDnd && final(self).used,
            !spec_watched_found(mic_users.deep_view(), watched.deep_view()) ==> !final(self).used
                && (if old(self).used {
                r == DndAction::SetOnline
            } else {
                r == DndAction::Keep
            }),
    {
        let ghost names = mic_users.deep_view();
        let ghost watch = watched.deep_view();
        let n = mic_users.len();
        let m = watched.len();
        let mut found = false;
        let mut i: usize = 0;
        while i < n && !found
            invariant
                i <= n,
                n == names.len(),
                m == watch.len(),
                names == mic_users.deep_view(),
                watch == watched.deep_view(),
                found ==> spec_watched_found(names, watch),
                !found ==> forall|i2: int, j2: int|
                    0 <= i2 < i && 0 <= j2 < watch.len() ==> #[trigger] names[i2] != #[trigger] watch[j2],
            decreases n - i,
        {
            assert(mic_users.deep_view()[i as int] == mic_users@[i as int]@);
            let mut j: usize = 0;
            while j < m && !found
                invariant
                    j <= m,
                    i < n,
                    n == names.len(),
                    m == watch.len(),
                    names == mic_users.deep_view(),
                    watch == watched.deep_view(),
                    names[i as int] == mic_users@[i as int]@,
                    found ==> spec_watched_found(names, watch),
                    !found ==> forall|j2: int| 0 <= j2 < j ==> names[i as int] != #[trigger] watch[j2],
                decreases m - j,
            {
                assert(watched.deep_view()[j as int] == watched@[j as int]@);
                if str_eq(mic_users[i].as_str(), watched[j].as_str()) {
                    found = true;
                    assert(names[i as int] == watch[j as int]);
                }
                j += 1;
            }
            if !found {
                i += 1;
            } else {
                i = n;
            }
        }
        if found {
            self.used = true;
            DndAction::SetDnd
        } else if self.used {
            self.used = false;
            DndAction::SetOnline
        } else {
            self.used = false;
            DndAction::Keep
        }
    }
}

} // verus!
