//! What the daemon's diagnostics interface reports to desktop environments:
//! the command-line flags detected Electron apps should use, and a status
//! snapshot for debugging.
use vstd::prelude::*;
use crate::text::{owned, push_decimal, push_str, spec_decimal};

verus! {

/// IME diagnostics exposed to desktop environments.
#[derive(Clone, Debug)]
pub struct ImeDiagnostics {
    pub electron_pids: Vec<u32>,
    /// Current input method name (e.g. "Telex", "VNI", "VIQR").
    pub input_method: String,
    /// Backend name (e.g. "ibus", "wayland", "x11", "fcitx5", "portal").
    pub backend: String,
}

/// The process ids in decimal, separated by commas.
pub open spec fn joined_pids(pids: Seq<u32>) -> Seq<char>
    decreases pids.len(),
{
    if pids.len() == 0 {
        Seq::empty()
    } else if pids.len() == 1 {
        spec_decimal(pids[0] as nat)
    } else {
        joined_pids(pids.drop_last()) + ","@ + spec_decimal(pids.last() as nat)
    }
}

/// The status entries as `(key, value)` character sequences.
pub open spec fn entries_view(v: Seq<(String, String)>) -> Seq<(Seq<char>, Seq<char>)> {
    Seq::new(v.len(), |i: int| (v[i].0@, v[i].1@))
}

impl ImeDiagnostics {
    /// The command-line flags detected Electron apps should use: the Wayland
    /// Ozone flags, or none when no Electron process was detected.
    pub fn suggest_electron_flags(&self) -> (flags: Vec<String>)
        ensures
            self.electron_pids@.len() == 0 ==> flags@.len() == 0,
            self.electron_pids@.len() > 0 ==> flags@.len() == 2 && flags@[0]@
                == "--ozone-platform=wayland"@ && flags@[1]@ == "--enable-features=UseOzonePlatform"@,
    {
        let mut flags: Vec<String> = Vec::new();
        if self.electron_pids.len() > 0 {
            flags.push(owned("--ozone-platform=wayland"));
            flags.push(owned("--enable-features=UseOzonePlatform"));
        }
        flags
    }

    /// A status snapshot: the input method, the backend, and the detected
    /// Electron process ids joined by commas (empty when there are none).
    pub fn get_status(&self) -> (status: Vec<(String, String)>)
        ensures
            entries_view(status@) == seq![
                ("input_method"@, self.input_method@),
                ("backend"@, self.backend@),
                ("electron_pids"@, joined_pids(self.electron_pids@)),
            ],
    {
        let mut pids = String::new();
        let mut i: usize = 0;
        while i < self.electron_pids.len()
            invariant
                i <= self.electron_pids.len(),
                pids@ == joined_pids(self.electron_pids@.take(i as int)),
            decreases self.electron_pids.len() - i,
        {
            if i > 0 {
                push_str(&mut pids, ",");
            }
            push_decimal(&mut pids, self.electron_pids[i] as u64);
            assert(self.electron_pids@.take(i + 1).drop_last() == self.electron_pids@.take(i as int));
            i = i + 1;
        }
        assert(self.electron_pids@.take(self.electron_pids.len() as int) == self.electron_pids@);
        let mut status: Vec<(String, String)> = Vec::new();
        status.push((owned("input_method"), self.input_method.clone()));
        status.push((owned("backend"), self.backend.clone()));
        status.push((owned("electron_pids"), pids));
        assert(entries_view(status@) =~= seq![
            ("input_method"@, self.input_method@),
            ("backend"@, self.backend@),
            ("electron_pids"@, joined_pids(self.electron_pids@)),
        ]);
        status
    }
}

} // verus!
