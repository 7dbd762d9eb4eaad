//! Daemon lifecycle decisions: the preedit snapshot kept across a graceful
//! restart, systemd notifications and the watchdog heartbeat, and the
//! backoff of the backend reconnect loop.
use vstd::prelude::*;
use crate::text::{chars_of, char_len, owned, push_decimal, push_str, spec_decimal, trim, trim_of};

verus! {

// ── Preedit snapshot ─────────────────────────────────────────────────────────

/// Preedit snapshot written to disk on SIGTERM for a graceful restart.
#[derive(Clone, Debug)]
pub struct PreeditSnapshot {
    pub preedit: String,
    /// Cursor position expressed as a Unicode scalar count (not a byte offset).
    pub cursor: usize,
    pub method: String,
}

impl PreeditSnapshot {
    /// The file the snapshot of user `uid` is kept in.
    pub open spec fn spec_path(uid: u32) -> Seq<char> {
        "/tmp/vi-daemon-"@ + spec_decimal(uid as nat) + "-preedit.json"@
    }

    /// The file the snapshot of user `uid` is kept in:
    /// `/tmp/vi-daemon-{uid}-preedit.json`.
    pub fn snapshot_path(uid: u32) -> (p: String)
        ensures
            p@ == Self::spec_path(uid),
    {
        let mut p = owned("/tmp/vi-daemon-");
        push_decimal(&mut p, uid as u64);
        push_str(&mut p, "-preedit.json");
        p
    }

    /// The lock file taken while the snapshot is written: the snapshot path
    /// with `.lock` appended.
    pub fn lock_path(uid: u32) -> (p: String)
        ensures
            p@ == Self::spec_path(uid) + ".lock"@,
    {
        let mut p = Self::snapshot_path(uid);
        push_str(&mut p, ".lock");
        p
    }

    /// The file written first and then renamed over the snapshot: the
    /// snapshot path with `.tmp` appended.
    pub fn temp_path(uid: u32) -> (p: String)
        ensures
            p@ == Self::spec_path(uid) + ".tmp"@,
    {
        let mut p = Self::snapshot_path(uid);
        push_str(&mut p, ".tmp");
        p
    }

    /// The snapshot taken at shutdown: the flushed preedit with the cursor at
    /// its end, and the current method.
    pub fn at_shutdown(preedit: String, method: String) -> (s: Self)
        ensures
            s.preedit@ == preedit@,
            s.cursor == preedit@.len(),
            s.method@ == method@,
    {
        let cursor = char_len(preedit.as_str());
        PreeditSnapshot { preedit, cursor, method }
    }

    /// A loaded snapshot is used only when its cursor lies within the preedit.
    pub fn validated(self) -> (r: Option<Self>)
        ensures
            self.cursor <= self.preedit@.len() ==> r == Some(self),
            self.cursor > self.preedit@.len() ==> r is None,
    {
        let n = char_len(self.preedit.as_str());
        if self.cursor > n {
            None
        } else {
            Some(self)
        }
    }
}

// ── systemd notifications ────────────────────────────────────────────────────

/// Where a notification goes.
#[derive(Clone, Debug)]
pub enum NotifyTarget {
    /// An abstract Unix socket (the name after the leading `@`).
    Abstract(String),
    /// A Unix socket at this path.
    Path(String),
}

/// A notification to send to systemd.
#[derive(Clone, Debug)]
pub struct Notification {
    pub target: NotifyTarget,
    pub message: String,
}

/// Where a notification to `$NOTIFY_SOCKET` goes: nowhere when the variable
/// is unset, an abstract socket when it starts with `@`, else a path.
pub open spec fn spec_notify_target(socket: Option<Seq<char>>) -> Option<(bool, Seq<char>)> {
    match socket {
        None => None,
        Some(s) => if s.len() > 0 && s[0] == '@' {
            Some((true, s.drop_first()))
        } else {
            Some((false, s))
        },
    }
}

/// The notification `msg` for the socket named by `$NOTIFY_SOCKET` (`None`
/// when unset, in which case nothing is sent and the send counts as done).
pub fn sd_notify_plan(notify_socket: Option<&str>, msg: &str) -> (n: Option<Notification>)
    ensures
        match spec_notify_target(
            match notify_socket {
                Some(s) => Some(s@),
                None => None,
            },
        ) {
            None => n is None,
            Some((is_abstract, name)) => n matches Some(note) && note.message@ == msg@ && match note.target {
                NotifyTarget::Abstract(a) => is_abstract && a@ == name,
                NotifyTarget::Path(p) => !is_abstract && p@ == name,
            },
        },
{
    match notify_socket {
        None => None,
        Some(s) => {
            let cs = chars_of(s);
            let target = if cs.len() > 0 && cs[0] == '@' {
                NotifyTarget::Abstract(crate::text::string_from_chars_from(cs.as_slice(), 1))
            } else {
                NotifyTarget::Path(owned(s))
            };
            Some(Notification { target, message: owned(msg) })
        },
    }
}

/// Tell systemd that the service is ready (`READY=1`): the notification to
/// send, if `$NOTIFY_SOCKET` names a socket.
pub fn notify_ready(notify_socket: Option<&str>) -> (n: Option<Notification>)
    ensures
        notify_socket is None <==> n is None,
        n matches Some(note) ==> note.message@ == "READY=1"@,
        match spec_notify_target(
            match notify_socket {
                Some(s) => Some(s@),
                None => None,
            },
        ) {
            None => n is None,
            Some((is_abstract, name)) => n matches Some(note) && match note.target {
                NotifyTarget::Abstract(a) => is_abstract && a@ == name,
                NotifyTarget::Path(p) => !is_abstract && p@ == name,
            },
        },
{
    sd_notify_plan(notify_socket, "READY=1")
}

// ── Watchdog ─────────────────────────────────────────────────────────────────

/// The heartbeat period, in microseconds, for a watchdog timeout of
/// `watchdog_usec`: half the timeout, at least one microsecond.
pub open spec fn spec_heartbeat_period(watchdog_usec: u64) -> u64 {
    if watchdog_usec / 2 >= 1 { watchdog_usec / 2 } else { 1 }
}

/// The heartbeat period, in microseconds, for a watchdog timeout.
pub fn heartbeat_period_us(watchdog_usec: u64) -> (p: u64)
    ensures
        p == spec_heartbeat_period(watchdog_usec),
{
    let half = watchdog_usec / 2;
    if half >= 1 { half } else { 1 }
}

/// A heartbeat always comes before the watchdog expires (for any timeout of
/// at least two microseconds), and is never zero.
pub proof fn lemma_heartbeat_within_timeout(watchdog_usec: u64)
    ensures
        spec_heartbeat_period(watchdog_usec) >= 1,
        watchdog_usec >= 2 ==> spec_heartbeat_period(watchdog_usec) < watchdog_usec,
        watchdog_usec >= 2 ==> 2 * spec_heartbeat_period(watchdog_usec) <= watchdog_usec,
{
}

/// How many failed heartbeats in a row end the watchdog task.
pub const MAX_HEARTBEAT_FAILURES: u32 = 3;

/// Counts consecutive heartbeat failures.
pub struct HeartbeatMonitor {
    pub consecutive_failures: u32,
}

impl HeartbeatMonitor {
    pub fn new() -> (m: Self)
        ensures
            m.consecutive_failures == 0,
    {
        HeartbeatMonitor { consecutive_failures: 0 }
    }

    /// Record the outcome of one heartbeat; returns whether heartbeats go on.
    /// A success clears the count; the third failure in a row stops them.
    pub fn record(&mut self, sent: bool) -> (keep_going: bool)
        requires
            old(self).consecutive_failures < MAX_HEARTBEAT_FAILURES,
        ensures
            sent ==> final(self).consecutive_failures == 0 && keep_going,
            !sent ==> final(self).consecutive_failures == old(self).consecutive_failures + 1
                && keep_going == (final(self).consecutive_failures < MAX_HEARTBEAT_FAILURES),
            final(self).consecutive_failures <= MAX_HEARTBEAT_FAILURES,
    {
        if sent {
            self.consecutive_failures = 0;
            true
        } else {
            self.consecutive_failures = self.consecutive_failures + 1;
            self.consecutive_failures < MAX_HEARTBEAT_FAILURES
        }
    }
}

// ── Reconnect backoff ────────────────────────────────────────────────────────

/// The first delay of the reconnect loop, in milliseconds.
pub const INITIAL_RECONNECT_DELAY_MS: u64 = 100;
/// The longest delay of the reconnect loop, in milliseconds.
pub const MAX_RECONNECT_DELAY_MS: u64 = 30_000;

/// The delay after an attempt: back to the initial delay after a success,
/// doubled (up to the maximum) after a failure.
pub open spec fn spec_next_delay(delay: u64, reconnected: bool) -> u64 {
    if reconnected {
        INITIAL_RECONNECT_DELAY_MS
    } else if 2 * delay < MAX_RECONNECT_DELAY_MS {
        (2 * delay) as u64
    } else {
        MAX_RECONNECT_DELAY_MS
    }
}

/// The delay of the reconnect loop before its next attempt.
pub struct ReconnectBackoff {
    pub delay_ms: u64,
}

impl ReconnectBackoff {
    pub fn new() -> (b: Self)
        ensures
            b.delay_ms == INITIAL_RECONNECT_DELAY_MS,
    {
        ReconnectBackoff { delay_ms: INITIAL_RECONNECT_DELAY_MS }
    }

    /// The delay is one the loop can have.
    pub open spec fn wf(&self) -> bool {
        INITIAL_RECONNECT_DELAY_MS <= self.delay_ms <= MAX_RECONNECT_DELAY_MS
    }

    /// Record the outcome of a reconnect attempt.
    pub fn record(&mut self, reconnected: bool)
        requires
            old(self).wf(),
        ensures
            final(self).wf(),
            final(self).delay_ms == spec_next_delay(old(self).delay_ms, reconnected),
    {
        if reconnected {
            self.delay_ms = INITIAL_RECONNECT_DELAY_MS;
        } else if 2 * self.delay_ms < MAX_RECONNECT_DELAY_MS {
            self.delay_ms = 2 * self.delay_ms;
        } else {
            self.delay_ms = MAX_RECONNECT_DELAY_MS;
        }
    }
}

/// The delay after `n` failed attempts in a row, starting from the initial one.
pub open spec fn delay_after_failures(n: nat) -> u64
    decreases n,
{
    if n == 0 {
        INITIAL_RECONNECT_DELAY_MS
    } else {
        spec_next_delay(delay_after_failures((n - 1) as nat), false)
    }
}

/// However many attempts fail, the delay stays between the initial delay and
/// the maximum, never shrinks, and reaches the maximum after nine failures.
pub proof fn lemma_backoff_bounds(n: nat)
    ensures
        INITIAL_RECONNECT_DELAY_MS <= delay_after_failures(n) <= MAX_RECONNECT_DELAY_MS,
        delay_after_failures(n) <= delay_after_failures(n + 1),
        n >= 9 ==> delay_after_failures(n) == MAX_RECONNECT_DELAY_MS,
    decreases n,
{
    if n > 0 {
        lemma_backoff_bounds((n - 1) as nat);
    }
    if n >= 9 {
        if n == 9 {
            reveal_with_fuel(delay_after_failures, 10);
            assert(delay_after_failures(9) == MAX_RECONNECT_DELAY_MS);
        }
    }
}


// ── Spell checking ───────────────────────────────────────────────────────────

/// The spell-check settings of a profile.
#[derive(Clone, Copy, Debug, Default)]
pub struct SpellCheckSettings {
    pub enabled: bool,
    pub commit_with_dictionary: bool,
    pub dd_freestyle: bool,
}

/// How the engine checks spelling.
#[derive(Clone, Copy, Debug)]
pub struct SpellOptions {
    /// The loaded dictionary is handed to the engine.
    pub use_dictionary: bool,
    /// Commits are checked against the dictionary.
    pub commit_spell_check_dict: bool,
    pub dd_freestyle: bool,
}

/// The spell options for the active profile's settings (`None` when the
/// profile does not exist, which reads as all settings off) and whether a
/// dictionary was loaded: the dictionary is used only when spell checking and
/// committing with the dictionary are both enabled and a dictionary exists.
pub fn spell_options_from_config(settings: Option<SpellCheckSettings>, dictionary_loaded: bool) -> (o: SpellOptions)
    ensures
        ({
            let sc = match settings {
                Some(s) => s,
                None => SpellCheckSettings { enabled: false, commit_with_dictionary: false, dd_freestyle: false },
            };
            &&& o.dd_freestyle == sc.dd_freestyle
            &&& o.use_dictionary == (sc.enabled && sc.commit_with_dictionary && dictionary_loaded)
            &&& o.commit_spell_check_dict == o.use_dictionary
        }),
{
    let sc = match settings {
        Some(s) => s,
        None => SpellCheckSettings { enabled: false, commit_with_dictionary: false, dd_freestyle: false },
    };
    if !sc.enabled || !sc.commit_with_dictionary {
        return SpellOptions { use_dictionary: false, commit_spell_check_dict: false, dd_freestyle: sc.dd_freestyle };
    }
    if dictionary_loaded {
        SpellOptions { use_dictionary: true, commit_spell_check_dict: true, dd_freestyle: sc.dd_freestyle }
    } else {
        SpellOptions { use_dictionary: false, commit_spell_check_dict: false, dd_freestyle: sc.dd_freestyle }
    }
}

/// The dictionary file named by `$VIME_VIETNAMESE_DICT` (`None` when unset),
/// with surrounding whitespace trimmed.
pub fn dictionary_override_path(var: Option<&str>) -> (p: Option<String>)
    ensures
        var is None ==> p is None,
        var matches Some(v) ==> (p matches Some(t) && t@ == trim_of(v@)),
{
    match var {
        None => None,
        Some(v) => Some(trim(v)),
    }
}

} // verus!
