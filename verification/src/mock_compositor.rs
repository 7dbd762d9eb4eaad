//! A mock Wayland compositor for integration testing: the protocol globals
//! each compositor profile advertises, and the commits and preedit updates a
//! client sends it. Binding the socket is done by the caller.
use vstd::prelude::*;
use crate::text::{owned, push_decimal, push_str, spec_decimal};

verus! {

/// Which compositor behaviour to emulate.
#[derive(Clone, Copy, Debug, PartialEq, Eq, Structural)]
pub enum CompositorProfile {
    Gnome,
    KdeWayland,
    Sway,
    Minimal,
    /// Hyprland compositor — advertises `hyprland_global_shortcuts_manager_v1`.
    Hyprland,
    /// Niri compositor — advertises `niri_ipc`.
    Niri,
}

impl CompositorProfile {
    /// The Wayland globals the profile advertises beyond the core ones.
    pub open spec fn spec_globals(self) -> Seq<Seq<char>> {
        match self {
            CompositorProfile::Gnome => seq!["zwp_text_input_manager_v3"@, "gtk_shell_v1"@],
            CompositorProfile::KdeWayland => seq!["zwp_text_input_manager_v3"@, "org_kde_plasma_shell"@],
            CompositorProfile::Sway => seq!["zwp_text_input_manager_v3"@],
            CompositorProfile::Minimal => Seq::empty(),
            CompositorProfile::Hyprland => seq![
                "zwp_text_input_manager_v3"@,
                "hyprland_global_shortcuts_manager_v1"@,
            ],
            CompositorProfile::Niri => seq!["zwp_text_input_manager_v3"@, "niri_ipc"@],
        }
    }

    /// The Wayland global interface names this profile advertises in the
    /// registry (beyond the core globals every compositor exposes).
    pub fn advertised_globals(&self) -> (g: Vec<&'static str>)
        ensures
            g@.len() == self.spec_globals().len(),
            forall|i: int| 0 <= i < g@.len() ==> #[trigger] g@[i]@ == self.spec_globals()[i],
    {
        let mut g: Vec<&'static str> = Vec::new();
        match self {
            CompositorProfile::Gnome => {
                g.push("zwp_text_input_manager_v3");
                g.push("gtk_shell_v1");
            },
            CompositorProfile::KdeWayland => {
                g.push("zwp_text_input_manager_v3");
                g.push("org_kde_plasma_shell");
            },
            CompositorProfile::Sway => {
                g.push("zwp_text_input_manager_v3");
            },
            CompositorProfile::Minimal => {},
            CompositorProfile::Hyprland => {
                g.push("zwp_text_input_manager_v3");
                g.push("hyprland_global_shortcuts_manager_v1");
            },
            CompositorProfile::Niri => {
                g.push("zwp_text_input_manager_v3");
                g.push("niri_ipc");
            },
        }
        g
    }

    /// The profile advertises `name`.
    pub fn advertises(&self, name: &str) -> (b: bool)
        ensures
            b == self.spec_globals().contains(name@),
    {
        let g = self.advertised_globals();
        let mut i: usize = 0;
        while i < g.len()
            invariant
                i <= g.len(),
                g@.len() == self.spec_globals().len(),
                forall|k: int| 0 <= k < g@.len() ==> #[trigger] g@[k]@ == self.spec_globals()[k],
                forall|k: int| 0 <= k < i ==> self.spec_globals()[k] != name@,
            decreases g.len() - i,
        {
            if crate::text::same_text(g[i], name) {
                assert(self.spec_globals()[i as int] == name@);
                return true;
            }
            i = i + 1;
        }
        false
    }
}

/// Every profile other than the minimal one offers the text-input protocol.
pub proof fn lemma_profiles_offer_text_input(p: CompositorProfile)
    ensures
        p != CompositorProfile::Minimal ==> p.spec_globals().contains("zwp_text_input_manager_v3"@),
        p == CompositorProfile::Minimal ==> p.spec_globals().len() == 0,
{
    if p != CompositorProfile::Minimal {
        assert(p.spec_globals()[0] == "zwp_text_input_manager_v3"@);
    }
}

/// A preedit update event recorded by the mock.
#[derive(Clone, Debug)]
pub struct PreeditUpdate {
    pub text: String,
    pub cursor_begin: i32,
    pub cursor_end: i32,
}

/// A mock Wayland compositor that records commits and preedit updates.
pub struct MockCompositor {
    pub socket_name: String,
    pub socket_dir: String,
    pub profile: CompositorProfile,
    pub commits: Vec<String>,
    pub preedit_updates: Vec<PreeditUpdate>,
}

/// The name of the mock's socket for process `pid`: `wayland-mock-{pid}`.
pub fn mock_socket_name(pid: u32) -> (s: String)
    ensures
        s@ == "wayland-mock-"@ + spec_decimal(pid as nat),
{
    let mut s = owned("wayland-mock-");
    push_decimal(&mut s, pid as u64);
    s
}

/// The recorded strings as character sequences.
pub open spec fn text_list(v: Seq<String>) -> Seq<Seq<char>> {
    Seq::new(v.len(), |i: int| v[i]@)
}

/// `is_nfc` of the `unicode-normalization` crate: the text is in Unicode
/// Normalization Form C.
pub uninterp spec fn is_nfc_text(s: Seq<char>) -> bool;

/// Calls `unicode_normalization::is_nfc`, which answers authoritatively
/// whether `s` is in NFC; the contract names that answer and states nothing
/// more about it.
#[verifier::external_body]
fn check_nfc(s: &str) -> (b: bool)
    ensures
        b == is_nfc_text(s@),
{
    unicode_normalization::is_nfc(s)
}

impl MockCompositor {
    /// A mock for `profile` listening at `socket_dir/socket_name`, with
    /// nothing received yet.
    pub fn new(profile: CompositorProfile, socket_dir: String, socket_name: String) -> (m: Self)
        ensures
            m.profile == profile,
            m.socket_dir@ == socket_dir@,
            m.socket_name@ == socket_name@,
            m.commits@.len() == 0,
            m.preedit_updates@.len() == 0,
    {
        MockCompositor { socket_name, socket_dir, profile, commits: Vec::new(), preedit_updates: Vec::new() }
    }

    /// The socket path: `{socket_dir}/{socket_name}`.
    pub fn socket_path(&self) -> (p: String)
        ensures
            p@ == self.socket_dir@ + "/"@ + self.socket_name@,
    {
        let mut p = self.socket_dir.clone();
        push_str(&mut p, "/");
        push_str(&mut p, self.socket_name.as_str());
        p
    }

    /// Record a commit sent by a client.
    pub fn receive_commit(&mut self, text: &str)
        ensures
            final(self).commits@.len() == old(self).commits@.len() + 1,
            text_list(final(self).commits@) == text_list(old(self).commits@).push(text@),
            final(self).preedit_updates@ == old(self).preedit_updates@,
            final(self).profile == old(self).profile,
    {
        let ghost before = self.commits@;
        self.commits.push(owned(text));
        assert(text_list(self.commits@) =~= text_list(before).push(text@));
    }

    /// Record a preedit update sent by a client.
    pub fn receive_preedit(&mut self, update: PreeditUpdate)
        ensures
            final(self).preedit_updates@ == old(self).preedit_updates@.push(update),
            final(self).commits@ == old(self).commits@,
            final(self).profile == old(self).profile,
    {
        self.preedit_updates.push(update);
    }

    /// Commits sent by clients via the text-input protocol, in order.
    pub fn received_commits(&self) -> (c: Vec<String>)
        ensures
            text_list(c@) == text_list(self.commits@),
    {
        let mut c: Vec<String> = Vec::new();
        let mut i: usize = 0;
        while i < self.commits.len()
            invariant
                i <= self.commits.len(),
                text_list(c@) == text_list(self.commits@).take(i as int),
            decreases self.commits.len() - i,
        {
            let ghost before = c@;
            c.push(self.commits[i].clone());
            assert(text_list(c@) =~= text_list(before).push(self.commits@[i as int]@));
            assert(text_list(self.commits@).take(i + 1) =~= text_list(self.commits@).take(i as int).push(
                self.commits@[i as int]@,
            ));
            i = i + 1;
        }
        assert(text_list(self.commits@).take(self.commits.len() as int) =~= text_list(self.commits@));
        c
    }

    /// Preedit updates received from clients, in order.
    pub fn received_preedit_updates(&self) -> (u: Vec<PreeditUpdate>)
        ensures
            u@.len() == self.preedit_updates@.len(),
            forall|i: int| 0 <= i < u@.len() ==> #[trigger] u@[i].text@ == self.preedit_updates@[i].text@
                && u@[i].cursor_begin == self.preedit_updates@[i].cursor_begin && u@[i].cursor_end
                == self.preedit_updates@[i].cursor_end,
    {
        let mut u: Vec<PreeditUpdate> = Vec::new();
        let mut i: usize = 0;
        while i < self.preedit_updates.len()
            invariant
                i <= self.preedit_updates.len(),
                u@.len() == i,
                forall|k: int| 0 <= k < i ==> #[trigger] u@[k].text@ == self.preedit_updates@[k].text@
                    && u@[k].cursor_begin == self.preedit_updates@[k].cursor_begin && u@[k].cursor_end
                    == self.preedit_updates@[k].cursor_end,
            decreases self.preedit_updates.len() - i,
        {
            let p = &self.preedit_updates[i];
            u.push(PreeditUpdate { text: p.text.clone(), cursor_begin: p.cursor_begin, cursor_end: p.cursor_end });
            i = i + 1;
        }
        u
    }

    /// Check that every commit is in NFC form: `Err(i)` names the first
    /// commit that is not.
    pub fn assert_all_commits_nfc(&self) -> (r: Result<(), usize>)
        ensures
            r is Ok <==> forall|i: int| 0 <= i < self.commits@.len() ==> #[trigger] is_nfc_text(self.commits@[i]@),
            r matches Err(i) ==> i < self.commits@.len() && !is_nfc_text(self.commits@[i as int]@) && forall|
                k: int,
            | 0 <= k < i ==> #[trigger] is_nfc_text(self.commits@[k]@),
    {
        let mut i: usize = 0;
        while i < self.commits.len()
            invariant
                i <= self.commits.len(),
                forall|k: int| 0 <= k < i ==> #[trigger] is_nfc_text(self.commits@[k]@),
            decreases self.commits.len() - i,
        {
            if !check_nfc(self.commits[i].as_str()) {
                return Err(i);
            }
            i = i + 1;
        }
        Ok(())
    }

    /// The profile advertises `global_name` in the Wayland registry (the
    /// assertion is met by the precondition; nothing is left to check).
    pub fn assert_advertises_global(&self, global_name: &str)
        requires
            self.profile.spec_globals().contains(global_name@),
    {
    }
}

} // verus!
