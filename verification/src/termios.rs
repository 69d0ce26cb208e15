//! Terminal mode handling: the flag arithmetic of raw mode and the record of
//! the mode that has to come back when a session ends.

use vstd::prelude::*;

verus! {

/// The terminal attributes a session saved when it entered raw mode, and
/// whether they have been handed back for restoring yet.
pub struct TerminalView {
    pub saved_lflag: u32,
    pub restored: bool,
}

/// The local-mode flags that the controlling terminal had before raw mode.
///
/// A value is made once, when raw mode is entered, and gives its flags back
/// exactly once: the first `restore` returns them, every later one returns
/// nothing.
#[derive(Debug, PartialEq, Eq)]
pub struct TerminalState {
    saved_lflag: u32,
    restored: bool,
}

impl View for TerminalState {
    type V = TerminalView;

    closed spec fn view(&self) -> TerminalView {
        TerminalView { saved_lflag: self.saved_lflag, restored: self.restored }
    }
}

/// The local-mode flags of raw mode: `lflag` without the bits of `echo` and
/// of `icanon`.
pub open spec fn raw_lflag_spec(lflag: u32, echo: u32, icanon: u32) -> u32 {
    lflag & !(echo | icanon)
}

/// Clears local echo and canonical input processing in `lflag`, given the
/// platform's flag words for the two, and keeps every other bit.
pub fn raw_lflag(lflag: u32, echo: u32, icanon: u32) -> (raw: u32)
    ensures
        raw == raw_lflag_spec(lflag, echo, icanon),
{
    lflag & !(echo | icanon)
}

/// Raw mode clears both flag words, sets no bit that was clear, and keeps
/// every bit outside the two flag words.
pub proof fn raw_lflag_clears_only_the_two_flags(lflag: u32, echo: u32, icanon: u32)
    ensures
        raw_lflag_spec(lflag, echo, icanon) & echo == 0,
        raw_lflag_spec(lflag, echo, icanon) & icanon == 0,
        raw_lflag_spec(lflag, echo, icanon) | (lflag & (echo | icanon)) == lflag,
        raw_lflag_spec(lflag, echo, icanon) & !lflag == 0,
{
    assert((lflag & !(echo | icanon)) & echo == 0) by (bit_vector);
    assert((lflag & !(echo | icanon)) & icanon == 0) by (bit_vector);
    assert((lflag & !(echo | icanon)) | (lflag & (echo | icanon)) == lflag) by (bit_vector);
    assert((lflag & !(echo | icanon)) & !lflag == 0) by (bit_vector);
}

/// Entering raw mode twice changes nothing the second time.
pub proof fn raw_lflag_is_idempotent(lflag: u32, echo: u32, icanon: u32)
    ensures
        raw_lflag_spec(raw_lflag_spec(lflag, echo, icanon), echo, icanon) == raw_lflag_spec(
            lflag,
            echo,
            icanon,
        ),
{
    assert((lflag & !(echo | icanon)) & !(echo | icanon) == lflag & !(echo | icanon))
        by (bit_vector);
}

/// The flag word of local echo: the `termios` crate's constant `ECHO`, which
/// is 0x8 on every platform the crate knows.
#[verifier::external_body]
fn echo_flag() -> (flag: u32)
    ensures
        flag == 0x8,
{
    ::termios::ECHO as u32
}

/// The flag word of canonical input processing: the `termios` crate's
/// constant `ICANON`, which is 0x2 on Linux, Android, Solaris and illumos and
/// 0x100 on macOS and the BSDs.
#[verifier::external_body]
fn icanon_flag() -> (flag: u32)
    ensures
        flag == 0x2 || flag == 0x100,
{
    ::termios::ICANON as u32
}

/// The local-mode flags to apply for raw mode on this platform: `lflag`
/// without the platform's bits for echo and canonical mode.
///
/// The echo bit is the same everywhere; the bit of canonical mode is one of
/// two, and which one is not known to the proof.
pub fn raw_mode_lflag(lflag: u32) -> (raw: u32)
    ensures
        raw == raw_lflag_spec(lflag, 0x8, 0x2) || raw == raw_lflag_spec(lflag, 0x8, 0x100),
{
    raw_lflag(lflag, echo_flag(), icanon_flag())
}

impl TerminalState {
    /// Records `lflag` as the flags to come back to.
    pub fn capture(lflag: u32) -> (state: TerminalState)
        ensures
            state@ == (TerminalView { saved_lflag: lflag, restored: false }),
    {
        TerminalState { saved_lflag: lflag, restored: false }
    }

    /// The saved flags.
    pub fn saved_lflag(&self) -> (lflag: u32)
        ensures
            lflag == self@.saved_lflag,
    {
        self.saved_lflag
    }

    /// Whether the saved flags have been handed back already.
    pub fn is_restored(&self) -> (restored: bool)
        ensures
            restored == self@.restored,
    {
        self.restored
    }

    /// Hands back the saved flags for restoring, the first time only.
    pub fn restore(&mut self) -> (lflag: Option<u32>)
        ensures
            final(self)@ == (TerminalView { saved_lflag: old(self)@.saved_lflag, restored: true }),
            lflag == if old(self)@.restored {
                None
            } else {
                Some(old(self)@.saved_lflag)
            },
    {
        if self.restored {
            None
        } else {
            self.restored = true;
            Some(self.saved_lflag)
        }
    }
}

} // verus!
