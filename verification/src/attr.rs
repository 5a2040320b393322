//! The terminal attributes that the game changes while it runs: the local
//! modes for canonical input, echo and signals, and the two control values
//! of a read in non-canonical mode.

use vstd::prelude::*;

verus! {

/// The attributes of a terminal that the game reads and changes.
#[derive(Clone, Copy, Debug, PartialEq, Eq, Structural)]
pub struct TermAttr {
    /// The flags of the local modes.
    pub lflag: u64,
    /// The time that a read waits for input, in tenths of a second.
    pub vtime: u8,
    /// The number of bytes that a read waits for.
    pub vmin: u8,
}

/// The flags of three local modes: canonical input, echo, and signals.
#[derive(Clone, Copy, Debug, PartialEq, Eq, Structural)]
pub struct LocalModes {
    pub canonical: u64,
    pub echo: u64,
    pub signals: u64,
}

impl LocalModes {
    /// Whether these are the flags that a platform gives the three modes:
    /// those of Linux and the systems that share its numbering, or those of
    /// the BSDs and macOS.
    pub open spec fn of_a_platform(self) -> bool {
        &&& self.canonical == 0x2 || self.canonical == 0x100
        &&& self.echo == 0x8
        &&& self.signals == 0x1 || self.signals == 0x80
    }

    /// The flags of the three modes together.
    pub open spec fn all(self) -> u64 {
        self.canonical | self.echo | self.signals
    }

    /// The flags of those of the three modes that are switched on.
    pub open spec fn chosen(self, canon: bool, echo: bool, sigint: bool) -> u64 {
        (if canon {
            self.canonical
        } else {
            0
        }) | (if echo {
            self.echo
        } else {
            0
        }) | (if sigint {
            self.signals
        } else {
            0
        })
    }
}

/// The local-mode flags after the three modes were switched: the flags of
/// the three modes are cleared, those of the modes switched on are set
/// again, and every other flag stays as it is.
pub open spec fn switched(
    lflag: u64,
    modes: LocalModes,
    canon: bool,
    echo: bool,
    sigint: bool,
) -> u64 {
    (lflag & !modes.all()) | modes.chosen(canon, echo, sigint)
}

/// `termios::ICANON`: the flag of canonical input on this platform. It is
/// 0x2 on Linux and the systems that share its numbering, and 0x100 on the
/// BSDs and macOS.
#[verifier::external_body]
fn canonical_flag() -> (flag: u64)
    ensures
        flag == 0x2 || flag == 0x100,
{
    termios::ICANON as u64
}

/// `termios::ECHO`: the flag of input echo, 0x8 on every platform.
#[verifier::external_body]
fn echo_flag() -> (flag: u64)
    ensures
        flag == 0x8,
{
    termios::ECHO as u64
}

/// `termios::ISIG`: the flag of signal characters on this platform. It is
/// 0x1 on Linux and the systems that share its numbering, and 0x80 on the
/// BSDs and macOS.
#[verifier::external_body]
fn signals_flag() -> (flag: u64)
    ensures
        flag == 0x1 || flag == 0x80,
{
    termios::ISIG as u64
}

/// Switches three local modes in `lflag` on or off and leaves the other
/// flags alone.
pub fn switch_local_modes(
    lflag: u64,
    modes: LocalModes,
    canon: bool,
    echo: bool,
    sigint: bool,
) -> (flags: u64)
    ensures
        flags == switched(lflag, modes, canon, echo, sigint),
        flags & !modes.all() == lflag & !modes.all(),
        flags & modes.all() == modes.chosen(canon, echo, sigint),
{
    let all: u64 = modes.canonical | modes.echo | modes.signals;
    let mut val: u64 = 0;
    val = val | if canon {
        modes.canonical
    } else {
        0
    };
    val = val | if echo {
        modes.echo
    } else {
        0
    };
    val = val | if sigint {
        modes.signals
    } else {
        0
    };
    let flags = (lflag & !all) | val;
    proof {
        let c = modes.canonical;
        let e = modes.echo;
        let s = modes.signals;
        let a = if canon {
            c
        } else {
            0
        };
        let b = if echo {
            e
        } else {
            0
        };
        let d = if sigint {
            s
        } else {
            0
        };
        assert(((0u64 | a) | b) | d == a | b | d) by (bit_vector);
        assert(val == modes.chosen(canon, echo, sigint));
        assert(((lflag & !(c | e | s)) | (a | b | d)) & !(c | e | s) == lflag & !(c | e | s))
            by (bit_vector)
            requires
                a == c || a == 0,
                b == e || b == 0,
                d == s || d == 0,
        ;
        assert(((lflag & !(c | e | s)) | (a | b | d)) & (c | e | s) == a | b | d) by (bit_vector)
            requires
                a == c || a == 0,
                b == e || b == 0,
                d == s || d == 0,
        ;
    }
    flags
}

/// The attributes as the game wants them, from the attributes as they are:
/// canonical input, echo and signals are switched as `cfg.0`, `cfg.1` and
/// `cfg.2` say, and a read waits `cfg.3` tenths of a second for `cfg.4`
/// bytes. All other flags stay as they are.
pub fn set_terminal_attr(attr: TermAttr, cfg: (bool, bool, bool, u8, u8)) -> (set: TermAttr)
    ensures
        set.vtime == cfg.3,
        set.vmin == cfg.4,
        exists|modes: LocalModes|
            modes.of_a_platform() && set.lflag == #[trigger] switched(
                attr.lflag,
                modes,
                cfg.0,
                cfg.1,
                cfg.2,
            ),
        set.lflag & 0x8 == (if cfg.1 {
            0x8u64
        } else {
            0u64
        }),
        set.lflag & !0x18bu64 == attr.lflag & !0x18bu64,
{
    let (canon, echo, sigint, vtime, vmin) = cfg;
    let modes = LocalModes {
        canonical: canonical_flag(),
        echo: echo_flag(),
        signals: signals_flag(),
    };
    let lflag = switch_local_modes(attr.lflag, modes, canon, echo, sigint);
    proof {
        let old = attr.lflag;
        let c = modes.canonical;
        let s = modes.signals;
        let a = if canon {
            c
        } else {
            0
        };
        let b = if echo {
            0x8u64
        } else {
            0
        };
        let d = if sigint {
            s
        } else {
            0
        };
        assert(lflag == (old & !(c | 0x8u64 | s)) | (a | b | d));
        assert(((old & !(c | 0x8u64 | s)) | (a | b | d)) & 0x8 == b) by (bit_vector)
            requires
                c == 0x2 || c == 0x100,
                s == 0x1 || s == 0x80,
                a == c || a == 0,
                b == 0x8 || b == 0,
                d == s || d == 0,
        ;
        assert(((old & !(c | 0x8u64 | s)) | (a | b | d)) & !0x18bu64 == old & !0x18bu64)
            by (bit_vector)
            requires
                c == 0x2 || c == 0x100,
                s == 0x1 || s == 0x80,
                a == c || a == 0,
                b == 0x8 || b == 0,
                d == s || d == 0,
        ;
    }
    TermAttr { lflag, vtime, vmin }
}

} // verus!
