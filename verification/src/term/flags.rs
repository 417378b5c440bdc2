//! The platform's numbering of the terminal mode flags and line speeds.
//!
//! Which bit stands for which flag differs between targets, so the numbers are
//! taken from `libc` and carried as a value; the rules of this crate are
//! stated over that value.

use vstd::prelude::*;
use libc::{speed_t, tcflag_t};

verus! {

/// The input-mode flags that are carried from one terminal to another.
#[derive(Clone, Copy, Debug, PartialEq, Eq, Structural)]
pub struct InputBits {
    pub ignpar: tcflag_t,
    pub parmrk: tcflag_t,
    pub inpck: tcflag_t,
    pub istrip: tcflag_t,
    pub inlcr: tcflag_t,
    pub igncr: tcflag_t,
    pub icrnl: tcflag_t,
    pub ixon: tcflag_t,
    pub ixany: tcflag_t,
    pub ixoff: tcflag_t,
    pub imaxbel: tcflag_t,
    pub iutf8: tcflag_t,
}

/// The output-mode flags that are carried from one terminal to another.
#[derive(Clone, Copy, Debug, PartialEq, Eq, Structural)]
pub struct OutputBits {
    pub opost: tcflag_t,
    pub olcuc: tcflag_t,
    pub onlcr: tcflag_t,
    pub ocrnl: tcflag_t,
    pub onocr: tcflag_t,
    pub onlret: tcflag_t,
}

/// The control-mode flags that are carried from one terminal to another.
#[derive(Clone, Copy, Debug, PartialEq, Eq, Structural)]
pub struct ControlBits {
    pub cs7: tcflag_t,
    pub cs8: tcflag_t,
    pub parenb: tcflag_t,
    pub parodd: tcflag_t,
}

/// The local-mode flags that are carried from one terminal to another.
#[derive(Clone, Copy, Debug, PartialEq, Eq, Structural)]
pub struct LocalBits {
    pub isig: tcflag_t,
    pub icanon: tcflag_t,
    pub echo: tcflag_t,
    pub echoe: tcflag_t,
    pub echok: tcflag_t,
    pub echonl: tcflag_t,
    pub noflsh: tcflag_t,
    pub tostop: tcflag_t,
    pub iexten: tcflag_t,
    pub echoctl: tcflag_t,
    pub echoke: tcflag_t,
    pub pendin: tcflag_t,
}

/// The two line speeds that the copy rule knows by name.
#[derive(Clone, Copy, Debug, PartialEq, Eq, Structural)]
pub struct Speeds {
    /// The speed that hangs up the line.
    pub hangup: speed_t,
    /// The speed written in place of a hang-up.
    pub fallback: speed_t,
}

/// A target's numbering of flags and speeds.
///
/// Every numbering is well formed: its hang-up speed is zero and its fallback
/// speed is not. A value can only be made by [`Platform::new`], which checks
/// this, or by [`Platform::native`].
#[derive(Clone, Copy, Debug, PartialEq, Eq)]
pub struct Platform {
    input: InputBits,
    output: OutputBits,
    control: ControlBits,
    local: LocalBits,
    speeds: Speeds,
}

impl InputBits {
    /// All carried input flags in one word.
    pub open spec fn mask(self) -> tcflag_t {
        self.ignpar | self.parmrk | self.inpck | self.istrip | self.inlcr | self.igncr
            | self.icrnl | self.ixon | self.ixany | self.ixoff | self.imaxbel | self.iutf8
    }

    /// All carried input flags in one word.
    pub fn all(&self) -> (mask: tcflag_t)
        ensures
            mask == self.mask(),
    {
        self.ignpar | self.parmrk | self.inpck | self.istrip | self.inlcr | self.igncr
            | self.icrnl | self.ixon | self.ixany | self.ixoff | self.imaxbel | self.iutf8
    }
}

impl OutputBits {
    /// All carried output flags in one word.
    pub open spec fn mask(self) -> tcflag_t {
        self.opost | self.olcuc | self.onlcr | self.ocrnl | self.onocr | self.onlret
    }

    /// All carried output flags in one word.
    pub fn all(&self) -> (mask: tcflag_t)
        ensures
            mask == self.mask(),
    {
        self.opost | self.olcuc | self.onlcr | self.ocrnl | self.onocr | self.onlret
    }
}

impl ControlBits {
    /// All carried control flags in one word.
    pub open spec fn mask(self) -> tcflag_t {
        self.cs7 | self.cs8 | self.parenb | self.parodd
    }

    /// All carried control flags in one word.
    pub fn all(&self) -> (mask: tcflag_t)
        ensures
            mask == self.mask(),
    {
        self.cs7 | self.cs8 | self.parenb | self.parodd
    }
}

impl LocalBits {
    /// All carried local flags in one word.
    pub open spec fn mask(self) -> tcflag_t {
        self.isig | self.icanon | self.echo | self.echoe | self.echok | self.echonl
            | self.noflsh | self.tostop | self.iexten | self.echoctl | self.echoke | self.pendin
    }

    /// All carried local flags in one word.
    pub fn all(&self) -> (mask: tcflag_t)
        ensures
            mask == self.mask(),
    {
        self.isig | self.icanon | self.echo | self.echoe | self.echok | self.echonl
            | self.noflsh | self.tostop | self.iexten | self.echoctl | self.echoke | self.pendin
    }
}

impl Speeds {
    /// What the rules need of two speeds: the hang-up speed is zero and the
    /// fallback speed is not.
    pub open spec fn wf(self) -> bool {
        self.hangup == 0 && self.fallback != 0
    }
}

impl Platform {
    /// The numbering of the input modes.
    pub closed spec fn input(self) -> InputBits {
        self.input
    }

    /// The numbering of the output modes.
    pub closed spec fn output(self) -> OutputBits {
        self.output
    }

    /// The numbering of the control modes.
    pub closed spec fn control(self) -> ControlBits {
        self.control
    }

    /// The numbering of the local modes.
    pub closed spec fn local(self) -> LocalBits {
        self.local
    }

    /// The two named line speeds.
    pub closed spec fn speeds(self) -> Speeds {
        self.speeds
    }

    /// Whether the numbering is well formed. This holds of every value that
    /// executable code can hold; it is a condition only on values that exist
    /// in proofs alone.
    #[verifier::type_invariant]
    pub open spec fn wf(self) -> bool {
        self.speeds().wf()
    }

    /// A numbering from its parts, or nothing if the hang-up speed is not zero
    /// or the fallback speed is zero.
    pub fn new(
        input: InputBits,
        output: OutputBits,
        control: ControlBits,
        local: LocalBits,
        speeds: Speeds,
    ) -> (platform: Option<Platform>)
        ensures
            platform is Some <==> speeds.wf(),
            platform matches Some(p) ==> {
                &&& p.input() == input
                &&& p.output() == output
                &&& p.control() == control
                &&& p.local() == local
                &&& p.speeds() == speeds
            },
    {
        if speeds.hangup == 0 && speeds.fallback != 0 {
            Some(Platform { input, output, control, local, speeds })
        } else {
            None
        }
    }

    /// The numbering of the target that the crate is compiled for.
    pub fn native() -> (platform: Platform)
        ensures
            platform.wf(),
    {
        Platform {
            input: libc_input_bits(),
            output: libc_output_bits(),
            control: libc_control_bits(),
            local: libc_local_bits(),
            speeds: libc_speeds(),
        }
    }

    /// The numbering of the input modes.
    pub fn input_bits(&self) -> (bits: InputBits)
        ensures
            bits == self.input(),
    {
        self.input
    }

    /// The numbering of the output modes.
    pub fn output_bits(&self) -> (bits: OutputBits)
        ensures
            bits == self.output(),
    {
        self.output
    }

    /// The numbering of the control modes.
    pub fn control_bits(&self) -> (bits: ControlBits)
        ensures
            bits == self.control(),
    {
        self.control
    }

    /// The numbering of the local modes.
    pub fn local_bits(&self) -> (bits: LocalBits)
        ensures
            bits == self.local(),
    {
        self.local
    }

    /// The two named line speeds, which are well formed.
    pub fn line_speeds(&self) -> (speeds: Speeds)
        ensures
            speeds == self.speeds(),
            speeds.wf(),
    {
        proof {
            use_type_invariant(self);
        }
        self.speeds
    }
}

/// Reads the input-mode constants of `libc` (`IGNPAR` to `IUTF8`), each into
/// the field of its name. Their values differ between targets, so nothing is
/// claimed about them.
#[verifier::external_body]
fn libc_input_bits() -> (bits: InputBits) {
    InputBits {
        ignpar: libc::IGNPAR, parmrk: libc::PARMRK, inpck: libc::INPCK,
        istrip: libc::ISTRIP, inlcr: libc::INLCR, igncr: libc::IGNCR,
        icrnl: libc::ICRNL, ixon: libc::IXON, ixany: libc::IXANY,
        ixoff: libc::IXOFF, imaxbel: libc::IMAXBEL, iutf8: libc::IUTF8,
    }
}

/// Reads the output-mode constants of `libc` (`OPOST` to `ONLRET`), each into
/// the field of its name. Nothing is claimed about their values.
#[verifier::external_body]
fn libc_output_bits() -> (bits: OutputBits) {
    OutputBits {
        opost: libc::OPOST, olcuc: libc::OLCUC, onlcr: libc::ONLCR,
        ocrnl: libc::OCRNL, onocr: libc::ONOCR, onlret: libc::ONLRET,
    }
}

/// Reads the control-mode constants `CS7`, `CS8`, `PARENB` and `PARODD` of
/// `libc`, each into the field of its name. Nothing is claimed about their
/// values.
#[verifier::external_body]
fn libc_control_bits() -> (bits: ControlBits) {
    ControlBits { cs7: libc::CS7, cs8: libc::CS8, parenb: libc::PARENB, parodd: libc::PARODD }
}

/// Reads the local-mode constants of `libc` (`ISIG` to `PENDIN`), each into
/// the field of its name. Nothing is claimed about their values.
#[verifier::external_body]
fn libc_local_bits() -> (bits: LocalBits) {
    LocalBits {
        isig: libc::ISIG, icanon: libc::ICANON, echo: libc::ECHO,
        echoe: libc::ECHOE, echok: libc::ECHOK, echonl: libc::ECHONL,
        noflsh: libc::NOFLSH, tostop: libc::TOSTOP, iexten: libc::IEXTEN,
        echoctl: libc::ECHOCTL, echoke: libc::ECHOKE, pendin: libc::PENDIN,
    }
}

/// Reads the speed constants `B0` and `B38400` of `libc`. On every target
/// that `libc` defines them for, `B0` is zero and `B38400` is not; no more is
/// claimed.
#[verifier::external_body]
fn libc_speeds() -> (speeds: Speeds)
    ensures
        speeds.hangup == 0,
        speeds.fallback != 0,
{
    Speeds { hangup: libc::B0, fallback: libc::B38400 }
}

} // verus!
