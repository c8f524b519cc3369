//! The boot-target dispatcher.
//!
//! [`boot`] maps a target to the platform work it needs. The platform layer
//! does that work and reports back through [`Platform::finish`], which gives
//! the menu loop its answer: `Ok(true)` ends the loop, `Ok(false)` shows the
//! menu again, and an error is shown to the user before the menu comes back.

use vstd::prelude::*;
use vstd::string::*;
use crate::config::BootTarget;
use crate::error::{B2Error, EfiError};
use crate::text::push_char;

verus! {

/// An EFI image to chain-load.
#[derive(Debug, Clone)]
pub struct EFIBoot {
    /// Path of the image, relative to the device the loader was started from.
    pub path: String,
    /// Command line handed to the image.
    pub cmdline: Option<String>,
    /// Device holding the image, when it is not the loader's own.
    pub device: Option<String>,
}

#[derive(Debug, Clone, Copy, PartialEq, Eq, Structural)]
pub enum ResetKind {
    Cold,
    Shutdown,
}

/// The work that selecting a boot target asks of the platform.
#[derive(Debug)]
pub enum Dispatch {
    /// Nothing to do: this is the answer for the menu loop.
    Done(Result<bool, B2Error>),
    /// Load and start the image; see [`EFIBoot::full_path`] and
    /// [`EFIBoot::load_options`]. Starting does not return on success.
    ChainLoad(EFIBoot),
    /// Read the firmware's `OsIndicationsSupported` variable and hand it to
    /// [`Platform::firmware_setup_request`].
    RebootToFirmwareSetup,
    /// Reset the machine; this does not return on success.
    Reset(ResetKind),
    /// Print each memory-map region's type and virtual start address.
    ShowMemoryMap,
    /// Print the message.
    Show(String),
    /// Warn that the target is not supported; nothing is executed.
    Unsupported,
    /// Halt the loader on purpose.
    Halt,
}

pub struct Platform {}

/// The platform work for `target`.
pub open spec fn dispatch_of(target: BootTarget) -> Dispatch {
    match target {
        BootTarget::EFI { path, cmdline } => Dispatch::ChainLoad(
            EFIBoot { path, cmdline, device: None },
        ),
        BootTarget::Linux { .. } => Dispatch::Done(Err(B2Error::Unavailable)),
        BootTarget::Message(m) => Dispatch::Show(m),
        BootTarget::FirmwareSetup => Dispatch::RebootToFirmwareSetup,
        BootTarget::Reboot => Dispatch::Reset(ResetKind::Cold),
        BootTarget::Poweroff => Dispatch::Reset(ResetKind::Shutdown),
        BootTarget::Exit => Dispatch::Done(Ok(true)),
        BootTarget::Debug => Dispatch::ShowMemoryMap,
        BootTarget::Nop => Dispatch::Done(Ok(false)),
        BootTarget::Panic => Dispatch::Halt,
        BootTarget::Unknown => Dispatch::Unsupported,
    }
}

/// The menu loop's answer once the platform has done the work of `d`, with
/// `outcome` its report: `Ok` if the work returned normally.
pub open spec fn finished(d: Dispatch, outcome: Result<(), EfiError>) -> Result<bool, B2Error> {
    match d {
        Dispatch::Done(r) => r,
        Dispatch::Halt => Ok(true),
        Dispatch::ChainLoad(_) => match outcome {
            Ok(_) => Err(B2Error::PlatformError(EfiError::BootReturned)),
            Err(e) => Err(B2Error::PlatformError(e)),
        },
        Dispatch::RebootToFirmwareSetup | Dispatch::Reset(_) => match outcome {
            Ok(_) => Err(B2Error::PlatformError(EfiError::ResetReturned)),
            Err(e) => Err(B2Error::PlatformError(e)),
        },
        Dispatch::ShowMemoryMap | Dispatch::Show(_) | Dispatch::Unsupported => match outcome {
            Ok(_) => Ok(false),
            Err(e) => Err(B2Error::PlatformError(e)),
        },
    }
}

/// Whether the firmware's `OsIndicationsSupported` value (little endian)
/// offers booting into its setup: its lowest bit.
pub open spec fn firmware_setup_supported(indications: Seq<u8>) -> bool {
    indications.len() > 0 && indications[0] & 1 == 1
}

/// The `OsIndications` value that asks for firmware setup at the next boot.
pub open spec fn boot_to_firmware_ui() -> Seq<u8> {
    seq![1u8, 0, 0, 0, 0, 0, 0, 0]
}

/// The platform work for `target`.
pub fn boot(target: &BootTarget) -> (d: Dispatch)
    ensures
        d == dispatch_of(*target),
{
    match target {
        BootTarget::EFI { path, cmdline } => {
            let cmdline = match cmdline {
                Some(c) => Some(c.clone()),
                None => None,
            };
            Dispatch::ChainLoad(EFIBoot { path: path.clone(), cmdline, device: None })
        },
        BootTarget::Linux { .. } => Dispatch::Done(Err(B2Error::Unavailable)),
        BootTarget::Message(m) => Dispatch::Show(m.clone()),
        BootTarget::FirmwareSetup => Dispatch::RebootToFirmwareSetup,
        BootTarget::Reboot => Dispatch::Reset(ResetKind::Cold),
        BootTarget::Poweroff => Dispatch::Reset(ResetKind::Shutdown),
        BootTarget::Exit => Dispatch::Done(Ok(true)),
        BootTarget::Debug => Dispatch::ShowMemoryMap,
        BootTarget::Nop => Dispatch::Done(Ok(false)),
        BootTarget::Panic => Dispatch::Halt,
        BootTarget::Unknown => Dispatch::Unsupported,
    }
}

/// Exit ends the menu loop; no-op and message continue it.
pub proof fn lemma_menu_continuation(message: String)
    ensures
        finished(dispatch_of(BootTarget::Exit), Ok(())) == Ok::<bool, B2Error>(true),
        dispatch_of(BootTarget::Nop) == Dispatch::Done(Ok(false)),
        finished(dispatch_of(BootTarget::Nop), Ok(())) == Ok::<bool, B2Error>(false),
        dispatch_of(BootTarget::Message(message)) == Dispatch::Show(message),
        finished(dispatch_of(BootTarget::Message(message)), Ok(())) == Ok::<bool, B2Error>(
            false,
        ),
{
}

impl Platform {
    /// The menu loop's answer once the work of `d` has been done.
    pub fn finish(d: Dispatch, outcome: Result<(), EfiError>) -> (r: Result<bool, B2Error>)
        ensures
            r == finished(d, outcome),
    {
        match d {
            Dispatch::Done(r) => r,
            Dispatch::Halt => Ok(true),
            Dispatch::ChainLoad(_) => match outcome {
                Ok(_) => Err(B2Error::PlatformError(EfiError::BootReturned)),
                Err(e) => Err(B2Error::PlatformError(e)),
            },
            Dispatch::RebootToFirmwareSetup | Dispatch::Reset(_) => match outcome {
                Ok(_) => Err(B2Error::PlatformError(EfiError::ResetReturned)),
                Err(e) => Err(B2Error::PlatformError(e)),
            },
            Dispatch::ShowMemoryMap | Dispatch::Show(_) | Dispatch::Unsupported => match outcome {
                Ok(_) => Ok(false),
                Err(e) => Err(B2Error::PlatformError(e)),
            },
        }
    }

    /// Checks the firmware's `OsIndicationsSupported` variable, as read, and
    /// gives the `OsIndications` value to write before the cold reset.
    pub fn firmware_setup_request(read: Result<Vec<u8>, EfiError>) -> (r: Result<
        Vec<u8>,
        B2Error,
    >)
        ensures
            read matches Err(e) ==> r == Err::<Vec<u8>, B2Error>(B2Error::PlatformError(e)),
            read matches Ok(v) && firmware_setup_supported(v@) ==> (r matches Ok(w) && w@
                == boot_to_firmware_ui()),
            read matches Ok(v) && !firmware_setup_supported(v@) ==> r == Err::<Vec<u8>, B2Error>(
                B2Error::FirmwareSetupUnsupported,
            ),
    {
        match read {
            Err(e) => Err(B2Error::PlatformError(e)),
            Ok(v) => {
                if v.len() > 0 && v[0] & 1 == 1 {
                    let mut w: Vec<u8> = Vec::new();
                    w.push(1);
                    let mut i: usize = 1;
                    while i < 8
                        invariant
                            1 <= i <= 8,
                            w@ == boot_to_firmware_ui().subrange(0, i as int),
                        decreases 8 - i,
                    {
                        w.push(0);
                        i = i + 1;
                        proof {
                            assert(w@ =~= boot_to_firmware_ui().subrange(0, i as int));
                        }
                    }
                    proof {
                        assert(w@ =~= boot_to_firmware_ui());
                    }
                    Ok(w)
                } else {
                    Err(B2Error::FirmwareSetupUnsupported)
                }
            },
        }
    }
}

impl EFIBoot {
    pub fn from_path(path: &str) -> (b: EFIBoot)
        ensures
            b.path@ == path@,
            b.cmdline is None,
            b.device is None,
    {
        EFIBoot { path: String::from_str(path), cmdline: None, device: None }
    }

    pub fn create(path: &str, cmdline: Option<&str>) -> (b: EFIBoot)
        ensures
            b.path@ == path@,
            cmdline is None ==> b.cmdline is None,
            cmdline matches Some(c) ==> (b.cmdline matches Some(d) && d@ == c@),
            b.device is None,
    {
        let cmdline = match cmdline {
            Some(c) => Some(String::from_str(c)),
            None => None,
        };
        EFIBoot { path: String::from_str(path), cmdline, device: None }
    }

    /// The device path text of the image: the text of the loader's own
    /// device, a `/`, then the text of the image's path. The platform has no
    /// device-path join, so the two texts are joined and parsed again.
    pub fn full_path(root_text: &str, file_text: &str) -> (r: String)
        ensures
            r@ == root_text@ + seq!['/'] + file_text@,
    {
        let mut r = String::from_str(root_text);
        push_char(&mut r, '/');
        r.append(file_text);
        r
    }

    /// The command line to hand to the image: its own, or an empty one.
    pub fn load_options(&self) -> (r: String)
        ensures
            self.cmdline matches Some(c) ==> r@ == c@,
            self.cmdline is None ==> r@ == Seq::<char>::empty(),
    {
        match &self.cmdline {
            Some(c) => c.clone(),
            None => String::new(),
        }
    }
}

} // verus!
