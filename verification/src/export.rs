//! The export lifecycle that the GPIO and PWM peripherals share.
//!
//! A peripheral is exported exactly while its sysfs directory is there. A
//! request for a state probes for the directory, and writes the peripheral's
//! id to the control file `export` or `unexport` only where the probe shows
//! the other state. Nothing is remembered between two requests.

use crate::enums::DeviceState;
use crate::errors::{Error, IoFailure};
use crate::text::{decimal, decimal_string};
use vstd::prelude::*;
use vstd::string::*;

verus! {

/// The name of the control file that brings a peripheral into the state
/// `requested`.
pub open spec fn control_file(requested: DeviceState) -> Seq<char> {
    match requested {
        DeviceState::Exported => "export"@,
        DeviceState::Unexported => "unexport"@,
    }
}

/// The write that a request for `requested` makes for the peripheral `id`,
/// found in the state `current`, as the path and the text: none where the
/// peripheral is in that state already, else the decimal id to the control
/// file under `control_dir`.
pub open spec fn export_write(
    control_dir: Seq<char>,
    id: u8,
    requested: DeviceState,
    current: DeviceState,
) -> Option<(Seq<char>, Seq<char>)> {
    if requested == current {
        None
    } else {
        Some((control_dir + "/"@ + control_file(requested), decimal(id as nat)))
    }
}

/// The writes of a request, in a sequence: one or none.
pub open spec fn writes(plan: Option<(Seq<char>, Seq<char>)>) -> Seq<(Seq<char>, Seq<char>)> {
    match plan {
        None => seq![],
        Some(write) => seq![write],
    }
}

/// What a request returns for the outcome of its write: any failure of the
/// write is an `ExportFailed` that names the peripheral and the state asked
/// for.
pub open spec fn export_result(
    outcome: Result<(), IoFailure>,
    id: u8,
    requested: DeviceState,
    r: Result<(), Error>,
) -> bool {
    match outcome {
        Ok(()) => r is Ok,
        Err(_) => r == Err::<(), Error>(Error::ExportFailed { id, direction: requested }),
    }
}

/// Whether `probe` can be asked for the directory `directory`.
pub open spec fn accepts_probe<P: FnOnce(&str) -> bool>(probe: P, directory: Seq<char>) -> bool {
    forall|d: &str| d@ == directory ==> #[trigger] probe.requires((d,))
}

/// Whether `write` can be handed the write that a request for `requested`
/// makes, for each state that `probe` may show of `directory`. Nothing is
/// asked of `write` for any other text or file: a function that is given no
/// more than this can call `write` only where the probe has shown the other
/// state, and only with that write.
pub open spec fn accepts_export<
    P: FnOnce(&str) -> bool,
    W: FnOnce(&str, &str) -> Result<(), IoFailure>,
>(
    probe: P,
    write: W,
    directory: Seq<char>,
    control_dir: Seq<char>,
    id: u8,
    requested: DeviceState,
) -> bool {
    forall|d: &str, present: bool, p: &str, t: &str|
        d@ == directory && #[trigger] probe.ensures((d,), present) && export_write(
            control_dir,
            id,
            requested,
            DeviceState::of_probe(present),
        ) == Some((p@, t@)) ==> #[trigger] write.requires((p, t))
}

/// `r` is what comes of a request for `requested`: of one probe for
/// `directory` and, where the state it shows is another, of one call of
/// `write` with the write of `export_write`.
pub open spec fn exported<P: FnOnce(&str) -> bool, W: FnOnce(&str, &str) -> Result<(), IoFailure>>(
    probe: P,
    write: W,
    directory: Seq<char>,
    control_dir: Seq<char>,
    id: u8,
    requested: DeviceState,
    r: Result<(), Error>,
) -> bool {
    exists|d: &str, present: bool|
        d@ == directory && #[trigger] probe.ensures((d,), present) && match export_write(
            control_dir,
            id,
            requested,
            DeviceState::of_probe(present),
        ) {
            None => r is Ok,
            Some(w) => exists|p: &str, t: &str, outcome: Result<(), IoFailure>|
                p@ == w.0 && t@ == w.1 && #[trigger] write.ensures((p, t), outcome)
                    && export_result(outcome, id, requested, r),
        }
}

/// The write that a request for `requested` makes for the peripheral `id`,
/// found in the state `current`: the path of the control file and the text
/// for it, or nothing where the peripheral is in that state already.
pub fn export_request(
    control_dir: &str,
    id: u8,
    requested: DeviceState,
    current: DeviceState,
) -> (plan: Option<(String, String)>)
    ensures
        match plan {
            Some(write) => export_write(control_dir@, id, requested, current) == Some(
                (write.0@, write.1@),
            ),
            None => export_write(control_dir@, id, requested, current) is None,
        },
{
    if requested == current {
        return None;
    }
    let mut path = String::from_str(control_dir);
    path.append("/");
    path.append(
        match requested {
            DeviceState::Exported => "export",
            DeviceState::Unexported => "unexport",
        },
    );
    Some((path, decimal_string(id as u32)))
}

/// Brings the peripheral `id` into the state `state`.
///
/// `probe` says whether `directory`, the peripheral's own directory, is
/// there. Where that shows the state asked for, `write` is not called and
/// the request succeeds. Else `write` gets the id for the control file under
/// `control_dir`, and a failure of it is reported as `ExportFailed`.
pub fn set_export<P: FnOnce(&str) -> bool, W: FnOnce(&str, &str) -> Result<(), IoFailure>>(
    directory: &str,
    control_dir: &str,
    id: u8,
    state: DeviceState,
    probe: P,
    write: W,
) -> (r: Result<(), Error>)
    requires
        accepts_probe(probe, directory@),
        accepts_export(probe, write, directory@, control_dir@, id, state),
    ensures
        exported(probe, write, directory@, control_dir@, id, state, r),
{
    let present = probe(directory);
    assert(probe.ensures((directory,), present));
    match export_request(control_dir, id, state, DeviceState::probed(present)) {
        None => Ok(()),
        Some((path, text)) => {
            let path: &str = path.as_str();
            let text: &str = text.as_str();
            let outcome = write(path, text);
            let r = match outcome {
                Ok(()) => Ok(()),
                Err(_) => Err(Error::ExportFailed { id, direction: state }),
            };
            assert(write.ensures((path, text), outcome) && export_result(outcome, id, state, r));
            r
        },
    }
}

/// The state of a peripheral once a request for `requested` has succeeded:
/// the state asked for, whatever it was before, as the kernel makes or
/// removes the peripheral's directory on the write, and as no write was
/// needed where there was none.
pub open spec fn state_after(requested: DeviceState, current: DeviceState) -> DeviceState {
    requested
}

/// A request for the state that a peripheral is in makes no write.
pub proof fn lemma_request_in_state_writes_nothing(
    control_dir: Seq<char>,
    id: u8,
    state: DeviceState,
)
    ensures
        export_write(control_dir, id, state, state) is None,
        writes(export_write(control_dir, id, state, state)).len() == 0,
{
}

/// A request is idempotent: made again after it has succeeded, it makes no
/// write. So two requests in a row for a state that the peripheral was not in
/// make exactly one write between them, the first one's, of the peripheral's
/// decimal id to the control file of that state.
pub proof fn lemma_request_twice_writes_once(
    control_dir: Seq<char>,
    id: u8,
    requested: DeviceState,
    current: DeviceState,
)
    ensures
        export_write(control_dir, id, requested, state_after(requested, current)) is None,
        current != requested ==> writes(export_write(control_dir, id, requested, current))
            + writes(export_write(control_dir, id, requested, state_after(requested, current)))
            == seq![(control_dir + "/"@ + control_file(requested), decimal(id as nat))],
{
    let first = writes(export_write(control_dir, id, requested, current));
    assert(first + Seq::<(Seq<char>, Seq<char>)>::empty() =~= first);
}

} // verus!
