//! Socket tuning: each option that the configuration asks for is set on the
//! socket and read back, and the answer is held against what was asked.
//!
//! For the two buffer sizes the system reports twice the size that was set,
//! so the answer must be the double of the request. For the congestion
//! control algorithm the answer must be the requested name. Anything else is
//! a fault, and a fault is meant to be fatal: the caller ends the process.

use crate::config::{Args, Tuning, TuningView};
use vstd::prelude::*;
use vstd::slice::{slice_subrange, slice_to_vec};
use vstd::string::StringSliceAdditionalSpecFns;
use vstd::utf8::{encode_utf8, valid_utf8};

verus! {

/// The socket options that the proxy tunes.
#[derive(Clone, Copy, Debug, PartialEq, Eq)]
pub enum SocketOption {
    SendBuffer,
    ReceiveBuffer,
    CongestionControl,
}

/// Why tuning a socket, or reading its tuning, did not go through.
#[derive(Debug, PartialEq, Eq)]
#[allow(inconsistent_fields)]
pub enum TuningFault {
    /// The system refused to set the option; `errno` is its error number.
    SetFailed { option: SocketOption, errno: i32 },
    /// The system refused to report the option; `errno` is its error number.
    GetFailed { option: SocketOption, errno: i32 },
    /// A buffer size was read back that is not twice the requested size.
    BufferMismatch { option: SocketOption, requested: usize, reported: usize },
    /// An algorithm name was read back that is not the requested one.
    CongestionMismatch { requested: String, reported: Vec<u8> },
    /// The algorithm name that the system reported is not text.
    NameNotText { reported: Vec<u8> },
}

/// What the system reports of a socket's tuning.
#[derive(Debug, PartialEq, Eq)]
pub struct TcpInfo {
    pub send_buf: usize,
    pub recv_buf: usize,
    pub congestion_controller: String,
}

/// The number of bytes in front of the first zero byte of `raw`; all of
/// them if there is none.
pub open spec fn name_len(raw: Seq<u8>) -> nat
    decreases raw.len(),
{
    if raw.len() == 0 || raw[0] == 0 {
        0
    } else {
        1 + name_len(raw.drop_first())
    }
}

/// The name in a name field that the system has padded with zero bytes: the
/// bytes in front of the first zero byte.
pub open spec fn name_of(raw: Seq<u8>) -> Seq<u8> {
    raw.subrange(0, name_len(raw) as int)
}

/// The size that the system reports for a buffer of the requested size.
pub open spec fn doubled(requested: usize) -> int {
    2 * requested
}

/// Whether `fault` can come of applying `tuning`: it names the tuning's
/// option, and a mismatch carries the request and an answer that does not
/// fit it.
pub open spec fn fault_of(fault: TuningFault, tuning: TuningView) -> bool {
    match tuning {
        TuningView::SendBuffer(size) => buffer_fault(fault, SocketOption::SendBuffer, size),
        TuningView::ReceiveBuffer(size) => buffer_fault(fault, SocketOption::ReceiveBuffer, size),
        TuningView::Congestion(name) => match fault {
            TuningFault::SetFailed { option, .. } => option == SocketOption::CongestionControl,
            TuningFault::GetFailed { option, .. } => option == SocketOption::CongestionControl,
            TuningFault::CongestionMismatch { requested, reported } => {
                &&& requested@ == name
                &&& reported@ != encode_utf8(name)
            },
            _ => false,
        },
    }
}

/// Whether `fault` can come of asking for a buffer of `size` bytes.
pub open spec fn buffer_fault(fault: TuningFault, which: SocketOption, size: nat) -> bool {
    match fault {
        TuningFault::SetFailed { option, .. } => option == which,
        TuningFault::GetFailed { option, .. } => option == which,
        TuningFault::BufferMismatch { option, requested, reported } => {
            &&& option == which
            &&& requested == size
            &&& reported != 2 * size
        },
        _ => false,
    }
}

/// The position of the first zero byte is where a run of nonzero bytes
/// ends.
pub proof fn lemma_name_len(raw: Seq<u8>, end: int)
    requires
        0 <= end <= raw.len(),
        forall|j: int| 0 <= j < end ==> raw[j] != 0,
        end == raw.len() || raw[end] == 0,
    ensures
        name_len(raw) == end,
    decreases end,
{
    if end > 0 {
        let rest = raw.drop_first();
        assert forall|j: int| 0 <= j < end - 1 implies rest[j] != 0 by {
            assert(rest[j] == raw[j + 1]);
        }
        lemma_name_len(rest, end - 1);
    }
}

/// The name has no zero byte in it, and ends at the first one of the field.
pub proof fn lemma_name_of(raw: Seq<u8>)
    ensures
        name_len(raw) <= raw.len(),
        forall|j: int| 0 <= j < name_len(raw) ==> raw[j] != 0,
        name_len(raw) == raw.len() || raw[name_len(raw) as int] == 0,
    decreases raw.len(),
{
    if raw.len() > 0 && raw[0] != 0 {
        let rest = raw.drop_first();
        lemma_name_of(rest);
        assert forall|j: int| 0 <= j < name_len(raw) implies raw[j] != 0 by {
            if j > 0 {
                assert(rest[j - 1] == raw[j]);
            }
        }
    }
}

/// The name in a zero-padded name field.
pub fn congestion_name(raw: &[u8]) -> (name: &[u8])
    ensures
        name@ == name_of(raw@),
{
    let mut end: usize = 0;
    while end < raw.len() && raw[end] != 0
        invariant
            end <= raw.len(),
            forall|j: int| 0 <= j < end ==> raw@[j] != 0,
        decreases raw.len() - end,
    {
        end += 1;
    }
    proof {
        lemma_name_len(raw@, end as int);
    }
    slice_subrange(raw, 0, end)
}

/// Whether two byte strings are the same.
pub fn same_bytes(left: &[u8], right: &[u8]) -> (same: bool)
    ensures
        same == (left@ == right@),
{
    if left.len() != right.len() {
        return false;
    }
    let mut i: usize = 0;
    while i < left.len()
        invariant
            i <= left.len(),
            left.len() == right.len(),
            forall|j: int| 0 <= j < i ==> left@[j] == right@[j],
        decreases left.len() - i,
    {
        if left[i] != right[i] {
            return false;
        }
        i += 1;
    }
    assert(left@ =~= right@);
    true
}

/// Holds the size that was read back against the size that was asked for:
/// it must be exactly the double.
pub fn check_buffer(option: SocketOption, requested: usize, reported: usize) -> (checked: Result<
    (),
    TuningFault,
>)
    ensures
        checked is Ok <==> reported == doubled(requested),
        checked matches Err(fault) ==> fault == (TuningFault::BufferMismatch {
            option,
            requested,
            reported,
        }),
{
    if reported % 2 == 0 && reported / 2 == requested {
        Ok(())
    } else {
        Err(TuningFault::BufferMismatch { option, requested, reported })
    }
}

/// Holds the name field that was read back against the name that was asked
/// for: the name in the field must be the requested name, byte for byte.
pub fn check_congestion(requested: &str, reported: &[u8]) -> (checked: Result<(), TuningFault>)
    ensures
        checked is Ok <==> name_of(reported@) == requested.spec_bytes(),
        checked matches Err(fault) ==> fault matches TuningFault::CongestionMismatch {
            requested: asked,
            reported: answered,
        } && asked@ == requested@ && answered@ == name_of(reported@),
{
    let name = congestion_name(reported);
    if same_bytes(name, requested.as_bytes()) {
        Ok(())
    } else {
        Err(
            TuningFault::CongestionMismatch {
                requested: requested.to_owned(),
                reported: slice_to_vec(name),
            },
        )
    }
}

/// `nix::sys::socket::setsockopt` with the option `SndBuf`: asks the system
/// to set the send-buffer size of the socket `fd`. Nothing is claimed of the
/// answer; an error is handed on as its number.
#[verifier::external_body]
fn set_send_buffer(fd: i32, size: usize) -> (set: Result<(), i32>) {
    match nix::sys::socket::setsockopt(fd, nix::sys::socket::sockopt::SndBuf, &size) {
        Ok(()) => Ok(()),
        Err(errno) => Err(errno as i32),
    }
}

/// `nix::sys::socket::getsockopt` with the option `SndBuf`: asks the system
/// for the send-buffer size of the socket `fd`. Nothing is claimed of the
/// answer; an error is handed on as its number.
#[verifier::external_body]
fn get_send_buffer(fd: i32) -> (got: Result<usize, i32>) {
    match nix::sys::socket::getsockopt(fd, nix::sys::socket::sockopt::SndBuf) {
        Ok(size) => Ok(size),
        Err(errno) => Err(errno as i32),
    }
}

/// `nix::sys::socket::setsockopt` with the option `RcvBuf`: asks the system
/// to set the receive-buffer size of the socket `fd`. Nothing is claimed of
/// the answer; an error is handed on as its number.
#[verifier::external_body]
fn set_receive_buffer(fd: i32, size: usize) -> (set: Result<(), i32>) {
    match nix::sys::socket::setsockopt(fd, nix::sys::socket::sockopt::RcvBuf, &size) {
        Ok(()) => Ok(()),
        Err(errno) => Err(errno as i32),
    }
}

/// `nix::sys::socket::getsockopt` with the option `RcvBuf`: asks the system
/// for the receive-buffer size of the socket `fd`. Nothing is claimed of the
/// answer; an error is handed on as its number.
#[verifier::external_body]
fn get_receive_buffer(fd: i32) -> (got: Result<usize, i32>) {
    match nix::sys::socket::getsockopt(fd, nix::sys::socket::sockopt::RcvBuf) {
        Ok(size) => Ok(size),
        Err(errno) => Err(errno as i32),
    }
}

/// `nix::sys::socket::setsockopt` with the option `TcpCongestion`: asks the
/// system to use the named congestion-control algorithm on the socket `fd`.
/// Nothing is claimed of the answer; an error is handed on as its number.
#[verifier::external_body]
fn set_congestion(fd: i32, name: &str) -> (set: Result<(), i32>) {
    let name = name.to_owned().into();
    match nix::sys::socket::setsockopt(fd, nix::sys::socket::sockopt::TcpCongestion, &name) {
        Ok(()) => Ok(()),
        Err(errno) => Err(errno as i32),
    }
}

/// `nix::sys::socket::getsockopt` with the option `TcpCongestion`: asks the
/// system for the name field of the congestion-control algorithm of the
/// socket `fd`, and hands out the field's bytes. Nothing is claimed of the
/// answer; an error is handed on as its number.
#[verifier::external_body]
fn get_congestion(fd: i32) -> (got: Result<Vec<u8>, i32>) {
    match nix::sys::socket::getsockopt(fd, nix::sys::socket::sockopt::TcpCongestion) {
        Ok(field) => Ok(field.into_encoded_bytes()),
        Err(errno) => Err(errno as i32),
    }
}

/// `String::from_utf8` of std: the text that the bytes encode in UTF-8, and
/// none exactly when the bytes are not valid UTF-8.
#[verifier::external_body]
fn text_of(bytes: Vec<u8>) -> (text: Option<String>)
    ensures
        text is Some <==> valid_utf8(bytes@),
        text matches Some(s) ==> encode_utf8(s@) == bytes@,
{
    String::from_utf8(bytes).ok()
}

/// Sets one option on the socket `fd`, reads it back and checks the answer.
///
/// What the system answers is not known beforehand, so the contract says
/// what holds of every answer: a fault, if there is one, is a fault of this
/// tuning.
pub fn apply_tuning(fd: i32, tuning: &Tuning) -> (applied: Result<(), TuningFault>)
    ensures
        applied matches Err(fault) ==> fault_of(fault, tuning@),
{
    match tuning {
        Tuning::SendBuffer(size) => {
            let option = SocketOption::SendBuffer;
            match after_set(option, set_send_buffer(fd, *size)) {
                Err(fault) => Err(fault),
                Ok(()) => match after_get(option, get_send_buffer(fd)) {
                    Err(fault) => Err(fault),
                    Ok(reported) => check_buffer(option, *size, reported),
                },
            }
        },
        Tuning::ReceiveBuffer(size) => {
            let option = SocketOption::ReceiveBuffer;
            match after_set(option, set_receive_buffer(fd, *size)) {
                Err(fault) => Err(fault),
                Ok(()) => match after_get(option, get_receive_buffer(fd)) {
                    Err(fault) => Err(fault),
                    Ok(reported) => check_buffer(option, *size, reported),
                },
            }
        },
        Tuning::Congestion(name) => {
            let option = SocketOption::CongestionControl;
            match after_set(option, set_congestion(fd, name.as_str())) {
                Err(fault) => Err(fault),
                Ok(()) => match after_get(option, get_congestion(fd)) {
                    Err(fault) => Err(fault),
                    Ok(reported) => check_congestion(name.as_str(), reported.as_slice()),
                },
            }
        },
    }
}

/// Applies to the socket `fd` every option that the configuration asks for,
/// in the order of `Args::plan`, and stops at the first fault.
///
/// A configuration that asks for nothing succeeds, and leaves the socket
/// alone. Otherwise the system decides; a fault, if there is one, is a fault
/// of one of the options asked for.
pub fn configure_socket(fd: i32, args: &Args) -> (configured: Result<(), TuningFault>)
    ensures
        args.plan().len() == 0 ==> configured is Ok,
        configured matches Err(fault) ==> exists|i: int|
            0 <= i < args.plan().len() && fault_of(fault, #[trigger] args.plan()[i]),
{
    let plan = args.tunings();
    let mut i: usize = 0;
    while i < plan.len()
        invariant
            i <= plan@.len(),
            plan@.len() == args.plan().len(),
            forall|k: int| 0 <= k < plan@.len() ==> (#[trigger] plan@[k])@ == args.plan()[k],
        decreases plan.len() - i,
    {
        match apply_tuning(fd, &plan[i]) {
            Ok(()) => {},
            Err(fault) => {
                assert(fault_of(fault, args.plan()[i as int]));
                return Err(fault);
            },
        }
        i += 1;
    }
    Ok(())
}

/// Tunes the two ends of a relay, the inbound connection first, and stops at
/// the first fault.
///
/// A configuration that asks for nothing succeeds. Otherwise the system
/// decides; a fault, if there is one, is a fault of one of the options asked
/// for.
pub fn configure_relay(inbound: i32, outbound: i32, args: &Args) -> (configured: Result<
    (),
    TuningFault,
>)
    ensures
        args.plan().len() == 0 ==> configured is Ok,
        configured matches Err(fault) ==> exists|i: int|
            0 <= i < args.plan().len() && fault_of(fault, #[trigger] args.plan()[i]),
{
    match configure_socket(inbound, args) {
        Ok(()) => configure_socket(outbound, args),
        Err(fault) => Err(fault),
    }
}

impl TcpInfo {
    /// Puts together what the system reported of a socket: the two buffer
    /// sizes as they are, and the algorithm name out of its name field. The
    /// name must be text in UTF-8.
    pub fn assemble(send_buf: usize, recv_buf: usize, name_field: &[u8]) -> (info: Result<
        TcpInfo,
        TuningFault,
    >)
        ensures
            info is Ok <==> valid_utf8(name_of(name_field@)),
            info matches Ok(tcp) ==> {
                &&& tcp.send_buf == send_buf
                &&& tcp.recv_buf == recv_buf
                &&& encode_utf8(tcp.congestion_controller@) == name_of(name_field@)
            },
            info matches Err(fault) ==> fault matches TuningFault::NameNotText { reported }
                && reported@ == name_of(name_field@),
    {
        let name = congestion_name(name_field);
        match text_of(slice_to_vec(name)) {
            Some(congestion_controller) => Ok(
                TcpInfo { send_buf, recv_buf, congestion_controller },
            ),
            None => Err(TuningFault::NameNotText { reported: slice_to_vec(name) }),
        }
    }

    /// Asks the system for the tuning of the socket `fd`.
    ///
    /// What the system answers is not known beforehand: the result is a
    /// report, or the fault of the first question that failed.
    pub fn from(fd: i32) -> (info: Result<TcpInfo, TuningFault>)
        ensures
            info matches Err(fault) ==> fault is GetFailed || fault is NameNotText,
    {
        let send_buf = match after_get(SocketOption::SendBuffer, get_send_buffer(fd)) {
            Ok(size) => size,
            Err(fault) => {
                return Err(fault);
            },
        };
        let recv_buf = match after_get(SocketOption::ReceiveBuffer, get_receive_buffer(fd)) {
            Ok(size) => size,
            Err(fault) => {
                return Err(fault);
            },
        };
        let name_field = match after_get(SocketOption::CongestionControl, get_congestion(fd)) {
            Ok(field) => field,
            Err(fault) => {
                return Err(fault);
            },
        };
        TcpInfo::assemble(send_buf, recv_buf, name_field.as_slice())
    }
}

/// What an answer to setting `option` comes to: a refusal is the fault
/// `SetFailed` of that option, with the system's error number.
pub open spec fn set_verdict(option: SocketOption, answer: Result<(), i32>) -> Result<
    (),
    TuningFault,
> {
    match answer {
        Ok(()) => Ok(()),
        Err(errno) => Err(TuningFault::SetFailed { option, errno }),
    }
}

/// What an answer to reading `option` comes to: the value that was read, or
/// the fault `GetFailed` of that option, with the system's error number.
pub open spec fn get_verdict<T>(option: SocketOption, answer: Result<T, i32>) -> Result<
    T,
    TuningFault,
> {
    match answer {
        Ok(value) => Ok(value),
        Err(errno) => Err(TuningFault::GetFailed { option, errno }),
    }
}

/// Judges the system's answer to setting `option`.
pub fn after_set(option: SocketOption, answer: Result<(), i32>) -> (judged: Result<
    (),
    TuningFault,
>)
    ensures
        judged == set_verdict(option, answer),
{
    match answer {
        Ok(()) => Ok(()),
        Err(errno) => Err(TuningFault::SetFailed { option, errno }),
    }
}

/// Judges the system's answer to reading `option`.
pub fn after_get<T>(option: SocketOption, answer: Result<T, i32>) -> (judged: Result<
    T,
    TuningFault,
>)
    ensures
        judged == get_verdict(option, answer),
{
    match answer {
        Ok(value) => Ok(value),
        Err(errno) => Err(TuningFault::GetFailed { option, errno }),
    }
}

} // verus!
