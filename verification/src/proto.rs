//! The calls that a Keep loader answers: `Info` and `Boot`.
//!
//! The messages are plain values. How they are framed and carried is left to
//! the transport; what the loader answers to each request is decided here.

use crate::text::{decimal, decimal_text};
use vstd::prelude::*;

verus! {

/// The version of this package, as `Info` reports it.
pub const VERSION: &'static str = "0.1.0";

/// The outcome of a call, for a machine to read.
#[derive(Debug, Clone, Copy, PartialEq, Eq, Structural)]
pub enum Code {
    /// The call did what it was asked to do.
    Okay,
    /// The call failed, and nothing more is known.
    Unknown,
}

/// The code that the number `n` stands for on the wire.
pub open spec fn code_of(n: int) -> Option<Code> {
    if n == 0 {
        Some(Code::Okay)
    } else if n == 1 {
        Some(Code::Unknown)
    } else {
        None
    }
}

/// The number that stands for `c` on the wire.
pub open spec fn number_of(c: Code) -> int {
    match c {
        Code::Okay => 0,
        Code::Unknown => 1,
    }
}

impl Code {
    /// The code that a number of the wire stands for, if it stands for one.
    pub fn from_i32(value: i32) -> (r: Option<Code>)
        ensures
            r == code_of(value as int),
    {
        match value {
            0 => Some(Code::Okay),
            1 => Some(Code::Unknown),
            _ => None,
        }
    }

    /// The number that stands for the code on the wire.
    pub fn to_i32(self) -> (r: i32)
        ensures
            r == number_of(self),
            code_of(r as int) == Some(self),
    {
        match self {
            Code::Okay => 0,
            Code::Unknown => 1,
        }
    }
}

/// A record that says more about an outcome.
#[derive(Debug, PartialEq, Eq)]
pub struct Detail {
    /// What kind of record this is.
    pub type_url: String,
    /// The record, encoded as its kind says.
    pub value: Vec<u8>,
}

/// The answer to `Boot`.
#[derive(Debug, PartialEq, Eq)]
pub struct BootResult {
    /// The outcome, as a number of the wire.
    pub code: i32,
    /// The outcome in words.
    pub message: String,
    /// Records that say more.
    pub details: Vec<Detail>,
}

impl BootResult {
    /// The outcome. A number that stands for no code reads as [`Code::Okay`],
    /// the code that an unset field has.
    pub fn code(&self) -> (r: Code)
        ensures
            r == match code_of(self.code as int) {
                Some(c) => c,
                None => Code::Okay,
            },
    {
        match Code::from_i32(self.code) {
            Some(c) => c,
            None => Code::Okay,
        }
    }
}

/// Marks that the loader can drive SGX.
#[derive(Debug, Clone, Copy, PartialEq, Eq, Structural)]
pub struct SgxInfo {}

/// Marks that the loader can drive KVM.
#[derive(Debug, Clone, Copy, PartialEq, Eq, Structural)]
pub struct KvmInfo {}

/// Marks that the loader can drive SEV.
#[derive(Debug, Clone, Copy, PartialEq, Eq, Structural)]
pub struct SevInfo {}

/// The backends that a loader can drive.
#[derive(Debug, Clone, Copy, PartialEq, Eq, Structural)]
pub struct BackendInfo {
    pub sgx: Option<SgxInfo>,
    pub kvm: Option<KvmInfo>,
    pub sev: Option<SevInfo>,
}

/// The answer to `Info`.
#[derive(Debug, PartialEq, Eq)]
pub struct KeepldrInfo {
    pub name: String,
    pub version: String,
    pub sallyport_version: String,
    pub backend: Option<BackendInfo>,
}

/// The request of `Info`.
#[derive(Debug, Clone, Copy, PartialEq, Eq, Structural)]
pub struct InfoRequest {}

/// The request of `Boot`: the shim and the code to run on it.
#[derive(Debug, PartialEq, Eq)]
pub struct BootRequest {
    pub shim: Vec<u8>,
    pub executable: Vec<u8>,
}

/// The numbers of `b` in decimal, with `, ` between them.
pub open spec fn listed(b: Seq<u8>) -> Seq<char>
    decreases b.len(),
{
    if b.len() == 0 {
        Seq::<char>::empty()
    } else if b.len() == 1 {
        decimal_text(b[0] as int)
    } else {
        listed(b.drop_last()) + ", "@ + decimal_text(b.last() as int)
    }
}

/// How a run of bytes is shown to a reader: `[1, 2, 3]`.
pub open spec fn debug_text(b: Seq<u8>) -> Seq<char> {
    "["@ + listed(b) + "]"@
}

/// The words in which `Boot` answers for a shim and the code to run on it.
pub open spec fn boot_message(shim: Seq<u8>, executable: Seq<u8>) -> Seq<char> {
    "shim: "@ + debug_text(shim) + " exec: "@ + debug_text(executable)
}

/// Shows a run of bytes as a list of decimal numbers in square brackets.
pub fn debug_bytes(b: &[u8]) -> (r: String)
    ensures
        r@ == debug_text(b@),
{
    let mut out = String::from_str("[");
    let mut i: usize = 0;
    assert(b@.take(0) =~= Seq::<u8>::empty());
    assert(out@ =~= "["@ + listed(b@.take(0)));
    while i < b.len()
        invariant
            i <= b@.len(),
            out@ == "["@ + listed(b@.take(i as int)),
        decreases b@.len() - i,
    {
        let ghost before = out@;
        if i > 0 {
            out.append(", ");
        }
        let digits = decimal(b[i] as u64);
        out.append(digits.as_str());
        assert(b@.take(i + 1).drop_last() =~= b@.take(i as int));
        assert(b@.take(i + 1).last() == b@[i as int]);
        assert(out@ =~= "["@ + listed(b@.take(i + 1)));
        i += 1;
    }
    assert(b@.take(b@.len() as int) =~= b@);
    out.append("]");
    out
}

/// The state of the loader's service. It keeps nothing from one call to the
/// next.
#[derive(Debug, Default)]
pub struct KeepldrState {}

impl KeepldrState {
    /// Answers `Info`: who the loader is, and which backends it can drive.
    pub fn info(&self, _req: &InfoRequest) -> (r: KeepldrInfo)
        ensures
            r.name@ == "enarx serve"@,
            r.version@ == VERSION@,
            r.sallyport_version@ == "0.1.0"@,
            r.backend == Some(BackendInfo { sgx: None, kvm: None, sev: None }),
    {
        KeepldrInfo {
            name: String::from_str("enarx serve"),
            version: String::from_str(VERSION),
            sallyport_version: String::from_str("0.1.0"),
            backend: Some(BackendInfo { sgx: None, kvm: None, sev: None }),
        }
    }

    /// Answers `Boot`. Whatever the two blobs hold, the answer carries a code
    /// and says in words what was received.
    pub fn boot(&self, request: &BootRequest) -> (r: BootResult)
        ensures
            r.code == number_of(Code::Unknown),
            code_of(r.code as int) is Some,
            r.message@ == boot_message(request.shim@, request.executable@),
            r.message@.len() > 0,
            r.details@.len() == 0,
    {
        let mut message = String::from_str("shim: ");
        proof {
            reveal_strlit("shim: ");
        }
        let shim = debug_bytes(request.shim.as_slice());
        message.append(shim.as_str());
        message.append(" exec: ");
        let executable = debug_bytes(request.executable.as_slice());
        message.append(executable.as_str());
        BootResult { code: Code::Unknown.to_i32(), message, details: Vec::new() }
    }
}

} // verus!
