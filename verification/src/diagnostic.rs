//! What the core has to say to a host's log: the events, their severity and
//! their text. Emitting them is left to the host.

use vstd::prelude::*;

verus! {

/// The sixteen hexadecimal digits, in order of their value.
pub open spec fn hex_digits() -> Seq<char> {
    "0123456789abcdef"@
}

/// The lower-case hexadecimal numeral of `value`, without prefix and without
/// leading zeros.
pub open spec fn hex_text(value: nat) -> Seq<char>
    decreases value,
{
    if value < 16 {
        seq![hex_digits()[value as int]]
    } else {
        hex_text(value / 16).push(hex_digits()[(value % 16) as int])
    }
}

/// Writes `value` as a lower-case hexadecimal numeral.
pub fn to_hex(value: u32) -> (text: String)
    ensures
        text@ == hex_text(value as nat),
    decreases value,
{
    let digits = "0123456789abcdef";
    proof {
        reveal_strlit("0123456789abcdef");
    }
    let last: usize = (value % 16) as usize;
    let digit = digits.substring_ascii(last, last + 1);
    assert(digit@ =~= seq![hex_digits()[last as int]]);
    if value < 16 {
        String::from_str(digit)
    } else {
        let mut text = to_hex(value / 16);
        text.append(digit);
        text
    }
}

/// How serious a diagnostic is.
#[derive(Clone, Copy, Debug, PartialEq, Eq, Structural)]
pub enum Severity {
    Info,
    Warning,
    Error,
}

/// An event for the host's log.
#[derive(Clone, Copy, Debug, PartialEq, Eq, Structural)]
pub enum Diagnostic {
    /// A CPU was constructed.
    CpuCreated,
    /// A CPU was reset.
    CpuReset,
    /// A register-register instruction with an unmapped selector pair.
    UnknownRType { funct3: u32, funct7: u32 },
    /// A register-immediate instruction with an unmapped selector.
    UnknownIType { funct3: u32 },
    /// An instruction of an unmapped family.
    UnknownOpcode { opcode: u32 },
}

impl Diagnostic {
    /// Lifecycle events are informational, an unmapped selector is a
    /// warning, an unmapped opcode is an error.
    pub open spec fn spec_severity(&self) -> Severity {
        match self {
            Diagnostic::CpuCreated | Diagnostic::CpuReset => Severity::Info,
            Diagnostic::UnknownRType { .. } | Diagnostic::UnknownIType { .. } => Severity::Warning,
            Diagnostic::UnknownOpcode { .. } => Severity::Error,
        }
    }

    /// The text of the diagnostic.
    pub open spec fn text(&self) -> Seq<char> {
        match self {
            Diagnostic::CpuCreated => "Creating new RISC-V CPU"@,
            Diagnostic::CpuReset => "CPU reset"@,
            Diagnostic::UnknownRType { funct3, funct7 } => "Unknown R-type instruction: funct3="@
                + hex_text(*funct3 as nat) + ", funct7="@ + hex_text(*funct7 as nat),
            Diagnostic::UnknownIType { funct3 } => "Unknown I-type instruction: funct3="@
                + hex_text(*funct3 as nat),
            Diagnostic::UnknownOpcode { opcode } => "Unknown opcode: "@ + hex_text(*opcode as nat),
        }
    }

    /// Composes the text of the diagnostic, numbers in hexadecimal.
    pub fn message(&self) -> (message: String)
        ensures
            message@ == self.text(),
    {
        match self {
            Diagnostic::CpuCreated => String::from_str("Creating new RISC-V CPU"),
            Diagnostic::CpuReset => String::from_str("CPU reset"),
            Diagnostic::UnknownRType { funct3, funct7 } => {
                let mut message = String::from_str("Unknown R-type instruction: funct3=");
                message.append(to_hex(*funct3).as_str());
                message.append(", funct7=");
                message.append(to_hex(*funct7).as_str());
                message
            },
            Diagnostic::UnknownIType { funct3 } => {
                let mut message = String::from_str("Unknown I-type instruction: funct3=");
                message.append(to_hex(*funct3).as_str());
                message
            },
            Diagnostic::UnknownOpcode { opcode } => {
                let mut message = String::from_str("Unknown opcode: ");
                message.append(to_hex(*opcode).as_str());
                message
            },
        }
    }

    /// The severity at which the diagnostic is logged.
    #[verifier::when_used_as_spec(spec_severity)]
    pub fn severity(&self) -> (severity: Severity)
        ensures
            severity == self.spec_severity(),
    {
        match self {
            Diagnostic::CpuCreated | Diagnostic::CpuReset => Severity::Info,
            Diagnostic::UnknownRType { .. } | Diagnostic::UnknownIType { .. } => Severity::Warning,
            Diagnostic::UnknownOpcode { .. } => Severity::Error,
        }
    }
}

} // verus!
