//! The status register.

use vstd::prelude::*;
use vstd::string::StringExecFns;

verus! {

/// What the device is doing, as its status register reports it.
#[derive(Debug, Copy, Clone, PartialEq, Eq, Structural)]
pub struct Status {
    /// A conversion is running (bit 3).
    pub measuring: bool,
    /// The device is copying its non-volatile memory to the image registers
    /// (bit 0).
    pub im_update: bool,
}

/// How a flag is written in a status line.
pub open spec fn flag_text(flag: bool) -> Seq<char> {
    if flag {
        "true"@
    } else {
        "false"@
    }
}

impl Status {
    /// The status that a register byte reports. The other six bits say
    /// nothing.
    pub open spec fn spec_decode(byte: u8) -> Status {
        Status { measuring: (byte / 8) % 2 == 1, im_update: byte % 2 == 1 }
    }

    /// The status that a register byte reports.
    #[verifier::when_used_as_spec(spec_decode)]
    pub fn decode(byte: u8) -> (status: Status)
        ensures
            status == Status::spec_decode(byte),
    {
        assert((0 != (byte & 0b0000_1000u8)) == ((byte / 8) % 2 == 1) && (0 != (byte
            & 0b0000_0001u8)) == (byte % 2 == 1)) by (bit_vector);
        Status { measuring: 0 != (byte & 0b0000_1000), im_update: 0 != (byte & 0b0000_0001) }
    }

    /// The status as one line of text.
    pub open spec fn spec_to_string(self) -> Seq<char> {
        "conversion is running: "@ + flag_text(self.measuring) + ", NVM data being copied: "@
            + flag_text(self.im_update)
    }

    /// The status as one line of text.
    pub fn to_string(&self) -> (line: String)
        ensures
            line@ == self.spec_to_string(),
    {
        let mut line = String::from_str("conversion is running: ");
        line.append(if self.measuring { "true" } else { "false" });
        line.append(", NVM data being copied: ");
        line.append(if self.im_update { "true" } else { "false" });
        line
    }
}

} // verus!
